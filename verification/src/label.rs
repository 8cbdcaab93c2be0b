//! The symbolic invocation labels of the kernel interface.
//!
//! A label stands for one operation of the kernel. Its number differs from
//! one kernel build to the next, so it is looked up by name in the table of
//! the build at hand.

use vstd::prelude::*;

verus! {

#[derive(Debug, Clone, Copy, PartialEq, Eq, Structural)]
pub enum InvocationLabel {
    // Untyped
    UntypedRetype,
    // TCB
    TCBReadRegisters,
    TCBWriteRegisters,
    TCBCopyRegisters,
    TCBConfigure,
    TCBSetPriority,
    TCBSetMCPriority,
    TCBSetSchedParams,
    TCBSetTimeoutEndpoint,
    TCBSetIPCBuffer,
    TCBSetSpace,
    TCBSuspend,
    TCBResume,
    TCBBindNotification,
    TCBUnbindNotification,
    TCBSetTLSBase,
    // CNode
    CNodeRevoke,
    CNodeDelete,
    CNodeCancelBadgedSends,
    CNodeCopy,
    CNodeMint,
    CNodeMove,
    CNodeMutate,
    CNodeRotate,
    // IRQ
    IRQIssueIRQHandler,
    IRQAckIRQ,
    IRQSetIRQHandler,
    IRQClearIRQHandler,
    // Domain
    DomainSetSet,
    // Scheduling
    SchedControlConfigureFlags,
    SchedContextBind,
    SchedContextUnbind,
    SchedContextUnbindObject,
    SchedContextConsume,
    SchedContextYieldTo,
    // ARM VSpace
    ARMVSpaceCleanData,
    ARMVSpaceInvalidateData,
    ARMVSpaceCleanInvalidateData,
    ARMVSpaceUnifyInstruction,
    // ARM SMC
    ARMSMCCall,
    // ARM Page table
    ARMPageTableMap,
    ARMPageTableUnmap,
    // ARM Page
    ARMPageMap,
    ARMPageUnmap,
    ARMPageCleanData,
    ARMPageInvalidateData,
    ARMPageCleanInvalidateData,
    ARMPageUnifyInstruction,
    ARMPageGetAddress,
    // ARM Asid
    ARMASIDControlMakePool,
    ARMASIDPoolAssign,
    // ARM vCPU
    ARMVCPUSetTCB,
    ARMVCPUInjectIRQ,
    ARMVCPUReadReg,
    ARMVCPUWriteReg,
    ARMVCPUAckVppi,
    // ARM IRQ
    ARMIRQIssueIRQHandlerTrigger,
    // RISC-V Page Table
    RISCVPageTableMap,
    RISCVPageTableUnmap,
    // RISC-V Page
    RISCVPageMap,
    RISCVPageUnmap,
    RISCVPageGetAddress,
    // RISC-V ASID
    RISCVASIDControlMakePool,
    RISCVASIDPoolAssign,
    // RISC-V IRQ
    RISCVIRQIssueIRQHandlerTrigger,
    // X86 PDPT
    X86PDPTMap,
    X86PDPTUnmap,
    // X86 Page Directory
    X86PageDirectoryMap,
    X86PageDirectoryUnmap,
    // X86 Page Table
    X86PageTableMap,
    X86PageTableUnmap,
    // X86 IO Page
    X86IOPageTableMap,
    X86IOPageTableUnmap,
    // X86 Page
    X86PageMap,
    X86PageUnmap,
    X86PageMapIO,
    X86PageGetAddress,
    X86PageMapEPT,
    // X86 ASID
    X86ASIDControlMakePool,
    // X86 ASID Pool
    X86ASIDPoolAssign,
    // X86 IO Port Control
    X86IOPortControlIssue,
    // X86 IO PORT
    X86IOPortIn8,
    X86IOPortIn16,
    X86IOPortIn32,
    X86IOPortOut8,
    X86IOPortOut16,
    X86IOPortOut32,
    // X86 IRQ
    X86IRQIssueIRQHandlerIOAPIC,
    X86IRQIssueIRQHandlerMSI,
    // X86 TCB
    TCBSetEPTRoot,
    // X86 VCPU
    X86VCPUSetTCB,
    X86VCPUReadVMCS,
    X86VCPUWriteVMCS,
    X86VCPUEnableIOPort,
    X86VCPUDisableIOPort,
    X86VCPUWriteRegisters,
    // X86 EPTPDPT
    X86EPTPDPTMap,
    X86EPTPDPTUnmap,
    // X86 EPTPD
    X86EPTPDMap,
    X86EPTPDUnmap,
    // X86 EPTPT
    X86EPTPTMap,
    X86EPTPTUnmap,
}

impl InvocationLabel {
    /// The name under which the label stands in the table of a kernel
    /// build: the identifier of the variant.
    pub open spec fn spec_name(self) -> Seq<char> {
        match self {
            InvocationLabel::UntypedRetype => "UntypedRetype"@,
            InvocationLabel::TCBReadRegisters => "TCBReadRegisters"@,
            InvocationLabel::TCBWriteRegisters => "TCBWriteRegisters"@,
            InvocationLabel::TCBCopyRegisters => "TCBCopyRegisters"@,
            InvocationLabel::TCBConfigure => "TCBConfigure"@,
            InvocationLabel::TCBSetPriority => "TCBSetPriority"@,
            InvocationLabel::TCBSetMCPriority => "TCBSetMCPriority"@,
            InvocationLabel::TCBSetSchedParams => "TCBSetSchedParams"@,
            InvocationLabel::TCBSetTimeoutEndpoint => "TCBSetTimeoutEndpoint"@,
            InvocationLabel::TCBSetIPCBuffer => "TCBSetIPCBuffer"@,
            InvocationLabel::TCBSetSpace => "TCBSetSpace"@,
            InvocationLabel::TCBSuspend => "TCBSuspend"@,
            InvocationLabel::TCBResume => "TCBResume"@,
            InvocationLabel::TCBBindNotification => "TCBBindNotification"@,
            InvocationLabel::TCBUnbindNotification => "TCBUnbindNotification"@,
            InvocationLabel::TCBSetTLSBase => "TCBSetTLSBase"@,
            InvocationLabel::CNodeRevoke => "CNodeRevoke"@,
            InvocationLabel::CNodeDelete => "CNodeDelete"@,
            InvocationLabel::CNodeCancelBadgedSends => "CNodeCancelBadgedSends"@,
            InvocationLabel::CNodeCopy => "CNodeCopy"@,
            InvocationLabel::CNodeMint => "CNodeMint"@,
            InvocationLabel::CNodeMove => "CNodeMove"@,
            InvocationLabel::CNodeMutate => "CNodeMutate"@,
            InvocationLabel::CNodeRotate => "CNodeRotate"@,
            InvocationLabel::IRQIssueIRQHandler => "IRQIssueIRQHandler"@,
            InvocationLabel::IRQAckIRQ => "IRQAckIRQ"@,
            InvocationLabel::IRQSetIRQHandler => "IRQSetIRQHandler"@,
            InvocationLabel::IRQClearIRQHandler => "IRQClearIRQHandler"@,
            InvocationLabel::DomainSetSet => "DomainSetSet"@,
            InvocationLabel::SchedControlConfigureFlags => "SchedControlConfigureFlags"@,
            InvocationLabel::SchedContextBind => "SchedContextBind"@,
            InvocationLabel::SchedContextUnbind => "SchedContextUnbind"@,
            InvocationLabel::SchedContextUnbindObject => "SchedContextUnbindObject"@,
            InvocationLabel::SchedContextConsume => "SchedContextConsume"@,
            InvocationLabel::SchedContextYieldTo => "SchedContextYieldTo"@,
            InvocationLabel::ARMVSpaceCleanData => "ARMVSpaceCleanData"@,
            InvocationLabel::ARMVSpaceInvalidateData => "ARMVSpaceInvalidateData"@,
            InvocationLabel::ARMVSpaceCleanInvalidateData => "ARMVSpaceCleanInvalidateData"@,
            InvocationLabel::ARMVSpaceUnifyInstruction => "ARMVSpaceUnifyInstruction"@,
            InvocationLabel::ARMSMCCall => "ARMSMCCall"@,
            InvocationLabel::ARMPageTableMap => "ARMPageTableMap"@,
            InvocationLabel::ARMPageTableUnmap => "ARMPageTableUnmap"@,
            InvocationLabel::ARMPageMap => "ARMPageMap"@,
            InvocationLabel::ARMPageUnmap => "ARMPageUnmap"@,
            InvocationLabel::ARMPageCleanData => "ARMPageCleanData"@,
            InvocationLabel::ARMPageInvalidateData => "ARMPageInvalidateData"@,
            InvocationLabel::ARMPageCleanInvalidateData => "ARMPageCleanInvalidateData"@,
            InvocationLabel::ARMPageUnifyInstruction => "ARMPageUnifyInstruction"@,
            InvocationLabel::ARMPageGetAddress => "ARMPageGetAddress"@,
            InvocationLabel::ARMASIDControlMakePool => "ARMASIDControlMakePool"@,
            InvocationLabel::ARMASIDPoolAssign => "ARMASIDPoolAssign"@,
            InvocationLabel::ARMVCPUSetTCB => "ARMVCPUSetTCB"@,
            InvocationLabel::ARMVCPUInjectIRQ => "ARMVCPUInjectIRQ"@,
            InvocationLabel::ARMVCPUReadReg => "ARMVCPUReadReg"@,
            InvocationLabel::ARMVCPUWriteReg => "ARMVCPUWriteReg"@,
            InvocationLabel::ARMVCPUAckVppi => "ARMVCPUAckVppi"@,
            InvocationLabel::ARMIRQIssueIRQHandlerTrigger => "ARMIRQIssueIRQHandlerTrigger"@,
            InvocationLabel::RISCVPageTableMap => "RISCVPageTableMap"@,
            InvocationLabel::RISCVPageTableUnmap => "RISCVPageTableUnmap"@,
            InvocationLabel::RISCVPageMap => "RISCVPageMap"@,
            InvocationLabel::RISCVPageUnmap => "RISCVPageUnmap"@,
            InvocationLabel::RISCVPageGetAddress => "RISCVPageGetAddress"@,
            InvocationLabel::RISCVASIDControlMakePool => "RISCVASIDControlMakePool"@,
            InvocationLabel::RISCVASIDPoolAssign => "RISCVASIDPoolAssign"@,
            InvocationLabel::RISCVIRQIssueIRQHandlerTrigger => "RISCVIRQIssueIRQHandlerTrigger"@,
            InvocationLabel::X86PDPTMap => "X86PDPTMap"@,
            InvocationLabel::X86PDPTUnmap => "X86PDPTUnmap"@,
            InvocationLabel::X86PageDirectoryMap => "X86PageDirectoryMap"@,
            InvocationLabel::X86PageDirectoryUnmap => "X86PageDirectoryUnmap"@,
            InvocationLabel::X86PageTableMap => "X86PageTableMap"@,
            InvocationLabel::X86PageTableUnmap => "X86PageTableUnmap"@,
            InvocationLabel::X86IOPageTableMap => "X86IOPageTableMap"@,
            InvocationLabel::X86IOPageTableUnmap => "X86IOPageTableUnmap"@,
            InvocationLabel::X86PageMap => "X86PageMap"@,
            InvocationLabel::X86PageUnmap => "X86PageUnmap"@,
            InvocationLabel::X86PageMapIO => "X86PageMapIO"@,
            InvocationLabel::X86PageGetAddress => "X86PageGetAddress"@,
            InvocationLabel::X86PageMapEPT => "X86PageMapEPT"@,
            InvocationLabel::X86ASIDControlMakePool => "X86ASIDControlMakePool"@,
            InvocationLabel::X86ASIDPoolAssign => "X86ASIDPoolAssign"@,
            InvocationLabel::X86IOPortControlIssue => "X86IOPortControlIssue"@,
            InvocationLabel::X86IOPortIn8 => "X86IOPortIn8"@,
            InvocationLabel::X86IOPortIn16 => "X86IOPortIn16"@,
            InvocationLabel::X86IOPortIn32 => "X86IOPortIn32"@,
            InvocationLabel::X86IOPortOut8 => "X86IOPortOut8"@,
            InvocationLabel::X86IOPortOut16 => "X86IOPortOut16"@,
            InvocationLabel::X86IOPortOut32 => "X86IOPortOut32"@,
            InvocationLabel::X86IRQIssueIRQHandlerIOAPIC => "X86IRQIssueIRQHandlerIOAPIC"@,
            InvocationLabel::X86IRQIssueIRQHandlerMSI => "X86IRQIssueIRQHandlerMSI"@,
            InvocationLabel::TCBSetEPTRoot => "TCBSetEPTRoot"@,
            InvocationLabel::X86VCPUSetTCB => "X86VCPUSetTCB"@,
            InvocationLabel::X86VCPUReadVMCS => "X86VCPUReadVMCS"@,
            InvocationLabel::X86VCPUWriteVMCS => "X86VCPUWriteVMCS"@,
            InvocationLabel::X86VCPUEnableIOPort => "X86VCPUEnableIOPort"@,
            InvocationLabel::X86VCPUDisableIOPort => "X86VCPUDisableIOPort"@,
            InvocationLabel::X86VCPUWriteRegisters => "X86VCPUWriteRegisters"@,
            InvocationLabel::X86EPTPDPTMap => "X86EPTPDPTMap"@,
            InvocationLabel::X86EPTPDPTUnmap => "X86EPTPDPTUnmap"@,
            InvocationLabel::X86EPTPDMap => "X86EPTPDMap"@,
            InvocationLabel::X86EPTPDUnmap => "X86EPTPDUnmap"@,
            InvocationLabel::X86EPTPTMap => "X86EPTPTMap"@,
            InvocationLabel::X86EPTPTUnmap => "X86EPTPTUnmap"@,
        }
    }

    pub fn name(self) -> (r: &'static str)
        ensures
            r@ == self.spec_name(),
    {
        match self {
            InvocationLabel::UntypedRetype => "UntypedRetype",
            InvocationLabel::TCBReadRegisters => "TCBReadRegisters",
            InvocationLabel::TCBWriteRegisters => "TCBWriteRegisters",
            InvocationLabel::TCBCopyRegisters => "TCBCopyRegisters",
            InvocationLabel::TCBConfigure => "TCBConfigure",
            InvocationLabel::TCBSetPriority => "TCBSetPriority",
            InvocationLabel::TCBSetMCPriority => "TCBSetMCPriority",
            InvocationLabel::TCBSetSchedParams => "TCBSetSchedParams",
            InvocationLabel::TCBSetTimeoutEndpoint => "TCBSetTimeoutEndpoint",
            InvocationLabel::TCBSetIPCBuffer => "TCBSetIPCBuffer",
            InvocationLabel::TCBSetSpace => "TCBSetSpace",
            InvocationLabel::TCBSuspend => "TCBSuspend",
            InvocationLabel::TCBResume => "TCBResume",
            InvocationLabel::TCBBindNotification => "TCBBindNotification",
            InvocationLabel::TCBUnbindNotification => "TCBUnbindNotification",
            InvocationLabel::TCBSetTLSBase => "TCBSetTLSBase",
            InvocationLabel::CNodeRevoke => "CNodeRevoke",
            InvocationLabel::CNodeDelete => "CNodeDelete",
            InvocationLabel::CNodeCancelBadgedSends => "CNodeCancelBadgedSends",
            InvocationLabel::CNodeCopy => "CNodeCopy",
            InvocationLabel::CNodeMint => "CNodeMint",
            InvocationLabel::CNodeMove => "CNodeMove",
            InvocationLabel::CNodeMutate => "CNodeMutate",
            InvocationLabel::CNodeRotate => "CNodeRotate",
            InvocationLabel::IRQIssueIRQHandler => "IRQIssueIRQHandler",
            InvocationLabel::IRQAckIRQ => "IRQAckIRQ",
            InvocationLabel::IRQSetIRQHandler => "IRQSetIRQHandler",
            InvocationLabel::IRQClearIRQHandler => "IRQClearIRQHandler",
            InvocationLabel::DomainSetSet => "DomainSetSet",
            InvocationLabel::SchedControlConfigureFlags => "SchedControlConfigureFlags",
            InvocationLabel::SchedContextBind => "SchedContextBind",
            InvocationLabel::SchedContextUnbind => "SchedContextUnbind",
            InvocationLabel::SchedContextUnbindObject => "SchedContextUnbindObject",
            InvocationLabel::SchedContextConsume => "SchedContextConsume",
            InvocationLabel::SchedContextYieldTo => "SchedContextYieldTo",
            InvocationLabel::ARMVSpaceCleanData => "ARMVSpaceCleanData",
            InvocationLabel::ARMVSpaceInvalidateData => "ARMVSpaceInvalidateData",
            InvocationLabel::ARMVSpaceCleanInvalidateData => "ARMVSpaceCleanInvalidateData",
            InvocationLabel::ARMVSpaceUnifyInstruction => "ARMVSpaceUnifyInstruction",
            InvocationLabel::ARMSMCCall => "ARMSMCCall",
            InvocationLabel::ARMPageTableMap => "ARMPageTableMap",
            InvocationLabel::ARMPageTableUnmap => "ARMPageTableUnmap",
            InvocationLabel::ARMPageMap => "ARMPageMap",
            InvocationLabel::ARMPageUnmap => "ARMPageUnmap",
            InvocationLabel::ARMPageCleanData => "ARMPageCleanData",
            InvocationLabel::ARMPageInvalidateData => "ARMPageInvalidateData",
            InvocationLabel::ARMPageCleanInvalidateData => "ARMPageCleanInvalidateData",
            InvocationLabel::ARMPageUnifyInstruction => "ARMPageUnifyInstruction",
            InvocationLabel::ARMPageGetAddress => "ARMPageGetAddress",
            InvocationLabel::ARMASIDControlMakePool => "ARMASIDControlMakePool",
            InvocationLabel::ARMASIDPoolAssign => "ARMASIDPoolAssign",
            InvocationLabel::ARMVCPUSetTCB => "ARMVCPUSetTCB",
            InvocationLabel::ARMVCPUInjectIRQ => "ARMVCPUInjectIRQ",
            InvocationLabel::ARMVCPUReadReg => "ARMVCPUReadReg",
            InvocationLabel::ARMVCPUWriteReg => "ARMVCPUWriteReg",
            InvocationLabel::ARMVCPUAckVppi => "ARMVCPUAckVppi",
            InvocationLabel::ARMIRQIssueIRQHandlerTrigger => "ARMIRQIssueIRQHandlerTrigger",
            InvocationLabel::RISCVPageTableMap => "RISCVPageTableMap",
            InvocationLabel::RISCVPageTableUnmap => "RISCVPageTableUnmap",
            InvocationLabel::RISCVPageMap => "RISCVPageMap",
            InvocationLabel::RISCVPageUnmap => "RISCVPageUnmap",
            InvocationLabel::RISCVPageGetAddress => "RISCVPageGetAddress",
            InvocationLabel::RISCVASIDControlMakePool => "RISCVASIDControlMakePool",
            InvocationLabel::RISCVASIDPoolAssign => "RISCVASIDPoolAssign",
            InvocationLabel::RISCVIRQIssueIRQHandlerTrigger => "RISCVIRQIssueIRQHandlerTrigger",
            InvocationLabel::X86PDPTMap => "X86PDPTMap",
            InvocationLabel::X86PDPTUnmap => "X86PDPTUnmap",
            InvocationLabel::X86PageDirectoryMap => "X86PageDirectoryMap",
            InvocationLabel::X86PageDirectoryUnmap => "X86PageDirectoryUnmap",
            InvocationLabel::X86PageTableMap => "X86PageTableMap",
            InvocationLabel::X86PageTableUnmap => "X86PageTableUnmap",
            InvocationLabel::X86IOPageTableMap => "X86IOPageTableMap",
            InvocationLabel::X86IOPageTableUnmap => "X86IOPageTableUnmap",
            InvocationLabel::X86PageMap => "X86PageMap",
            InvocationLabel::X86PageUnmap => "X86PageUnmap",
            InvocationLabel::X86PageMapIO => "X86PageMapIO",
            InvocationLabel::X86PageGetAddress => "X86PageGetAddress",
            InvocationLabel::X86PageMapEPT => "X86PageMapEPT",
            InvocationLabel::X86ASIDControlMakePool => "X86ASIDControlMakePool",
            InvocationLabel::X86ASIDPoolAssign => "X86ASIDPoolAssign",
            InvocationLabel::X86IOPortControlIssue => "X86IOPortControlIssue",
            InvocationLabel::X86IOPortIn8 => "X86IOPortIn8",
            InvocationLabel::X86IOPortIn16 => "X86IOPortIn16",
            InvocationLabel::X86IOPortIn32 => "X86IOPortIn32",
            InvocationLabel::X86IOPortOut8 => "X86IOPortOut8",
            InvocationLabel::X86IOPortOut16 => "X86IOPortOut16",
            InvocationLabel::X86IOPortOut32 => "X86IOPortOut32",
            InvocationLabel::X86IRQIssueIRQHandlerIOAPIC => "X86IRQIssueIRQHandlerIOAPIC",
            InvocationLabel::X86IRQIssueIRQHandlerMSI => "X86IRQIssueIRQHandlerMSI",
            InvocationLabel::TCBSetEPTRoot => "TCBSetEPTRoot",
            InvocationLabel::X86VCPUSetTCB => "X86VCPUSetTCB",
            InvocationLabel::X86VCPUReadVMCS => "X86VCPUReadVMCS",
            InvocationLabel::X86VCPUWriteVMCS => "X86VCPUWriteVMCS",
            InvocationLabel::X86VCPUEnableIOPort => "X86VCPUEnableIOPort",
            InvocationLabel::X86VCPUDisableIOPort => "X86VCPUDisableIOPort",
            InvocationLabel::X86VCPUWriteRegisters => "X86VCPUWriteRegisters",
            InvocationLabel::X86EPTPDPTMap => "X86EPTPDPTMap",
            InvocationLabel::X86EPTPDPTUnmap => "X86EPTPDPTUnmap",
            InvocationLabel::X86EPTPDMap => "X86EPTPDMap",
            InvocationLabel::X86EPTPDUnmap => "X86EPTPDUnmap",
            InvocationLabel::X86EPTPTMap => "X86EPTPTMap",
            InvocationLabel::X86EPTPTUnmap => "X86EPTPTUnmap",
        }
    }
}

impl InvocationLabel {
    /// Whether the build log knows how to name the operation: the label
    /// is one of those that the supported operations have.
    pub open spec fn reported(self) -> bool {
        match self {
            InvocationLabel::UntypedRetype
            | InvocationLabel::TCBSetSchedParams
            | InvocationLabel::TCBSetSpace
            | InvocationLabel::TCBSetIPCBuffer
            | InvocationLabel::TCBResume
            | InvocationLabel::TCBWriteRegisters
            | InvocationLabel::TCBBindNotification
            | InvocationLabel::ARMASIDPoolAssign
            | InvocationLabel::RISCVASIDPoolAssign
            | InvocationLabel::X86ASIDPoolAssign
            | InvocationLabel::ARMIRQIssueIRQHandlerTrigger
            | InvocationLabel::RISCVIRQIssueIRQHandlerTrigger
            | InvocationLabel::X86IRQIssueIRQHandlerIOAPIC
            | InvocationLabel::X86IRQIssueIRQHandlerMSI
            | InvocationLabel::IRQSetIRQHandler
            | InvocationLabel::X86IOPortControlIssue
            | InvocationLabel::X86PDPTMap
            | InvocationLabel::X86PageDirectoryMap
            | InvocationLabel::ARMPageTableMap
            | InvocationLabel::RISCVPageTableMap
            | InvocationLabel::X86PageTableMap
            | InvocationLabel::ARMPageMap
            | InvocationLabel::RISCVPageMap
            | InvocationLabel::X86PageMap
            | InvocationLabel::CNodeCopy
            | InvocationLabel::CNodeMint
            | InvocationLabel::SchedControlConfigureFlags
            | InvocationLabel::ARMVCPUSetTCB => true,
            _ => false,
        }
    }

    /// The kind of object that the operation is invoked on, as the build
    /// log names it. A label that is not `reported` has no such name.
    pub open spec fn spec_object_kind(self) -> Seq<char> {
        match self {
            InvocationLabel::UntypedRetype => "Untyped"@,
            InvocationLabel::TCBSetSchedParams
            | InvocationLabel::TCBSetSpace
            | InvocationLabel::TCBSetIPCBuffer
            | InvocationLabel::TCBResume
            | InvocationLabel::TCBWriteRegisters
            | InvocationLabel::TCBBindNotification => "TCB"@,
            InvocationLabel::ARMASIDPoolAssign
            | InvocationLabel::RISCVASIDPoolAssign
            | InvocationLabel::X86ASIDPoolAssign => "ASID Pool"@,
            InvocationLabel::ARMIRQIssueIRQHandlerTrigger
            | InvocationLabel::RISCVIRQIssueIRQHandlerTrigger
            | InvocationLabel::X86IRQIssueIRQHandlerIOAPIC
            | InvocationLabel::X86IRQIssueIRQHandlerMSI => "IRQ Control"@,
            InvocationLabel::IRQSetIRQHandler => "IRQ Handler"@,
            InvocationLabel::X86IOPortControlIssue => "I/O Port"@,
            InvocationLabel::X86PDPTMap => "Page Upper Directory"@,
            InvocationLabel::X86PageDirectoryMap => "Page Directory"@,
            InvocationLabel::ARMPageTableMap
            | InvocationLabel::RISCVPageTableMap
            | InvocationLabel::X86PageTableMap => "Page Table"@,
            InvocationLabel::ARMPageMap
            | InvocationLabel::RISCVPageMap
            | InvocationLabel::X86PageMap => "Page"@,
            InvocationLabel::CNodeCopy
            | InvocationLabel::CNodeMint => "CNode"@,
            InvocationLabel::SchedControlConfigureFlags => "SchedControl"@,
            InvocationLabel::ARMVCPUSetTCB => "VCPU"@,
            _ => Seq::empty(),
        }
    }

    /// The name of the operation in the build log. A label that is not
    /// `reported` has no such name.
    pub open spec fn spec_method_name(self) -> Seq<char> {
        match self {
            InvocationLabel::UntypedRetype => "Retype"@,
            InvocationLabel::TCBSetSchedParams => "SetSchedParams"@,
            InvocationLabel::TCBSetSpace => "SetSpace"@,
            InvocationLabel::TCBSetIPCBuffer => "SetIPCBuffer"@,
            InvocationLabel::TCBResume => "Resume"@,
            InvocationLabel::TCBWriteRegisters => "WriteRegisters"@,
            InvocationLabel::TCBBindNotification => "BindNotification"@,
            InvocationLabel::ARMASIDPoolAssign
            | InvocationLabel::RISCVASIDPoolAssign
            | InvocationLabel::X86ASIDPoolAssign => "Assign"@,
            InvocationLabel::ARMIRQIssueIRQHandlerTrigger
            | InvocationLabel::RISCVIRQIssueIRQHandlerTrigger
            | InvocationLabel::X86IRQIssueIRQHandlerIOAPIC
            | InvocationLabel::X86IRQIssueIRQHandlerMSI => "Get"@,
            InvocationLabel::IRQSetIRQHandler => "SetNotification"@,
            InvocationLabel::X86IOPortControlIssue => "Issue"@,
            InvocationLabel::ARMPageTableMap
            | InvocationLabel::ARMPageMap
            | InvocationLabel::RISCVPageTableMap
            | InvocationLabel::RISCVPageMap
            | InvocationLabel::X86PDPTMap
            | InvocationLabel::X86PageDirectoryMap
            | InvocationLabel::X86PageTableMap
            | InvocationLabel::X86PageMap => "Map"@,
            InvocationLabel::CNodeCopy => "Copy"@,
            InvocationLabel::CNodeMint => "Mint"@,
            InvocationLabel::SchedControlConfigureFlags => "ConfigureFlags"@,
            InvocationLabel::ARMVCPUSetTCB => "VCPUSetTcb"@,
            _ => Seq::empty(),
        }
    }
}

} // verus!
