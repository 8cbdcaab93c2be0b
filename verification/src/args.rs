//! The arguments of each supported kernel invocation, and their order on
//! the wire.

use vstd::prelude::*;
use crate::attrs::IrqTrigger;
use crate::config::{Arch, Config};
use crate::label::InvocationLabel;
use crate::object::ObjectType;
use crate::regs::{reg_values, NamedReg};

verus! {

#[derive(Clone)]
pub enum InvocationArgs {
    UntypedRetype {
        untyped: u64,
        object_type: ObjectType,
        size_bits: u64,
        root: u64,
        node_index: u64,
        node_depth: u64,
        node_offset: u64,
        num_objects: u64,
    },
    TcbSetSchedParams {
        tcb: u64,
        authority: u64,
        mcp: u64,
        priority: u64,
        sched_context: u64,
        fault_ep: u64,
    },
    TcbSetSpace {
        tcb: u64,
        fault_ep: u64,
        cspace_root: u64,
        cspace_root_data: u64,
        vspace_root: u64,
        vspace_root_data: u64,
    },
    TcbSetIpcBuffer { tcb: u64, buffer: u64, buffer_frame: u64 },
    TcbResume { tcb: u64 },
    TcbWriteRegisters { tcb: u64, resume: bool, arch_flags: u8, count: u64, regs: Vec<NamedReg> },
    TcbBindNotification { tcb: u64, notification: u64 },
    AsidPoolAssign { asid_pool: u64, vspace: u64 },
    IrqControlGetTrigger {
        irq_control: u64,
        irq: u64,
        trigger: IrqTrigger,
        dest_root: u64,
        dest_index: u64,
        dest_depth: u64,
    },
    IrqHandlerSetNotification { irq_handler: u64, notification: u64 },
    IoPortControlIssue {
        ioport_control: u64,
        first_port: u64,
        last_port: u64,
        dest_root: u64,
        dest_index: u64,
        dest_depth: u64,
    },
    PageUpperDirectoryMap { page_upper_directory: u64, vspace: u64, vaddr: u64, attr: u64 },
    PageDirectoryMap { page_directory: u64, vspace: u64, vaddr: u64, attr: u64 },
    PageTableMap { page_table: u64, vspace: u64, vaddr: u64, attr: u64 },
    PageMap { page: u64, vspace: u64, vaddr: u64, rights: u64, attr: u64 },
    CnodeCopy {
        cnode: u64,
        dest_index: u64,
        dest_depth: u64,
        src_root: u64,
        src_obj: u64,
        src_depth: u64,
        rights: u64,
    },
    CnodeMint {
        cnode: u64,
        dest_index: u64,
        dest_depth: u64,
        src_root: u64,
        src_obj: u64,
        src_depth: u64,
        rights: u64,
        badge: u64,
    },
    SchedControlConfigureFlags {
        sched_control: u64,
        sched_context: u64,
        budget: u64,
        period: u64,
        extra_refills: u64,
        badge: u64,
        flags: u64,
    },
    ArmVcpuSetTcb { vcpu: u64, tcb: u64 },
}

/// The first word of a register-write message: whether the thread is to
/// be resumed in bit 0, and the architecture's flags in bits 8 to 15.
pub open spec fn spec_write_registers_flags(resume: bool, arch_flags: u8) -> u64 {
    ((arch_flags as u64) << 8) | (if resume { 1u64 } else { 0u64 })
}

/// The flags word gives back both of its parts, and holds nothing else.
pub proof fn lemma_write_registers_flags(resume: bool, arch_flags: u8)
    ensures
        (spec_write_registers_flags(resume, arch_flags) & 1 == 1) == resume,
        (spec_write_registers_flags(resume, arch_flags) >> 8) & 0xff == arch_flags,
        spec_write_registers_flags(resume, arch_flags) & !0xff01u64 == 0,
{
    let r: u64 = if resume { 1 } else { 0 };
    assert(r == 0 || r == 1);
    assert(((((arch_flags as u64) << 8) | r) & 1 == 1) == (r == 1)
        && ((((arch_flags as u64) << 8) | r) >> 8) & 0xff == arch_flags
        && (((arch_flags as u64) << 8) | r) & !0xff01u64 == 0) by (bit_vector)
        requires
            r == 0 || r == 1,
    ;
}

impl InvocationArgs {
    /// The position of the variant in the list of operations.
    pub open spec fn spec_variant_index(&self) -> u8 {
        match self {
            InvocationArgs::UntypedRetype { .. } => 0,
            InvocationArgs::TcbSetSchedParams { .. } => 1,
            InvocationArgs::TcbSetSpace { .. } => 2,
            InvocationArgs::TcbSetIpcBuffer { .. } => 3,
            InvocationArgs::TcbResume { .. } => 4,
            InvocationArgs::TcbWriteRegisters { .. } => 5,
            InvocationArgs::TcbBindNotification { .. } => 6,
            InvocationArgs::AsidPoolAssign { .. } => 7,
            InvocationArgs::IrqControlGetTrigger { .. } => 8,
            InvocationArgs::IrqHandlerSetNotification { .. } => 9,
            InvocationArgs::IoPortControlIssue { .. } => 10,
            InvocationArgs::PageUpperDirectoryMap { .. } => 11,
            InvocationArgs::PageDirectoryMap { .. } => 12,
            InvocationArgs::PageTableMap { .. } => 13,
            InvocationArgs::PageMap { .. } => 14,
            InvocationArgs::CnodeCopy { .. } => 15,
            InvocationArgs::CnodeMint { .. } => 16,
            InvocationArgs::SchedControlConfigureFlags { .. } => 17,
            InvocationArgs::ArmVcpuSetTcb { .. } => 18,
        }
    }

    /// Two values are of the same variant when they stand for the same
    /// operation, whatever their fields hold.
    pub open spec fn same_variant(&self, other: &InvocationArgs) -> bool {
        self.spec_variant_index() == other.spec_variant_index()
    }

    pub fn variant_index(&self) -> (r: u8)
        ensures
            r == self.spec_variant_index(),
    {
        match self {
            InvocationArgs::UntypedRetype { .. } => 0,
            InvocationArgs::TcbSetSchedParams { .. } => 1,
            InvocationArgs::TcbSetSpace { .. } => 2,
            InvocationArgs::TcbSetIpcBuffer { .. } => 3,
            InvocationArgs::TcbResume { .. } => 4,
            InvocationArgs::TcbWriteRegisters { .. } => 5,
            InvocationArgs::TcbBindNotification { .. } => 6,
            InvocationArgs::AsidPoolAssign { .. } => 7,
            InvocationArgs::IrqControlGetTrigger { .. } => 8,
            InvocationArgs::IrqHandlerSetNotification { .. } => 9,
            InvocationArgs::IoPortControlIssue { .. } => 10,
            InvocationArgs::PageUpperDirectoryMap { .. } => 11,
            InvocationArgs::PageDirectoryMap { .. } => 12,
            InvocationArgs::PageTableMap { .. } => 13,
            InvocationArgs::PageMap { .. } => 14,
            InvocationArgs::CnodeCopy { .. } => 15,
            InvocationArgs::CnodeMint { .. } => 16,
            InvocationArgs::SchedControlConfigureFlags { .. } => 17,
            InvocationArgs::ArmVcpuSetTcb { .. } => 18,
        }
    }

    /// Whether `self` and `other` are of the same variant.
    pub fn is_same_variant(&self, other: &InvocationArgs) -> (r: bool)
        ensures
            r == self.same_variant(other),
    {
        self.variant_index() == other.variant_index()
    }

    /// The label of the operation on the given architecture. Assigning an
    /// address space, registering an interrupt and the four mapping
    /// operations are different kernel calls on each architecture; ARM and
    /// RISC-V map every level of translation table with one call.
    pub open spec fn spec_to_label(&self, arch: Arch) -> InvocationLabel {
        let by_arch = |arm: InvocationLabel, riscv: InvocationLabel, x86: InvocationLabel|
            match arch {
                Arch::Aarch64 => arm,
                Arch::Riscv64 => riscv,
                Arch::X86_64 => x86,
            };
        match self {
            InvocationArgs::UntypedRetype { .. } => InvocationLabel::UntypedRetype,
            InvocationArgs::TcbSetSchedParams { .. } => InvocationLabel::TCBSetSchedParams,
            InvocationArgs::TcbSetSpace { .. } => InvocationLabel::TCBSetSpace,
            InvocationArgs::TcbSetIpcBuffer { .. } => InvocationLabel::TCBSetIPCBuffer,
            InvocationArgs::TcbResume { .. } => InvocationLabel::TCBResume,
            InvocationArgs::TcbWriteRegisters { .. } => InvocationLabel::TCBWriteRegisters,
            InvocationArgs::TcbBindNotification { .. } => InvocationLabel::TCBBindNotification,
            InvocationArgs::AsidPoolAssign { .. } => by_arch(
                InvocationLabel::ARMASIDPoolAssign,
                InvocationLabel::RISCVASIDPoolAssign,
                InvocationLabel::X86ASIDPoolAssign,
            ),
            InvocationArgs::IrqControlGetTrigger { .. } => by_arch(
                InvocationLabel::ARMIRQIssueIRQHandlerTrigger,
                InvocationLabel::RISCVIRQIssueIRQHandlerTrigger,
                InvocationLabel::X86IRQIssueIRQHandlerIOAPIC,
            ),
            InvocationArgs::IrqHandlerSetNotification { .. } => InvocationLabel::IRQSetIRQHandler,
            InvocationArgs::IoPortControlIssue { .. } => InvocationLabel::X86IOPortControlIssue,
            InvocationArgs::PageUpperDirectoryMap { .. } => by_arch(
                InvocationLabel::ARMPageTableMap,
                InvocationLabel::RISCVPageTableMap,
                InvocationLabel::X86PDPTMap,
            ),
            InvocationArgs::PageDirectoryMap { .. } => by_arch(
                InvocationLabel::ARMPageTableMap,
                InvocationLabel::RISCVPageTableMap,
                InvocationLabel::X86PageDirectoryMap,
            ),
            InvocationArgs::PageTableMap { .. } => by_arch(
                InvocationLabel::ARMPageTableMap,
                InvocationLabel::RISCVPageTableMap,
                InvocationLabel::X86PageTableMap,
            ),
            InvocationArgs::PageMap { .. } => by_arch(
                InvocationLabel::ARMPageMap,
                InvocationLabel::RISCVPageMap,
                InvocationLabel::X86PageMap,
            ),
            InvocationArgs::CnodeCopy { .. } => InvocationLabel::CNodeCopy,
            InvocationArgs::CnodeMint { .. } => InvocationLabel::CNodeMint,
            InvocationArgs::SchedControlConfigureFlags { .. } =>
                InvocationLabel::SchedControlConfigureFlags,
            InvocationArgs::ArmVcpuSetTcb { .. } => InvocationLabel::ARMVCPUSetTCB,
        }
    }

    pub fn to_label(&self, config: &Config) -> (r: InvocationLabel)
        ensures
            r == self.spec_to_label(config.arch),
    {
        match self {
            InvocationArgs::UntypedRetype { .. } => InvocationLabel::UntypedRetype,
            InvocationArgs::TcbSetSchedParams { .. } => InvocationLabel::TCBSetSchedParams,
            InvocationArgs::TcbSetSpace { .. } => InvocationLabel::TCBSetSpace,
            InvocationArgs::TcbSetIpcBuffer { .. } => InvocationLabel::TCBSetIPCBuffer,
            InvocationArgs::TcbResume { .. } => InvocationLabel::TCBResume,
            InvocationArgs::TcbWriteRegisters { .. } => InvocationLabel::TCBWriteRegisters,
            InvocationArgs::TcbBindNotification { .. } => InvocationLabel::TCBBindNotification,
            InvocationArgs::AsidPoolAssign { .. } => match config.arch {
                Arch::Aarch64 => InvocationLabel::ARMASIDPoolAssign,
                Arch::Riscv64 => InvocationLabel::RISCVASIDPoolAssign,
                Arch::X86_64 => InvocationLabel::X86ASIDPoolAssign,
            },
            InvocationArgs::IrqControlGetTrigger { .. } => match config.arch {
                Arch::Aarch64 => InvocationLabel::ARMIRQIssueIRQHandlerTrigger,
                Arch::Riscv64 => InvocationLabel::RISCVIRQIssueIRQHandlerTrigger,
                Arch::X86_64 => InvocationLabel::X86IRQIssueIRQHandlerIOAPIC,
            },
            InvocationArgs::IrqHandlerSetNotification { .. } => InvocationLabel::IRQSetIRQHandler,
            InvocationArgs::IoPortControlIssue { .. } => InvocationLabel::X86IOPortControlIssue,
            InvocationArgs::PageUpperDirectoryMap { .. } => match config.arch {
                Arch::Aarch64 => InvocationLabel::ARMPageTableMap,
                Arch::Riscv64 => InvocationLabel::RISCVPageTableMap,
                Arch::X86_64 => InvocationLabel::X86PDPTMap,
            },
            InvocationArgs::PageDirectoryMap { .. } => match config.arch {
                Arch::Aarch64 => InvocationLabel::ARMPageTableMap,
                Arch::Riscv64 => InvocationLabel::RISCVPageTableMap,
                Arch::X86_64 => InvocationLabel::X86PageDirectoryMap,
            },
            InvocationArgs::PageTableMap { .. } => match config.arch {
                Arch::Aarch64 => InvocationLabel::ARMPageTableMap,
                Arch::Riscv64 => InvocationLabel::RISCVPageTableMap,
                Arch::X86_64 => InvocationLabel::X86PageTableMap,
            },
            InvocationArgs::PageMap { .. } => match config.arch {
                Arch::Aarch64 => InvocationLabel::ARMPageMap,
                Arch::Riscv64 => InvocationLabel::RISCVPageMap,
                Arch::X86_64 => InvocationLabel::X86PageMap,
            },
            InvocationArgs::CnodeCopy { .. } => InvocationLabel::CNodeCopy,
            InvocationArgs::CnodeMint { .. } => InvocationLabel::CNodeMint,
            InvocationArgs::SchedControlConfigureFlags { .. } => {
                InvocationLabel::SchedControlConfigureFlags
            },
            InvocationArgs::ArmVcpuSetTcb { .. } => InvocationLabel::ARMVCPUSetTCB,
        }
    }

    /// The variant alone decides the label on an architecture: the fields
    /// have no part in it.
    pub proof fn lemma_same_variant_same_label(&self, other: &InvocationArgs, arch: Arch)
        requires
            self.same_variant(other),
        ensures
            self.spec_to_label(arch) == other.spec_to_label(arch),
            self.spec_extra_caps().len() == other.spec_extra_caps().len(),
            !(self is TcbWriteRegisters) ==> self.spec_plain_args(arch).len()
                == other.spec_plain_args(arch).len(),
    {
    }

    /// Whether the arguments can be put on the wire for the architecture:
    /// a retype must name an object type that the architecture has.
    pub open spec fn encodable_on(&self, arch: Arch) -> bool {
        self matches InvocationArgs::UntypedRetype { object_type, .. } ==> object_type.exists_on(
            arch,
        )
    }

    /// Whether `encodable_on` holds.
    pub fn is_encodable_on(&self, arch: Arch) -> (r: bool)
        ensures
            r == self.encodable_on(arch),
    {
        match self {
            InvocationArgs::UntypedRetype { object_type, .. } => object_type.is_on(arch),
            _ => true,
        }
    }

    /// The capability that the operation is invoked on: the first field of
    /// every variant.
    pub open spec fn spec_service(&self) -> u64 {
        match self {
            InvocationArgs::UntypedRetype { untyped, .. } => *untyped,
            InvocationArgs::TcbSetSchedParams { tcb, .. } => *tcb,
            InvocationArgs::TcbSetSpace { tcb, .. } => *tcb,
            InvocationArgs::TcbSetIpcBuffer { tcb, .. } => *tcb,
            InvocationArgs::TcbResume { tcb } => *tcb,
            InvocationArgs::TcbWriteRegisters { tcb, .. } => *tcb,
            InvocationArgs::TcbBindNotification { tcb, .. } => *tcb,
            InvocationArgs::AsidPoolAssign { asid_pool, .. } => *asid_pool,
            InvocationArgs::IrqControlGetTrigger { irq_control, .. } => *irq_control,
            InvocationArgs::IrqHandlerSetNotification { irq_handler, .. } => *irq_handler,
            InvocationArgs::IoPortControlIssue { ioport_control, .. } => *ioport_control,
            InvocationArgs::PageUpperDirectoryMap { page_upper_directory, .. } =>
                *page_upper_directory,
            InvocationArgs::PageDirectoryMap { page_directory, .. } => *page_directory,
            InvocationArgs::PageTableMap { page_table, .. } => *page_table,
            InvocationArgs::PageMap { page, .. } => *page,
            InvocationArgs::CnodeCopy { cnode, .. } => *cnode,
            InvocationArgs::CnodeMint { cnode, .. } => *cnode,
            InvocationArgs::SchedControlConfigureFlags { sched_control, .. } => *sched_control,
            InvocationArgs::ArmVcpuSetTcb { vcpu, .. } => *vcpu,
        }
    }

    /// The capabilities that the message carries besides the service, in
    /// the order in which the kernel reads them.
    pub open spec fn spec_extra_caps(&self) -> Seq<u64> {
        match self {
            InvocationArgs::UntypedRetype { root, .. } => seq![*root],
            InvocationArgs::TcbSetSchedParams { authority, sched_context, fault_ep, .. } => seq![
                *authority,
                *sched_context,
                *fault_ep,
            ],
            InvocationArgs::TcbSetSpace { fault_ep, cspace_root, vspace_root, .. } => seq![
                *fault_ep,
                *cspace_root,
                *vspace_root,
            ],
            InvocationArgs::TcbSetIpcBuffer { buffer_frame, .. } => seq![*buffer_frame],
            InvocationArgs::TcbResume { .. } => seq![],
            InvocationArgs::TcbWriteRegisters { .. } => seq![],
            InvocationArgs::TcbBindNotification { notification, .. } => seq![*notification],
            InvocationArgs::AsidPoolAssign { vspace, .. } => seq![*vspace],
            InvocationArgs::IrqControlGetTrigger { dest_root, .. } => seq![*dest_root],
            InvocationArgs::IrqHandlerSetNotification { notification, .. } => seq![*notification],
            InvocationArgs::IoPortControlIssue { dest_root, .. } => seq![*dest_root],
            InvocationArgs::PageUpperDirectoryMap { vspace, .. } => seq![*vspace],
            InvocationArgs::PageDirectoryMap { vspace, .. } => seq![*vspace],
            InvocationArgs::PageTableMap { vspace, .. } => seq![*vspace],
            InvocationArgs::PageMap { vspace, .. } => seq![*vspace],
            InvocationArgs::CnodeCopy { src_root, .. } => seq![*src_root],
            InvocationArgs::CnodeMint { src_root, .. } => seq![*src_root],
            InvocationArgs::SchedControlConfigureFlags { sched_context, .. } => seq![
                *sched_context,
            ],
            InvocationArgs::ArmVcpuSetTcb { tcb, .. } => seq![*tcb],
        }
    }

    /// The plain words of the message, in the order in which the kernel
    /// reads them. A retype starts with the identifier that the
    /// architecture gives to the object type. A register write starts with
    /// the flags word and the register count, followed by the value of
    /// every register in the order given.
    pub open spec fn spec_plain_args(&self, arch: Arch) -> Seq<u64> {
        match self {
            InvocationArgs::UntypedRetype {
                object_type,
                size_bits,
                node_index,
                node_depth,
                node_offset,
                num_objects,
                ..
            } => seq![
                object_type.spec_value(arch),
                *size_bits,
                *node_index,
                *node_depth,
                *node_offset,
                *num_objects,
            ],
            InvocationArgs::TcbSetSchedParams { mcp, priority, .. } => seq![*mcp, *priority],
            InvocationArgs::TcbSetSpace { cspace_root_data, vspace_root_data, .. } => seq![
                *cspace_root_data,
                *vspace_root_data,
            ],
            InvocationArgs::TcbSetIpcBuffer { buffer, .. } => seq![*buffer],
            InvocationArgs::TcbResume { .. } => seq![],
            InvocationArgs::TcbWriteRegisters { resume, arch_flags, count, regs, .. } => seq![
                spec_write_registers_flags(*resume, *arch_flags),
                *count,
            ] + reg_values(regs@),
            InvocationArgs::TcbBindNotification { .. } => seq![],
            InvocationArgs::AsidPoolAssign { .. } => seq![],
            InvocationArgs::IrqControlGetTrigger { irq, trigger, dest_index, dest_depth, .. } =>
                seq![*irq, trigger.spec_value(), *dest_index, *dest_depth],
            InvocationArgs::IrqHandlerSetNotification { .. } => seq![],
            InvocationArgs::IoPortControlIssue {
                first_port,
                last_port,
                dest_index,
                dest_depth,
                ..
            } => seq![*first_port, *last_port, *dest_index, *dest_depth],
            InvocationArgs::PageUpperDirectoryMap { vaddr, attr, .. } => seq![*vaddr, *attr],
            InvocationArgs::PageDirectoryMap { vaddr, attr, .. } => seq![*vaddr, *attr],
            InvocationArgs::PageTableMap { vaddr, attr, .. } => seq![*vaddr, *attr],
            InvocationArgs::PageMap { vaddr, rights, attr, .. } => seq![*vaddr, *rights, *attr],
            InvocationArgs::CnodeCopy {
                dest_index,
                dest_depth,
                src_obj,
                src_depth,
                rights,
                ..
            } => seq![*dest_index, *dest_depth, *src_obj, *src_depth, *rights],
            InvocationArgs::CnodeMint {
                dest_index,
                dest_depth,
                src_obj,
                src_depth,
                rights,
                badge,
                ..
            } => seq![*dest_index, *dest_depth, *src_obj, *src_depth, *rights, *badge],
            InvocationArgs::SchedControlConfigureFlags {
                budget,
                period,
                extra_refills,
                badge,
                flags,
                ..
            } => seq![*budget, *period, *extra_refills, *badge, *flags],
            InvocationArgs::ArmVcpuSetTcb { .. } => seq![],
        }
    }

    /// A message carries at most three capabilities besides the service.
    pub proof fn lemma_extra_caps_len(&self)
        ensures
            self.spec_extra_caps().len() <= 3,
    {
    }

    /// Only a register write can have more than six plain words: it has two
    /// and one for each register.
    pub proof fn lemma_plain_args_len(&self, arch: Arch)
        ensures
            self matches InvocationArgs::TcbWriteRegisters { regs, .. } ==> self.spec_plain_args(
                arch,
            ).len() == regs@.len() + 2,
            !(self is TcbWriteRegisters) ==> self.spec_plain_args(arch).len() <= 6,
    {
    }

    /// Splits the arguments into the service capability, the plain words
    /// and the extra capabilities of the message.
    pub fn get_args(&self, config: &Config) -> (r: (u64, Vec<u64>, Vec<u64>))
        requires
            self.encodable_on(config.arch),
        ensures
            r.0 == self.spec_service(),
            r.1@ == self.spec_plain_args(config.arch),
            r.2@ == self.spec_extra_caps(),
    {
        let r: (u64, Vec<u64>, Vec<u64>) = match self {
            InvocationArgs::UntypedRetype {
                untyped,
                object_type,
                size_bits,
                root,
                node_index,
                node_depth,
                node_offset,
                num_objects,
            } => (
                *untyped,
                vec![
                    object_type.value(config),
                    *size_bits,
                    *node_index,
                    *node_depth,
                    *node_offset,
                    *num_objects,
                ],
                vec![*root],
            ),
            InvocationArgs::TcbSetSchedParams {
                tcb,
                authority,
                mcp,
                priority,
                sched_context,
                fault_ep,
            } => (*tcb, vec![*mcp, *priority], vec![*authority, *sched_context, *fault_ep]),
            InvocationArgs::TcbSetSpace {
                tcb,
                fault_ep,
                cspace_root,
                cspace_root_data,
                vspace_root,
                vspace_root_data,
            } => (
                *tcb,
                vec![*cspace_root_data, *vspace_root_data],
                vec![*fault_ep, *cspace_root, *vspace_root],
            ),
            InvocationArgs::TcbSetIpcBuffer { tcb, buffer, buffer_frame } => (
                *tcb,
                vec![*buffer],
                vec![*buffer_frame],
            ),
            InvocationArgs::TcbResume { tcb } => (*tcb, vec![], vec![]),
            InvocationArgs::TcbWriteRegisters { tcb, resume, arch_flags, regs, count } => {
                // The arguments do not correspond one-to-one to words:
                // `resume` and `arch_flags` share the first word. The
                // registers follow, each one word.
                let resume_byte: u64 = if *resume { 1 } else { 0 };
                let flags: u64 = ((*arch_flags as u64) << 8) | resume_byte;
                let mut args: Vec<u64> = vec![flags, *count];
                let mut i: usize = 0;
                while i < regs.len()
                    invariant
                        i <= regs.len(),
                        args@.len() == i + 2,
                        args@[0] == flags,
                        args@[1] == *count,
                        forall|j: int| 0 <= j < i ==> args@[j + 2] == (#[trigger] regs@[j]).1,
                    decreases regs.len() - i,
                {
                    args.push(regs[i].1);
                    i = i + 1;
                }
                assert(args@ =~= self.spec_plain_args(config.arch));
                (*tcb, args, vec![])
            },
            InvocationArgs::TcbBindNotification { tcb, notification } => (
                *tcb,
                vec![],
                vec![*notification],
            ),
            InvocationArgs::AsidPoolAssign { asid_pool, vspace } => (
                *asid_pool,
                vec![],
                vec![*vspace],
            ),
            InvocationArgs::IrqControlGetTrigger {
                irq_control,
                irq,
                trigger,
                dest_root,
                dest_index,
                dest_depth,
            } => (
                *irq_control,
                vec![*irq, trigger.value(), *dest_index, *dest_depth],
                vec![*dest_root],
            ),
            InvocationArgs::IrqHandlerSetNotification { irq_handler, notification } => (
                *irq_handler,
                vec![],
                vec![*notification],
            ),
            InvocationArgs::IoPortControlIssue {
                ioport_control,
                first_port,
                last_port,
                dest_root,
                dest_index,
                dest_depth,
            } => (
                *ioport_control,
                vec![*first_port, *last_port, *dest_index, *dest_depth],
                vec![*dest_root],
            ),
            InvocationArgs::PageUpperDirectoryMap { page_upper_directory, vspace, vaddr, attr } => (
                *page_upper_directory,
                vec![*vaddr, *attr],
                vec![*vspace],
            ),
            InvocationArgs::PageDirectoryMap { page_directory, vspace, vaddr, attr } => (
                *page_directory,
                vec![*vaddr, *attr],
                vec![*vspace],
            ),
            InvocationArgs::PageTableMap { page_table, vspace, vaddr, attr } => (
                *page_table,
                vec![*vaddr, *attr],
                vec![*vspace],
            ),
            InvocationArgs::PageMap { page, vspace, vaddr, rights, attr } => (
                *page,
                vec![*vaddr, *rights, *attr],
                vec![*vspace],
            ),
            InvocationArgs::CnodeCopy {
                cnode,
                dest_index,
                dest_depth,
                src_root,
                src_obj,
                src_depth,
                rights,
            } => (
                *cnode,
                vec![*dest_index, *dest_depth, *src_obj, *src_depth, *rights],
                vec![*src_root],
            ),
            InvocationArgs::CnodeMint {
                cnode,
                dest_index,
                dest_depth,
                src_root,
                src_obj,
                src_depth,
                rights,
                badge,
            } => (
                *cnode,
                vec![*dest_index, *dest_depth, *src_obj, *src_depth, *rights, *badge],
                vec![*src_root],
            ),
            InvocationArgs::SchedControlConfigureFlags {
                sched_control,
                sched_context,
                budget,
                period,
                extra_refills,
                badge,
                flags,
            } => (
                *sched_control,
                vec![*budget, *period, *extra_refills, *badge, *flags],
                vec![*sched_context],
            ),
            InvocationArgs::ArmVcpuSetTcb { vcpu, tcb } => (*vcpu, vec![], vec![*tcb]),
        };
        assert(r.1@ =~= self.spec_plain_args(config.arch));
        assert(r.2@ =~= self.spec_extra_caps());
        r
    }
}

} // verus!
