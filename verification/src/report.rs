//! A readable trace of an invocation for the build log.

use std::collections::HashMap;
use vstd::prelude::*;
use vstd::pervasive::unreached;
use vstd::string::*;
use crate::args::InvocationArgs;
use crate::config::Config;
use crate::invocation::Invocation;
use crate::label::InvocationLabel;
use crate::regs::NamedReg;
use crate::text::{
    push_bool, push_decimal, push_fill, push_hex, push_hex_padded, push_joined, push_padded,
    spec_bool_text, spec_decimal, spec_fill, spec_hex, spec_hex_padded, spec_join_lines,
    spec_pad_right, spec_texts,
};

verus! {

broadcast use vstd::std_specs::hash::group_hash_axioms;

/// The names that the allocator has given to capabilities, by address.
pub type CapNames = Map<u64, String>;

/// A field line: nine spaces, the name padded to twenty characters, a
/// space and the value.
pub open spec fn spec_fmt_field_str(field_name: Seq<char>, value: Seq<char>) -> Seq<char> {
    spec_fill(' ', 9) + spec_pad_right(field_name, 20) + seq![' '] + value
}

/// A field line with the value in decimal.
pub open spec fn spec_fmt_field(field_name: Seq<char>, value: u64) -> Seq<char> {
    spec_fmt_field_str(field_name, spec_decimal(value as nat))
}

/// A field line with the value in hexadecimal.
pub open spec fn spec_fmt_field_hex(field_name: Seq<char>, value: u64) -> Seq<char> {
    spec_fmt_field_str(field_name, "0x"@ + spec_hex(value as nat))
}

/// A field line with a truth value.
pub open spec fn spec_fmt_field_bool(field_name: Seq<char>, value: bool) -> Seq<char> {
    spec_fmt_field_str(field_name, spec_bool_text(value))
}

/// A register with its value in sixteen hexadecimal digits.
pub open spec fn spec_fmt_field_reg(reg: Seq<char>, value: u64) -> Seq<char> {
    reg + ": 0x"@ + spec_hex_padded(value as nat, 16)
}

/// The name of a capability, or `None` where it has none.
pub open spec fn spec_cap_name(cap: u64, cap_lookup: CapNames) -> Seq<char> {
    if cap_lookup.contains_key(cap) {
        cap_lookup[cap]@
    } else {
        "None"@
    }
}

/// A field line for a capability: the name of the field marked as a
/// capability, the address in sixteen hexadecimal digits and in brackets
/// the name of the capability.
pub open spec fn spec_fmt_field_cap(field_name: Seq<char>, cap: u64, cap_lookup: CapNames) -> Seq<
    char,
> {
    spec_fill(' ', 9) + spec_pad_right(field_name + " (cap)"@, 20) + " 0x"@ + spec_hex_padded(
        cap as nat,
        16,
    ) + " ("@ + spec_cap_name(cap, cap_lookup) + ")"@
}

/// A size class with the size in bytes that it stands for, or a note
/// where the size class is zero.
pub open spec fn spec_size_bits_text(size_bits: u64) -> Seq<char> {
    spec_decimal(size_bits as nat) + " ("@ + (if size_bits == 0 {
        "N/A"@
    } else {
        "0x"@ + spec_hex((1u64 << size_bits) as nat)
    }) + ")"@
}

/// The line of the register at `index`: the first stands in a field
/// named `regs`, the others are indented to stand below it.
pub open spec fn spec_reg_line(regs: Seq<NamedReg>, index: int) -> Seq<char> {
    let reg = spec_fmt_field_reg(regs[index].0@, regs[index].1);
    if index == 0 {
        spec_fmt_field_str("regs"@, reg)
    } else {
        spec_fill(' ', 30) + reg
    }
}

impl InvocationArgs {
    /// Whether a trace can be written: a retype names an object type whose
    /// size is defined and a size class below 64, a register write has a
    /// register, and an I/O port range does not end before it starts. No
    /// capability needs a name.
    pub open spec fn reportable(&self, config: &Config) -> bool {
        &&& self matches InvocationArgs::UntypedRetype { object_type, size_bits, .. }
            ==> object_type.sized_under(config) && *size_bits < 64
        &&& self matches InvocationArgs::TcbWriteRegisters { regs, .. } ==> regs@.len() > 0
        &&& self matches InvocationArgs::IoPortControlIssue { first_port, last_port, .. }
            ==> *first_port <= *last_port
    }

    /// The name of the service capability in the trace: the name that the
    /// table has for it, or `None` where it has none. The scheduling
    /// control is never looked up and always shown as `None`.
    pub open spec fn spec_service_name(&self, cap_lookup: CapNames) -> Seq<char> {
        if self is SchedControlConfigureFlags {
            "None"@
        } else {
            spec_cap_name(self.spec_service(), cap_lookup)
        }
    }

    /// One line for each field but the service: capabilities with their
    /// names, numbers in decimal, addresses in hexadecimal.
    pub open spec fn spec_arg_lines(&self, config: &Config, cap_lookup: CapNames) -> Seq<
        Seq<char>,
    > {
        match self {
            InvocationArgs::UntypedRetype {
                object_type,
                size_bits,
                root,
                node_index,
                node_depth,
                node_offset,
                num_objects,
                ..
            } => seq![
                object_type.spec_format(config),
                spec_fmt_field_str("size_bits"@, spec_size_bits_text(*size_bits)),
                spec_fmt_field_cap("root"@, *root, cap_lookup),
                spec_fmt_field("node_index"@, *node_index),
                spec_fmt_field("node_depth"@, *node_depth),
                spec_fmt_field("node_offset"@, *node_offset),
                spec_fmt_field("num_objects"@, *num_objects),
            ],
            InvocationArgs::TcbSetSchedParams {
                authority,
                mcp,
                priority,
                sched_context,
                fault_ep,
                ..
            } => seq![
                spec_fmt_field_cap("authority"@, *authority, cap_lookup),
                spec_fmt_field("mcp"@, *mcp),
                spec_fmt_field("priority"@, *priority),
                spec_fmt_field_cap("sched_context"@, *sched_context, cap_lookup),
                spec_fmt_field_cap("fault_ep"@, *fault_ep, cap_lookup),
            ],
            InvocationArgs::TcbSetSpace {
                fault_ep,
                cspace_root,
                cspace_root_data,
                vspace_root,
                vspace_root_data,
                ..
            } => seq![
                spec_fmt_field_cap("fault_ep"@, *fault_ep, cap_lookup),
                spec_fmt_field_cap("cspace_root"@, *cspace_root, cap_lookup),
                spec_fmt_field("cspace_root_data"@, *cspace_root_data),
                spec_fmt_field_cap("vspace_root"@, *vspace_root, cap_lookup),
                spec_fmt_field("vspace_root_data"@, *vspace_root_data),
            ],
            InvocationArgs::TcbSetIpcBuffer { buffer, buffer_frame, .. } => seq![
                spec_fmt_field_hex("buffer"@, *buffer),
                spec_fmt_field_cap("buffer_frame"@, *buffer_frame, cap_lookup),
            ],
            InvocationArgs::TcbResume { .. } => seq![],
            InvocationArgs::TcbWriteRegisters { resume, arch_flags, regs, .. } => seq![
                spec_fmt_field_bool("resume"@, *resume),
                spec_fmt_field("arch_flags"@, *arch_flags as u64),
            ] + Seq::new(regs@.len(), |index: int| spec_reg_line(regs@, index)),
            InvocationArgs::TcbBindNotification { notification, .. } => seq![
                spec_fmt_field_cap("notification"@, *notification, cap_lookup),
            ],
            InvocationArgs::AsidPoolAssign { vspace, .. } => seq![
                spec_fmt_field_cap("vspace"@, *vspace, cap_lookup),
            ],
            InvocationArgs::IrqControlGetTrigger {
                irq,
                trigger,
                dest_root,
                dest_index,
                dest_depth,
                ..
            } => seq![
                spec_fmt_field("irq"@, *irq),
                spec_fmt_field("trigger"@, trigger.spec_value()),
                spec_fmt_field_cap("dest_root"@, *dest_root, cap_lookup),
                spec_fmt_field("dest_index"@, *dest_index),
                spec_fmt_field("dest_depth"@, *dest_depth),
            ],
            InvocationArgs::IrqHandlerSetNotification { notification, .. } => seq![
                spec_fmt_field_cap("notification"@, *notification, cap_lookup),
            ],
            InvocationArgs::IoPortControlIssue {
                first_port,
                last_port,
                dest_root,
                dest_index,
                dest_depth,
                ..
            } => seq![
                spec_fmt_field("addr"@, *first_port),
                spec_fmt_field("size"@, (*last_port - *first_port) as u64),
                spec_fmt_field_cap("dest_root"@, *dest_root, cap_lookup),
                spec_fmt_field("dest_index"@, *dest_index),
                spec_fmt_field("dest_depth"@, *dest_depth),
            ],
            InvocationArgs::PageUpperDirectoryMap { vspace, vaddr, attr, .. }
            | InvocationArgs::PageDirectoryMap { vspace, vaddr, attr, .. }
            | InvocationArgs::PageTableMap { vspace, vaddr, attr, .. } => seq![
                spec_fmt_field_cap("vspace"@, *vspace, cap_lookup),
                spec_fmt_field_hex("vaddr"@, *vaddr),
                spec_fmt_field("attr"@, *attr),
            ],
            InvocationArgs::PageMap { vspace, vaddr, rights, attr, .. } => seq![
                spec_fmt_field_cap("vspace"@, *vspace, cap_lookup),
                spec_fmt_field_hex("vaddr"@, *vaddr),
                spec_fmt_field("rights"@, *rights),
                spec_fmt_field("attr"@, *attr),
            ],
            InvocationArgs::CnodeCopy {
                dest_index,
                dest_depth,
                src_root,
                src_obj,
                src_depth,
                rights,
                ..
            } => seq![
                spec_fmt_field("dest_index"@, *dest_index),
                spec_fmt_field("dest_depth"@, *dest_depth),
                spec_fmt_field_cap("src_root"@, *src_root, cap_lookup),
                spec_fmt_field_cap("src_obj"@, *src_obj, cap_lookup),
                spec_fmt_field("src_depth"@, *src_depth),
                spec_fmt_field("rights"@, *rights),
            ],
            InvocationArgs::CnodeMint {
                dest_index,
                dest_depth,
                src_root,
                src_obj,
                src_depth,
                rights,
                badge,
                ..
            } => seq![
                spec_fmt_field("dest_index"@, *dest_index),
                spec_fmt_field("dest_depth"@, *dest_depth),
                spec_fmt_field_cap("src_root"@, *src_root, cap_lookup),
                spec_fmt_field_cap("src_obj"@, *src_obj, cap_lookup),
                spec_fmt_field("src_depth"@, *src_depth),
                spec_fmt_field("rights"@, *rights),
                spec_fmt_field("badge"@, *badge),
            ],
            InvocationArgs::SchedControlConfigureFlags {
                sched_context,
                budget,
                period,
                extra_refills,
                badge,
                flags,
                ..
            } => seq![
                spec_fmt_field_cap("schedcontext"@, *sched_context, cap_lookup),
                spec_fmt_field("budget"@, *budget),
                spec_fmt_field("period"@, *period),
                spec_fmt_field("extra_refills"@, *extra_refills),
                spec_fmt_field("badge"@, *badge),
                spec_fmt_field("flags"@, *flags),
            ],
            InvocationArgs::ArmVcpuSetTcb { tcb, .. } => seq![
                spec_fmt_field_cap("tcb"@, *tcb, cap_lookup),
            ],
        }
    }
}

impl InvocationArgs {
    /// Whether `reportable` holds.
    pub fn is_reportable(&self, config: &Config) -> (r: bool)
        ensures
            r == self.reportable(config),
    {
        match self {
            InvocationArgs::UntypedRetype { object_type, size_bits, .. } => {
                object_type.is_sized_under(config) && *size_bits < 64
            },
            InvocationArgs::TcbWriteRegisters { regs, .. } => regs.len() > 0,
            InvocationArgs::IoPortControlIssue { first_port, last_port, .. } => {
                *first_port <= *last_port
            },
            _ => true,
        }
    }

    /// The service capability, without the other words of the message.
    pub fn service(&self) -> (r: u64)
        ensures
            r == self.spec_service(),
    {
        match self {
            InvocationArgs::UntypedRetype { untyped, .. } => *untyped,
            InvocationArgs::TcbSetSchedParams { tcb, .. } => *tcb,
            InvocationArgs::TcbSetSpace { tcb, .. } => *tcb,
            InvocationArgs::TcbSetIpcBuffer { tcb, .. } => *tcb,
            InvocationArgs::TcbResume { tcb } => *tcb,
            InvocationArgs::TcbWriteRegisters { tcb, .. } => *tcb,
            InvocationArgs::TcbBindNotification { tcb, .. } => *tcb,
            InvocationArgs::AsidPoolAssign { asid_pool, .. } => *asid_pool,
            InvocationArgs::IrqControlGetTrigger { irq_control, .. } => *irq_control,
            InvocationArgs::IrqHandlerSetNotification { irq_handler, .. } => *irq_handler,
            InvocationArgs::IoPortControlIssue { ioport_control, .. } => *ioport_control,
            InvocationArgs::PageUpperDirectoryMap { page_upper_directory, .. } => {
                *page_upper_directory
            },
            InvocationArgs::PageDirectoryMap { page_directory, .. } => *page_directory,
            InvocationArgs::PageTableMap { page_table, .. } => *page_table,
            InvocationArgs::PageMap { page, .. } => *page,
            InvocationArgs::CnodeCopy { cnode, .. } => *cnode,
            InvocationArgs::CnodeMint { cnode, .. } => *cnode,
            InvocationArgs::SchedControlConfigureFlags { sched_control, .. } => *sched_control,
            InvocationArgs::ArmVcpuSetTcb { vcpu, .. } => *vcpu,
        }
    }

    /// The name of the service capability in the trace.
    pub fn service_name<'a>(&self, cap_lookup: &'a HashMap<u64, String>) -> (r: &'a str)
        ensures
            r@ == self.spec_service_name(cap_lookup@),
    {
        match self {
            InvocationArgs::SchedControlConfigureFlags { .. } => "None",
            _ => {
                let service = self.service();
                match cap_lookup.get(&service) {
                    Some(name) => name.as_str(),
                    None => "None",
                }
            },
        }
    }

    /// The lines of the trace that follow the head line.
    pub fn arg_lines(&self, config: &Config, cap_lookup: &HashMap<u64, String>) -> (r: Vec<String>)
        requires
            self.reportable(config),
        ensures
            spec_texts(r@) == self.spec_arg_lines(config, cap_lookup@),
    {
        let mut arg_strs: Vec<String> = Vec::new();
        match self {
            InvocationArgs::UntypedRetype {
                object_type,
                size_bits,
                root,
                node_index,
                node_depth,
                node_offset,
                num_objects,
                ..
            } => {
                arg_strs.push(object_type.format(config));
                arg_strs.push(
                    Invocation::fmt_field_str("size_bits", Invocation::size_bits_text(*size_bits)),
                );
                arg_strs.push(Invocation::fmt_field_cap("root", *root, cap_lookup));
                arg_strs.push(Invocation::fmt_field("node_index", *node_index));
                arg_strs.push(Invocation::fmt_field("node_depth", *node_depth));
                arg_strs.push(Invocation::fmt_field("node_offset", *node_offset));
                arg_strs.push(Invocation::fmt_field("num_objects", *num_objects));
            },
            InvocationArgs::TcbSetSchedParams {
                authority,
                mcp,
                priority,
                sched_context,
                fault_ep,
                ..
            } => {
                arg_strs.push(Invocation::fmt_field_cap("authority", *authority, cap_lookup));
                arg_strs.push(Invocation::fmt_field("mcp", *mcp));
                arg_strs.push(Invocation::fmt_field("priority", *priority));
                arg_strs.push(
                    Invocation::fmt_field_cap("sched_context", *sched_context, cap_lookup),
                );
                arg_strs.push(Invocation::fmt_field_cap("fault_ep", *fault_ep, cap_lookup));
            },
            InvocationArgs::TcbSetSpace {
                fault_ep,
                cspace_root,
                cspace_root_data,
                vspace_root,
                vspace_root_data,
                ..
            } => {
                arg_strs.push(Invocation::fmt_field_cap("fault_ep", *fault_ep, cap_lookup));
                arg_strs.push(Invocation::fmt_field_cap("cspace_root", *cspace_root, cap_lookup));
                arg_strs.push(Invocation::fmt_field("cspace_root_data", *cspace_root_data));
                arg_strs.push(Invocation::fmt_field_cap("vspace_root", *vspace_root, cap_lookup));
                arg_strs.push(Invocation::fmt_field("vspace_root_data", *vspace_root_data));
            },
            InvocationArgs::TcbSetIpcBuffer { buffer, buffer_frame, .. } => {
                arg_strs.push(Invocation::fmt_field_hex("buffer", *buffer));
                arg_strs.push(Invocation::fmt_field_cap("buffer_frame", *buffer_frame, cap_lookup));
            },
            InvocationArgs::TcbResume { .. } => {},
            InvocationArgs::TcbWriteRegisters { resume, arch_flags, regs, .. } => {
                arg_strs.push(Invocation::fmt_field_bool("resume", *resume));
                arg_strs.push(Invocation::fmt_field("arch_flags", *arch_flags as u64));
                let first = Invocation::fmt_field_reg(regs[0].0, regs[0].1);
                arg_strs.push(Invocation::fmt_field_str("regs", first));
                let mut i: usize = 1;
                while i < regs.len()
                    invariant
                        1 <= i <= regs.len(),
                        arg_strs@.len() == i + 2,
                        arg_strs@[0]@ == spec_fmt_field_bool("resume"@, *resume),
                        arg_strs@[1]@ == spec_fmt_field("arch_flags"@, *arch_flags as u64),
                        forall|k: int|
                            2 <= k < i + 2 ==> (#[trigger] arg_strs@[k])@ == spec_reg_line(
                                regs@,
                                k - 2,
                            ),
                    decreases regs.len() - i,
                {
                    let mut line = String::new();
                    push_fill(&mut line, ' ', 30);
                    let reg = Invocation::fmt_field_reg(regs[i].0, regs[i].1);
                    line.append(reg.as_str());
                    arg_strs.push(line);
                    i = i + 1;
                }
                assert(spec_texts(arg_strs@) =~= self.spec_arg_lines(config, cap_lookup@));
            },
            InvocationArgs::TcbBindNotification { notification, .. } => {
                arg_strs.push(Invocation::fmt_field_cap("notification", *notification, cap_lookup));
            },
            InvocationArgs::AsidPoolAssign { vspace, .. } => {
                arg_strs.push(Invocation::fmt_field_cap("vspace", *vspace, cap_lookup));
            },
            InvocationArgs::IrqControlGetTrigger {
                irq,
                trigger,
                dest_root,
                dest_index,
                dest_depth,
                ..
            } => {
                arg_strs.push(Invocation::fmt_field("irq", *irq));
                arg_strs.push(Invocation::fmt_field("trigger", trigger.value()));
                arg_strs.push(Invocation::fmt_field_cap("dest_root", *dest_root, cap_lookup));
                arg_strs.push(Invocation::fmt_field("dest_index", *dest_index));
                arg_strs.push(Invocation::fmt_field("dest_depth", *dest_depth));
            },
            InvocationArgs::IrqHandlerSetNotification { notification, .. } => {
                arg_strs.push(Invocation::fmt_field_cap("notification", *notification, cap_lookup));
            },
            InvocationArgs::IoPortControlIssue {
                first_port,
                last_port,
                dest_root,
                dest_index,
                dest_depth,
                ..
            } => {
                arg_strs.push(Invocation::fmt_field("addr", *first_port));
                arg_strs.push(Invocation::fmt_field("size", *last_port - *first_port));
                arg_strs.push(Invocation::fmt_field_cap("dest_root", *dest_root, cap_lookup));
                arg_strs.push(Invocation::fmt_field("dest_index", *dest_index));
                arg_strs.push(Invocation::fmt_field("dest_depth", *dest_depth));
            },
            InvocationArgs::PageUpperDirectoryMap { vspace, vaddr, attr, .. } => {
                arg_strs.push(Invocation::fmt_field_cap("vspace", *vspace, cap_lookup));
                arg_strs.push(Invocation::fmt_field_hex("vaddr", *vaddr));
                arg_strs.push(Invocation::fmt_field("attr", *attr));
            },
            InvocationArgs::PageDirectoryMap { vspace, vaddr, attr, .. } => {
                arg_strs.push(Invocation::fmt_field_cap("vspace", *vspace, cap_lookup));
                arg_strs.push(Invocation::fmt_field_hex("vaddr", *vaddr));
                arg_strs.push(Invocation::fmt_field("attr", *attr));
            },
            InvocationArgs::PageTableMap { vspace, vaddr, attr, .. } => {
                arg_strs.push(Invocation::fmt_field_cap("vspace", *vspace, cap_lookup));
                arg_strs.push(Invocation::fmt_field_hex("vaddr", *vaddr));
                arg_strs.push(Invocation::fmt_field("attr", *attr));
            },
            InvocationArgs::PageMap { vspace, vaddr, rights, attr, .. } => {
                arg_strs.push(Invocation::fmt_field_cap("vspace", *vspace, cap_lookup));
                arg_strs.push(Invocation::fmt_field_hex("vaddr", *vaddr));
                arg_strs.push(Invocation::fmt_field("rights", *rights));
                arg_strs.push(Invocation::fmt_field("attr", *attr));
            },
            InvocationArgs::CnodeCopy {
                dest_index,
                dest_depth,
                src_root,
                src_obj,
                src_depth,
                rights,
                ..
            } => {
                arg_strs.push(Invocation::fmt_field("dest_index", *dest_index));
                arg_strs.push(Invocation::fmt_field("dest_depth", *dest_depth));
                arg_strs.push(Invocation::fmt_field_cap("src_root", *src_root, cap_lookup));
                arg_strs.push(Invocation::fmt_field_cap("src_obj", *src_obj, cap_lookup));
                arg_strs.push(Invocation::fmt_field("src_depth", *src_depth));
                arg_strs.push(Invocation::fmt_field("rights", *rights));
            },
            InvocationArgs::CnodeMint {
                dest_index,
                dest_depth,
                src_root,
                src_obj,
                src_depth,
                rights,
                badge,
                ..
            } => {
                arg_strs.push(Invocation::fmt_field("dest_index", *dest_index));
                arg_strs.push(Invocation::fmt_field("dest_depth", *dest_depth));
                arg_strs.push(Invocation::fmt_field_cap("src_root", *src_root, cap_lookup));
                arg_strs.push(Invocation::fmt_field_cap("src_obj", *src_obj, cap_lookup));
                arg_strs.push(Invocation::fmt_field("src_depth", *src_depth));
                arg_strs.push(Invocation::fmt_field("rights", *rights));
                arg_strs.push(Invocation::fmt_field("badge", *badge));
            },
            InvocationArgs::SchedControlConfigureFlags {
                sched_context,
                budget,
                period,
                extra_refills,
                badge,
                flags,
                ..
            } => {
                arg_strs.push(Invocation::fmt_field_cap("schedcontext", *sched_context, cap_lookup));
                arg_strs.push(Invocation::fmt_field("budget", *budget));
                arg_strs.push(Invocation::fmt_field("period", *period));
                arg_strs.push(Invocation::fmt_field("extra_refills", *extra_refills));
                arg_strs.push(Invocation::fmt_field("badge", *badge));
                arg_strs.push(Invocation::fmt_field("flags", *flags));
            },
            InvocationArgs::ArmVcpuSetTcb { tcb, .. } => {
                arg_strs.push(Invocation::fmt_field_cap("tcb", *tcb, cap_lookup));
            },
        }
        assert(spec_texts(arg_strs@) =~= self.spec_arg_lines(config, cap_lookup@));
        arg_strs
    }
}

/// Every label that an operation can have is one that the trace can name.
pub proof fn lemma_labels_reported(inv: Invocation)
    requires
        inv.wf(),
    ensures
        inv.spec_label().reported(),
{
}

impl Invocation {
    pub fn fmt_field(field_name: &'static str, value: u64) -> (r: String)
        ensures
            r@ == spec_fmt_field(field_name@, value),
    {
        let mut out = String::new();
        push_fill(&mut out, ' ', 9);
        push_padded(&mut out, field_name, 20);
        out.push(' ');
        push_decimal(&mut out, value);
        assert(out@ =~= spec_fmt_field(field_name@, value));
        out
    }

    pub fn fmt_field_str(field_name: &'static str, value: String) -> (r: String)
        ensures
            r@ == spec_fmt_field_str(field_name@, value@),
    {
        let mut out = String::new();
        push_fill(&mut out, ' ', 9);
        push_padded(&mut out, field_name, 20);
        out.push(' ');
        out.append(value.as_str());
        assert(out@ =~= spec_fmt_field_str(field_name@, value@));
        out
    }

    pub fn fmt_field_hex(field_name: &'static str, value: u64) -> (r: String)
        ensures
            r@ == spec_fmt_field_hex(field_name@, value),
    {
        let mut out = String::new();
        push_fill(&mut out, ' ', 9);
        push_padded(&mut out, field_name, 20);
        out.push(' ');
        out.append("0x");
        push_hex(&mut out, value);
        assert(out@ =~= spec_fmt_field_hex(field_name@, value));
        out
    }

    pub fn fmt_field_reg(reg: &'static str, value: u64) -> (r: String)
        ensures
            r@ == spec_fmt_field_reg(reg@, value),
    {
        let mut out = String::from_str(reg);
        out.append(": 0x");
        push_hex_padded(&mut out, value, 16);
        assert(out@ =~= spec_fmt_field_reg(reg@, value));
        out
    }

    pub fn fmt_field_bool(field_name: &'static str, value: bool) -> (r: String)
        ensures
            r@ == spec_fmt_field_bool(field_name@, value),
    {
        let mut out = String::new();
        push_fill(&mut out, ' ', 9);
        push_padded(&mut out, field_name, 20);
        out.push(' ');
        push_bool(&mut out, value);
        assert(out@ =~= spec_fmt_field_bool(field_name@, value));
        out
    }

    pub fn fmt_field_cap(field_name: &'static str, cap: u64, cap_lookup: &HashMap<u64, String>) -> (r:
        String)
        ensures
            r@ == spec_fmt_field_cap(field_name@, cap, cap_lookup@),
    {
        let s: &str = match cap_lookup.get(&cap) {
            Some(name) => name.as_str(),
            None => "None",
        };
        let mut field = String::from_str(field_name);
        field.append(" (cap)");
        let mut out = String::new();
        push_fill(&mut out, ' ', 9);
        push_padded(&mut out, field.as_str(), 20);
        out.append(" 0x");
        push_hex_padded(&mut out, cap, 16);
        out.append(" (");
        out.append(s);
        out.append(")");
        assert(out@ =~= spec_fmt_field_cap(field_name@, cap, cap_lookup@));
        out
    }

    /// A size class with the size in bytes that it stands for.
    fn size_bits_text(size_bits: u64) -> (r: String)
        requires
            size_bits < 64,
        ensures
            r@ == spec_size_bits_text(size_bits),
    {
        let mut out = String::new();
        push_decimal(&mut out, size_bits);
        out.append(" (");
        if size_bits == 0 {
            out.append("N/A");
        } else {
            out.append("0x");
            push_hex(&mut out, 1u64 << size_bits);
        }
        out.append(")");
        assert(out@ =~= spec_size_bits_text(size_bits));
        out
    }

    /// The kind of object that the invocation is made on.
    pub fn object_type(&self) -> (r: &'static str)
        requires
            self.wf(),
        ensures
            r@ == self.spec_label().spec_object_kind(),
    {
        match self.label() {
            InvocationLabel::UntypedRetype => "Untyped",
            InvocationLabel::TCBSetSchedParams
            | InvocationLabel::TCBSetSpace
            | InvocationLabel::TCBSetIPCBuffer
            | InvocationLabel::TCBResume
            | InvocationLabel::TCBWriteRegisters
            | InvocationLabel::TCBBindNotification => "TCB",
            InvocationLabel::ARMASIDPoolAssign
            | InvocationLabel::RISCVASIDPoolAssign
            | InvocationLabel::X86ASIDPoolAssign => "ASID Pool",
            InvocationLabel::ARMIRQIssueIRQHandlerTrigger
            | InvocationLabel::RISCVIRQIssueIRQHandlerTrigger
            | InvocationLabel::X86IRQIssueIRQHandlerIOAPIC
            | InvocationLabel::X86IRQIssueIRQHandlerMSI => "IRQ Control",
            InvocationLabel::IRQSetIRQHandler => "IRQ Handler",
            InvocationLabel::X86IOPortControlIssue => "I/O Port",
            InvocationLabel::X86PDPTMap => "Page Upper Directory",
            InvocationLabel::X86PageDirectoryMap => "Page Directory",
            InvocationLabel::ARMPageTableMap
            | InvocationLabel::RISCVPageTableMap
            | InvocationLabel::X86PageTableMap => "Page Table",
            InvocationLabel::ARMPageMap
            | InvocationLabel::RISCVPageMap
            | InvocationLabel::X86PageMap => "Page",
            InvocationLabel::CNodeCopy
            | InvocationLabel::CNodeMint => "CNode",
            InvocationLabel::SchedControlConfigureFlags => "SchedControl",
            InvocationLabel::ARMVCPUSetTCB => "VCPU",
            _ => unreached(),
        }
    }

    /// The name of the operation.
    pub fn method_name(&self) -> (r: &'static str)
        requires
            self.wf(),
        ensures
            r@ == self.spec_label().spec_method_name(),
    {
        match self.label() {
            InvocationLabel::UntypedRetype => "Retype",
            InvocationLabel::TCBSetSchedParams => "SetSchedParams",
            InvocationLabel::TCBSetSpace => "SetSpace",
            InvocationLabel::TCBSetIPCBuffer => "SetIPCBuffer",
            InvocationLabel::TCBResume => "Resume",
            InvocationLabel::TCBWriteRegisters => "WriteRegisters",
            InvocationLabel::TCBBindNotification => "BindNotification",
            InvocationLabel::ARMASIDPoolAssign
            | InvocationLabel::RISCVASIDPoolAssign
            | InvocationLabel::X86ASIDPoolAssign => "Assign",
            InvocationLabel::ARMIRQIssueIRQHandlerTrigger
            | InvocationLabel::RISCVIRQIssueIRQHandlerTrigger
            | InvocationLabel::X86IRQIssueIRQHandlerIOAPIC
            | InvocationLabel::X86IRQIssueIRQHandlerMSI => "Get",
            InvocationLabel::IRQSetIRQHandler => "SetNotification",
            InvocationLabel::X86IOPortControlIssue => "Issue",
            InvocationLabel::ARMPageTableMap
            | InvocationLabel::ARMPageMap
            | InvocationLabel::RISCVPageTableMap
            | InvocationLabel::RISCVPageMap
            | InvocationLabel::X86PDPTMap
            | InvocationLabel::X86PageDirectoryMap
            | InvocationLabel::X86PageTableMap
            | InvocationLabel::X86PageMap => "Map",
            InvocationLabel::CNodeCopy => "Copy",
            InvocationLabel::CNodeMint => "Mint",
            InvocationLabel::SchedControlConfigureFlags => "ConfigureFlags",
            InvocationLabel::ARMVCPUSetTCB => "VCPUSetTcb",
            _ => unreached(),
        }
    }
    /// Whether a trace of the invocation can be written.
    pub open spec fn reportable(&self, config: &Config) -> bool {
        self.spec_args().reportable(config)
    }

    /// The line that ends a trace with a repeat.
    pub open spec fn spec_repeat_line(&self) -> Seq<char> {
        match self.spec_repeat() {
            Some((count, _)) => "      REPEAT: count="@ + spec_decimal(count as nat) + seq!['\n'],
            None => Seq::empty(),
        }
    }

    /// The trace of the invocation. The head line holds the kind of object
    /// padded to twenty characters, the operation padded to seventeen, and
    /// the service capability with its name. One line for each field
    /// follows, and a line with the count where a repeat is attached.
    pub open spec fn spec_report(&self, config: &Config, cap_lookup: CapNames) -> Seq<char> {
        spec_pad_right(self.spec_label().spec_object_kind(), 20) + " - "@ + spec_pad_right(
            self.spec_label().spec_method_name(),
            17,
        ) + " - 0x"@ + spec_hex_padded(self.spec_args().spec_service() as nat, 16) + " ("@
            + self.spec_args().spec_service_name(cap_lookup) + ")"@ + seq!['\n'] + spec_join_lines(
            self.spec_args().spec_arg_lines(config, cap_lookup),
        ) + seq!['\n'] + self.spec_repeat_line()
    }

    /// Whether `reportable` holds.
    pub fn is_reportable(&self, config: &Config) -> (r: bool)
        ensures
            r == self.reportable(config),
    {
        self.args().is_reportable(config)
    }

    /// Writes the trace of the invocation for the build log: what kind of
    /// object is invoked, which operation, and each argument in a form
    /// that suits its kind.
    pub fn report_fmt(&self, config: &Config, cap_lookup: &HashMap<u64, String>) -> (r: String)
        requires
            self.wf(),
            self.reportable(config),
        ensures
            r@ == self.spec_report(config, cap_lookup@),
    {
        let args = self.args();
        let arg_strs = args.arg_lines(config, cap_lookup);
        let service = args.service();
        let service_str = args.service_name(cap_lookup);
        let mut out = String::new();
        push_padded(&mut out, self.object_type(), 20);
        out.append(" - ");
        push_padded(&mut out, self.method_name(), 17);
        out.append(" - 0x");
        push_hex_padded(&mut out, service, 16);
        out.append(" (");
        out.append(service_str);
        out.append(")");
        out.push('\n');
        push_joined(&mut out, &arg_strs);
        out.push('\n');
        if let Some(count) = self.repeat_count() {
            out.append("      REPEAT: count=");
            push_decimal(&mut out, count as u64);
            out.push('\n');
        }
        assert(out@ =~= self.spec_report(config, cap_lookup@));
        out
    }
}

} // verus!
