use std::collections::HashMap;

use sel4::{
    Arch, Config, Invocation, InvocationArgs, IrqTrigger, ObjectType, Riscv64Regs,
    RiscvVirtualMemory,
};

const LABELS: [(&str, u64); 27] = [
    ("UntypedRetype", 1),
    ("TCBWriteRegisters", 3),
    ("TCBSetSchedParams", 8),
    ("TCBSetIPCBuffer", 10),
    ("TCBSetSpace", 11),
    ("TCBResume", 13),
    ("TCBBindNotification", 14),
    ("CNodeCopy", 20),
    ("CNodeMint", 21),
    ("IRQSetIRQHandler", 27),
    ("SchedControlConfigureFlags", 30),
    ("ARMPageTableMap", 40),
    ("ARMPageMap", 42),
    ("ARMASIDPoolAssign", 49),
    ("ARMVCPUSetTCB", 50),
    ("ARMIRQIssueIRQHandlerTrigger", 55),
    ("RISCVPageTableMap", 36),
    ("RISCVPageMap", 38),
    ("RISCVASIDPoolAssign", 42),
    ("RISCVIRQIssueIRQHandlerTrigger", 43),
    ("X86PDPTMap", 36),
    ("X86PageDirectoryMap", 38),
    ("X86PageTableMap", 40),
    ("X86PageMap", 44),
    ("X86ASIDPoolAssign", 50),
    ("X86IOPortControlIssue", 51),
    ("X86IRQIssueIRQHandlerIOAPIC", 58),
];

fn config(arch: Arch) -> Config {
    let mut map = serde_json::Map::new();
    for (name, number) in LABELS {
        map.insert(name.to_string(), serde_json::Value::from(number));
    }
    let (pa, smc, levels) = match arch {
        Arch::Aarch64 => (Some(40), Some(false), None),
        Arch::Riscv64 => (None, None, Some(RiscvVirtualMemory::Sv39)),
        Arch::X86_64 => (None, None, None),
    };
    Config {
        arch,
        word_size: 64,
        minimum_page_size: 4096,
        paddr_user_device_top: 1 << 40,
        kernel_frame_size: 1 << 12,
        init_cnode_bits: 12,
        cap_address_bits: 64,
        fan_out_limit: 256,
        hypervisor: false,
        benchmark: false,
        fpu: false,
        arm_pa_size_bits: pa,
        arm_smc: smc,
        riscv_pt_levels: levels,
        invocations_labels: serde_json::Value::Object(map),
        x86_xsave_size: None,
    }
}

fn names() -> HashMap<u64, String> {
    let mut m = HashMap::new();
    m.insert(1, "TCB: PD=hello".to_string());
    m.insert(2, "CNode: root".to_string());
    m.insert(3, "VSpace: PD=hello".to_string());
    m.insert(0x70, "Untyped @ 0x80000000".to_string());
    m.insert(0xffff_ffff_ffff_ffff, "last".to_string());
    m
}

fn cap_text(names: &HashMap<u64, String>, cap: u64) -> String {
    names.get(&cap).cloned().unwrap_or("None".to_string())
}

fn field(name: &str, value: u64) -> String {
    format!("         {:<20} {}", name, value)
}

fn field_hex(name: &str, value: u64) -> String {
    format!("         {:<20} 0x{:x}", name, value)
}

fn field_cap(names: &HashMap<u64, String>, name: &str, cap: u64) -> String {
    let f = format!("{} (cap)", name);
    format!("         {:<20} 0x{:016x} ({})", f, cap, cap_text(names, cap))
}

fn head(kind: &str, method: &str, service: u64, service_name: &str, lines: &[String]) -> String {
    format!(
        "{:<20} - {:<17} - 0x{:016x} ({})\n{}\n",
        kind,
        method,
        service,
        service_name,
        lines.join("\n")
    )
}

#[test]
fn field_lines_have_the_layout_of_the_log() {
    assert_eq!(Invocation::fmt_field("mcp", 0), "         mcp                  0");
    assert_eq!(Invocation::fmt_field("priority", 254), "         priority             254");
    for v in [0u64, 1, 9, 10, 11, 99, 100, 12345, 1 << 32, u64::MAX - 1, u64::MAX] {
        assert_eq!(Invocation::fmt_field("node_index", v), field("node_index", v));
        assert_eq!(Invocation::fmt_field_hex("vaddr", v), field_hex("vaddr", v));
        assert_eq!(Invocation::fmt_field_reg("pc", v), format!("{}: 0x{:016x}", "pc", v));
    }
    assert_eq!(Invocation::fmt_field_hex("buffer", 0xdead_beef), "         buffer               0xdeadbeef");
    assert_eq!(Invocation::fmt_field_reg("tpidr_el0", 0xabc), "tpidr_el0: 0x0000000000000abc");
    assert_eq!(
        Invocation::fmt_field_str("regs", "x".to_string()),
        format!("         {:<20} {}", "regs", "x")
    );
    assert_eq!(Invocation::fmt_field_bool("resume", true), "         resume               true");
    assert_eq!(Invocation::fmt_field_bool("resume", false), "         resume               false");
}

#[test]
fn field_names_longer_than_the_column_are_not_cut() {
    assert_eq!(
        Invocation::fmt_field("a_field_name_of_more_than_twenty", 5),
        format!("         {:<20} {}", "a_field_name_of_more_than_twenty", 5)
    );
    assert_eq!(
        Invocation::fmt_field("exactly_twenty_chars", 5),
        "         exactly_twenty_chars 5"
    );
    let n = names();
    assert_eq!(
        Invocation::fmt_field_cap("sched_context_", 2, &n),
        format!("         {:<20} 0x{:016x} ({})", "sched_context_ (cap)", 2, "CNode: root")
    );
    assert_eq!(
        Invocation::fmt_field_cap("sched_context_x", 2, &n),
        field_cap(&n, "sched_context_x", 2)
    );
}

#[test]
fn capability_fields_show_the_name_or_none() {
    let n = names();
    assert_eq!(
        Invocation::fmt_field_cap("root", 2, &n),
        "         root (cap)           0x0000000000000002 (CNode: root)"
    );
    assert_eq!(
        Invocation::fmt_field_cap("root", 5, &n),
        "         root (cap)           0x0000000000000005 (None)"
    );
    assert_eq!(
        Invocation::fmt_field_cap("vspace", u64::MAX, &n),
        "         vspace (cap)         0xffffffffffffffff (last)"
    );
}

#[test]
fn trace_of_tcb_resume() {
    let c = config(Arch::Aarch64);
    let n = names();
    let inv = Invocation::new(&c, InvocationArgs::TcbResume { tcb: 1 });
    assert_eq!(inv.object_type(), "TCB");
    assert_eq!(inv.method_name(), "Resume");
    assert_eq!(
        inv.report_fmt(&c, &n),
        "TCB                  - Resume            - 0x0000000000000001 (TCB: PD=hello)\n\n"
    );
}

#[test]
fn trace_of_retype() {
    let c = config(Arch::Aarch64);
    let n = names();
    let args = |size_bits: u64, object_type: ObjectType| InvocationArgs::UntypedRetype {
        untyped: 0x70,
        object_type,
        size_bits,
        root: 2,
        node_index: 1,
        node_depth: 2,
        node_offset: 300,
        num_objects: 4,
    };
    let inv = Invocation::new(&c, args(0, ObjectType::SmallPage));
    let expected = "Untyped              - Retype            - 0x0000000000000070 (Untyped @ 0x80000000)\n\
\x20        object_type          9 (SEL4_SMALL_PAGE_OBJECT - 0x1000)\n\
\x20        size_bits            0 (N/A)\n\
\x20        root (cap)           0x0000000000000002 (CNode: root)\n\
\x20        node_index           1\n\
\x20        node_depth           2\n\
\x20        node_offset          300\n\
\x20        num_objects          4\n";
    assert_eq!(inv.report_fmt(&c, &n), expected);

    let mut inv = Invocation::new(&c, args(12, ObjectType::CNode));
    inv.repeat(17, args(12, ObjectType::CNode));
    let lines = vec![
        "         object_type          4 (SEL4_CNODE_OBJECT - variable size)".to_string(),
        format!("         {:<20} {}", "size_bits", format!("{} ({})", 12, format!("0x{:x}", 1u64 << 12))),
        field_cap(&n, "root", 2),
        field("node_index", 1),
        field("node_depth", 2),
        field("node_offset", 300),
        field("num_objects", 4),
    ];
    let expected = head("Untyped", "Retype", 0x70, "Untyped @ 0x80000000", &lines)
        + &format!("      REPEAT: count={}\n", 17);
    assert_eq!(inv.report_fmt(&c, &n), expected);
    assert!(expected.contains("size_bits            12 (0x1000)\n"));
    assert!(expected.ends_with("\n      REPEAT: count=17\n"));

    let inv = Invocation::new(&c, args(63, ObjectType::Untyped));
    assert!(inv.report_fmt(&c, &n).contains("size_bits            63 (0x8000000000000000)\n"));
}

#[test]
fn trace_of_write_registers() {
    let c = config(Arch::Riscv64);
    let n = names();
    let regs = Riscv64Regs { pc: 0x20_0000, sp: 0x3f_ffff_f000, a0: 7, ..Default::default() };
    let inv = Invocation::new(
        &c,
        InvocationArgs::TcbWriteRegisters {
            tcb: 1,
            resume: false,
            arch_flags: 200,
            count: 32,
            regs: regs.field_names(),
        },
    );
    let reg_strs: Vec<String> =
        regs.field_names().iter().map(|(f, v)| format!("{}: 0x{:016x}", f, v)).collect();
    let mut lines = vec![
        format!("         {:<20} {}", "resume", false),
        field("arch_flags", 200),
        format!("         {:<20} {}", "regs", reg_strs[0]),
    ];
    for s in &reg_strs[1..] {
        lines.push(format!("                              {}", s));
    }
    let expected = head("TCB", "WriteRegisters", 1, "TCB: PD=hello", &lines);
    let got = inv.report_fmt(&c, &n);
    assert_eq!(got, expected);
    assert_eq!(got.lines().count(), 1 + 2 + 32);
    assert!(got.contains("\n         regs                 pc: 0x0000000000200000\n"));
    assert!(got.contains("\n                              ra: 0x0000000000000000\n"));
    assert!(got.ends_with("\n                              tp: 0x0000000000000000\n"));

    let one = Invocation::new(
        &c,
        InvocationArgs::TcbWriteRegisters {
            tcb: 1,
            resume: true,
            arch_flags: 0,
            count: 1,
            regs: vec![("pc", 1)],
        },
    );
    assert_eq!(
        one.report_fmt(&c, &n),
        "TCB                  - WriteRegisters    - 0x0000000000000001 (TCB: PD=hello)\n\
\x20        resume               true\n\
\x20        arch_flags           0\n\
\x20        regs                 pc: 0x0000000000000001\n"
    );
}

#[test]
fn trace_of_every_other_operation() {
    let n = names();
    let check = |arch: Arch, args: InvocationArgs, kind: &str, method: &str, service_name: &str, lines: Vec<String>| {
        let c = config(arch);
        let service = args.service();
        let inv = Invocation::new(&c, args);
        assert!(inv.is_reportable(&c));
        assert_eq!(inv.object_type(), kind);
        assert_eq!(inv.method_name(), method);
        assert_eq!(inv.report_fmt(&c, &n), head(kind, method, service, service_name, &lines));
    };
    let tcb = "TCB: PD=hello";
    check(
        Arch::Aarch64,
        InvocationArgs::TcbSetSchedParams {
            tcb: 1,
            authority: 1,
            mcp: 254,
            priority: 100,
            sched_context: 9,
            fault_ep: 2,
        },
        "TCB",
        "SetSchedParams",
        tcb,
        vec![
            field_cap(&n, "authority", 1),
            field("mcp", 254),
            field("priority", 100),
            field_cap(&n, "sched_context", 9),
            field_cap(&n, "fault_ep", 2),
        ],
    );
    check(
        Arch::Aarch64,
        InvocationArgs::TcbSetSpace {
            tcb: 1,
            fault_ep: 9,
            cspace_root: 2,
            cspace_root_data: 58,
            vspace_root: 3,
            vspace_root_data: 0,
        },
        "TCB",
        "SetSpace",
        tcb,
        vec![
            field_cap(&n, "fault_ep", 9),
            field_cap(&n, "cspace_root", 2),
            field("cspace_root_data", 58),
            field_cap(&n, "vspace_root", 3),
            field("vspace_root_data", 0),
        ],
    );
    check(
        Arch::Aarch64,
        InvocationArgs::TcbSetIpcBuffer { tcb: 1, buffer: 0x10_0000, buffer_frame: 77 },
        "TCB",
        "SetIPCBuffer",
        tcb,
        vec![field_hex("buffer", 0x10_0000), field_cap(&n, "buffer_frame", 77)],
    );
    check(
        Arch::Aarch64,
        InvocationArgs::TcbBindNotification { tcb: 1, notification: 2 },
        "TCB",
        "BindNotification",
        tcb,
        vec![field_cap(&n, "notification", 2)],
    );
    for arch in [Arch::Aarch64, Arch::Riscv64, Arch::X86_64] {
        check(
            arch,
            InvocationArgs::AsidPoolAssign { asid_pool: 2, vspace: 3 },
            "ASID Pool",
            "Assign",
            "CNode: root",
            vec![field_cap(&n, "vspace", 3)],
        );
        check(
            arch,
            InvocationArgs::IrqControlGetTrigger {
                irq_control: 2,
                irq: 33,
                trigger: IrqTrigger::Edge,
                dest_root: 2,
                dest_index: 5,
                dest_depth: 64,
            },
            "IRQ Control",
            "Get",
            "CNode: root",
            vec![
                field("irq", 33),
                field("trigger", 1),
                field_cap(&n, "dest_root", 2),
                field("dest_index", 5),
                field("dest_depth", 64),
            ],
        );
        check(
            arch,
            InvocationArgs::PageTableMap { page_table: 1, vspace: 3, vaddr: 0x20_0000, attr: 3 },
            "Page Table",
            "Map",
            tcb,
            vec![field_cap(&n, "vspace", 3), field_hex("vaddr", 0x20_0000), field("attr", 3)],
        );
        check(
            arch,
            InvocationArgs::PageMap { page: 1, vspace: 3, vaddr: 0x20_0000, rights: 3, attr: 7 },
            "Page",
            "Map",
            tcb,
            vec![
                field_cap(&n, "vspace", 3),
                field_hex("vaddr", 0x20_0000),
                field("rights", 3),
                field("attr", 7),
            ],
        );
    }
    check(
        Arch::X86_64,
        InvocationArgs::PageUpperDirectoryMap {
            page_upper_directory: 1,
            vspace: 3,
            vaddr: 0,
            attr: 0,
        },
        "Page Upper Directory",
        "Map",
        tcb,
        vec![field_cap(&n, "vspace", 3), field_hex("vaddr", 0), field("attr", 0)],
    );
    check(
        Arch::X86_64,
        InvocationArgs::PageDirectoryMap { page_directory: 1, vspace: 3, vaddr: 0, attr: 0 },
        "Page Directory",
        "Map",
        tcb,
        vec![field_cap(&n, "vspace", 3), field_hex("vaddr", 0), field("attr", 0)],
    );
    check(
        Arch::Aarch64,
        InvocationArgs::PageUpperDirectoryMap {
            page_upper_directory: 1,
            vspace: 3,
            vaddr: 0,
            attr: 0,
        },
        "Page Table",
        "Map",
        tcb,
        vec![field_cap(&n, "vspace", 3), field_hex("vaddr", 0), field("attr", 0)],
    );
    check(
        Arch::Aarch64,
        InvocationArgs::IrqHandlerSetNotification { irq_handler: 1, notification: 2 },
        "IRQ Handler",
        "SetNotification",
        tcb,
        vec![field_cap(&n, "notification", 2)],
    );
    check(
        Arch::X86_64,
        InvocationArgs::IoPortControlIssue {
            ioport_control: 1,
            first_port: 0x3f8,
            last_port: 0x3ff,
            dest_root: 2,
            dest_index: 5,
            dest_depth: 64,
        },
        "I/O Port",
        "Issue",
        tcb,
        vec![
            field("addr", 0x3f8),
            field("size", 7),
            field_cap(&n, "dest_root", 2),
            field("dest_index", 5),
            field("dest_depth", 64),
        ],
    );
    check(
        Arch::Aarch64,
        InvocationArgs::CnodeCopy {
            cnode: 2,
            dest_index: 1,
            dest_depth: 2,
            src_root: 2,
            src_obj: 3,
            src_depth: 4,
            rights: 15,
        },
        "CNode",
        "Copy",
        "CNode: root",
        vec![
            field("dest_index", 1),
            field("dest_depth", 2),
            field_cap(&n, "src_root", 2),
            field_cap(&n, "src_obj", 3),
            field("src_depth", 4),
            field("rights", 15),
        ],
    );
    check(
        Arch::Aarch64,
        InvocationArgs::CnodeMint {
            cnode: 2,
            dest_index: 1,
            dest_depth: 2,
            src_root: 2,
            src_obj: 3,
            src_depth: 4,
            rights: 15,
            badge: 1 << 63,
        },
        "CNode",
        "Mint",
        "CNode: root",
        vec![
            field("dest_index", 1),
            field("dest_depth", 2),
            field_cap(&n, "src_root", 2),
            field_cap(&n, "src_obj", 3),
            field("src_depth", 4),
            field("rights", 15),
            field("badge", 1 << 63),
        ],
    );
    check(
        Arch::Aarch64,
        InvocationArgs::SchedControlConfigureFlags {
            sched_control: 12345,
            sched_context: 3,
            budget: 1000,
            period: 2000,
            extra_refills: 0,
            badge: 256,
            flags: 1,
        },
        "SchedControl",
        "ConfigureFlags",
        "None",
        vec![
            field_cap(&n, "schedcontext", 3),
            field("budget", 1000),
            field("period", 2000),
            field("extra_refills", 0),
            field("badge", 256),
            field("flags", 1),
        ],
    );
    check(
        Arch::Aarch64,
        InvocationArgs::ArmVcpuSetTcb { vcpu: 3, tcb: 1 },
        "VCPU",
        "VCPUSetTcb",
        "VSpace: PD=hello",
        vec![field_cap(&n, "tcb", 1)],
    );
}

#[test]
fn service_without_a_name_is_shown_as_none() {
    let c = config(Arch::Aarch64);
    let n = names();
    let unnamed = Invocation::new(&c, InvocationArgs::TcbResume { tcb: 0x1000 });
    assert!(unnamed.is_reportable(&c));
    assert_eq!(
        unnamed.report_fmt(&c, &n),
        "TCB                  - Resume            - 0x0000000000001000 (None)\n\n"
    );
    let empty: HashMap<u64, String> = HashMap::new();
    assert_eq!(
        unnamed.report_fmt(&c, &empty),
        "TCB                  - Resume            - 0x0000000000001000 (None)\n\n"
    );
    assert_eq!(InvocationArgs::TcbResume { tcb: 0x1000 }.service_name(&empty), "None");
    let map = Invocation::new(
        &c,
        InvocationArgs::PageMap { page: 999, vspace: 3, vaddr: 0x1000, rights: 3, attr: 0 },
    );
    assert_eq!(
        map.report_fmt(&c, &n),
        head(
            "Page",
            "Map",
            999,
            "None",
            &[
                field_cap(&n, "vspace", 3),
                field_hex("vaddr", 0x1000),
                field("rights", 3),
                field("attr", 0)
            ]
        )
    );
}

#[test]
fn scheduling_control_is_always_shown_as_none() {
    let c = config(Arch::Aarch64);
    let mut n = names();
    n.insert(999, "SchedControl".to_string());
    let sched = Invocation::new(
        &c,
        InvocationArgs::SchedControlConfigureFlags {
            sched_control: 999,
            sched_context: 3,
            budget: 1,
            period: 1,
            extra_refills: 0,
            badge: 0,
            flags: 0,
        },
    );
    assert!(sched.is_reportable(&c));
    assert!(sched
        .report_fmt(&c, &n)
        .starts_with("SchedControl         - ConfigureFlags    - 0x00000000000003e7 (None)\n"));
}

#[test]
fn trace_needs_fields_that_can_be_written() {
    let c = config(Arch::Riscv64);
    let retype = |object_type: ObjectType, size_bits: u64| InvocationArgs::UntypedRetype {
        untyped: 0x70,
        object_type,
        size_bits,
        root: 2,
        node_index: 0,
        node_depth: 0,
        node_offset: 0,
        num_objects: 1,
    };
    assert!(retype(ObjectType::Tcb, 63).is_reportable(&c));
    assert!(!retype(ObjectType::Tcb, 64).is_reportable(&c));
    assert!(!retype(ObjectType::Vcpu, 0).is_reportable(&c));
    let no_regs = InvocationArgs::TcbWriteRegisters {
        tcb: 1,
        resume: true,
        arch_flags: 0,
        count: 0,
        regs: vec![],
    };
    assert!(!no_regs.is_reportable(&c));
    let ports = |first_port: u64, last_port: u64| InvocationArgs::IoPortControlIssue {
        ioport_control: 1,
        first_port,
        last_port,
        dest_root: 2,
        dest_index: 0,
        dest_depth: 0,
    };
    assert!(ports(5, 5).is_reportable(&c));
    assert!(!ports(6, 5).is_reportable(&c));
}

#[test]
fn service_is_the_first_field() {
    let n = names();
    let args = InvocationArgs::TcbSetIpcBuffer { tcb: 1, buffer: 2, buffer_frame: 3 };
    assert_eq!(args.service(), 1);
    assert_eq!(args.service_name(&n), "TCB: PD=hello");
    assert_eq!(args.arg_lines(&config(Arch::Aarch64), &n).len(), 2);
}
