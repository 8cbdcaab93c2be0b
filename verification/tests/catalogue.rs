use sel4::{
    default_vm_attr, Aarch64Regs, Arch, ArmVmAttributes, Config, IrqTrigger, ObjectType, PageSize,
    Rights, Riscv64Regs, RiscvVirtualMemory, RiscvVmAttributes, X86VmAttributes, X86_64Regs,
};

const ALL_TYPES: [ObjectType; 21] = [
    ObjectType::Untyped,
    ObjectType::Tcb,
    ObjectType::Endpoint,
    ObjectType::Notification,
    ObjectType::CNode,
    ObjectType::SchedContext,
    ObjectType::Reply,
    ObjectType::HugePage,
    ObjectType::VSpace,
    ObjectType::SmallPage,
    ObjectType::LargePage,
    ObjectType::PageTable,
    ObjectType::Vcpu,
    ObjectType::PageDirectory,
    ObjectType::PdPt,
    ObjectType::Pml4,
    ObjectType::IOPageTable,
    ObjectType::EptPml4,
    ObjectType::EptPdPt,
    ObjectType::EptPageDirectory,
    ObjectType::EptPageTable,
];

fn config(arch: Arch) -> Config {
    let (pa, smc, levels) = match arch {
        Arch::Aarch64 => (Some(40), Some(false), None),
        Arch::Riscv64 => (None, None, Some(RiscvVirtualMemory::Sv39)),
        Arch::X86_64 => (None, None, None),
    };
    Config {
        arch,
        word_size: 64,
        minimum_page_size: 4096,
        paddr_user_device_top: 1 << 40,
        kernel_frame_size: 1 << 12,
        init_cnode_bits: 12,
        cap_address_bits: 64,
        fan_out_limit: 256,
        hypervisor: false,
        benchmark: false,
        fpu: false,
        arm_pa_size_bits: pa,
        arm_smc: smc,
        riscv_pt_levels: levels,
        invocations_labels: serde_json::Value::Null,
        x86_xsave_size: None,
    }
}

fn all_configs() -> Vec<Config> {
    let mut configs = Vec::new();
    for hypervisor in [false, true] {
        for pa in [40usize, 44usize] {
            let mut c = config(Arch::Aarch64);
            c.hypervisor = hypervisor;
            c.arm_pa_size_bits = Some(pa);
            configs.push(c);
        }
    }
    for fpu in [false, true] {
        let mut c = config(Arch::Riscv64);
        c.fpu = fpu;
        configs.push(c);
    }
    for xsave in [None, Some(0u64), Some(831), Some(832), Some(833), Some(4096)] {
        let mut c = config(Arch::X86_64);
        c.x86_xsave_size = xsave;
        configs.push(c);
    }
    configs
}

#[test]
fn fixed_size_is_one_shifted_by_fixed_size_bits() {
    let mut seen = 0;
    for c in all_configs() {
        for t in ALL_TYPES {
            if !t.is_sized_under(&c) {
                assert!(t == ObjectType::Vcpu && c.arch == Arch::Riscv64);
                continue;
            }
            match t.fixed_size_bits(&c) {
                Some(bits) => assert_eq!(t.fixed_size(&c), Some(1u64 << bits)),
                None => assert_eq!(t.fixed_size(&c), None),
            }
            seen += 1;
        }
    }
    assert_eq!(seen, 12 * 21 - 2);
}

#[test]
fn variable_size_types_have_no_fixed_size() {
    for c in all_configs() {
        for t in [ObjectType::Untyped, ObjectType::CNode, ObjectType::SchedContext] {
            assert_eq!(t.fixed_size_bits(&c), None);
            assert_eq!(t.fixed_size(&c), None);
        }
    }
}

#[test]
fn tcb_size_bits_follow_architecture_and_flags() {
    assert_eq!(ObjectType::Tcb.fixed_size_bits(&config(Arch::Aarch64)), Some(11));
    let mut riscv = config(Arch::Riscv64);
    assert_eq!(ObjectType::Tcb.fixed_size_bits(&riscv), Some(10));
    riscv.fpu = true;
    assert_eq!(ObjectType::Tcb.fixed_size_bits(&riscv), Some(11));
    let mut x86 = config(Arch::X86_64);
    assert_eq!(ObjectType::Tcb.fixed_size_bits(&x86), Some(11));
    x86.x86_xsave_size = Some(831);
    assert_eq!(ObjectType::Tcb.fixed_size_bits(&x86), Some(11));
    x86.x86_xsave_size = Some(832);
    assert_eq!(ObjectType::Tcb.fixed_size_bits(&x86), Some(12));
    assert_eq!(ObjectType::Tcb.fixed_size(&x86), Some(4096));
}

#[test]
fn vspace_size_bits_follow_arm_physical_address_width() {
    let mut arm = config(Arch::Aarch64);
    assert_eq!(ObjectType::VSpace.fixed_size_bits(&arm), Some(12));
    arm.hypervisor = true;
    arm.arm_pa_size_bits = Some(40);
    assert_eq!(ObjectType::VSpace.fixed_size_bits(&arm), Some(13));
    assert_eq!(ObjectType::VSpace.fixed_size(&arm), Some(8192));
    arm.arm_pa_size_bits = Some(44);
    assert_eq!(ObjectType::VSpace.fixed_size_bits(&arm), Some(12));
    assert_eq!(ObjectType::VSpace.fixed_size_bits(&config(Arch::Riscv64)), Some(12));
    assert_eq!(ObjectType::VSpace.fixed_size_bits(&config(Arch::X86_64)), Some(12));
}

#[test]
fn vcpu_size_bits_follow_architecture() {
    assert_eq!(ObjectType::Vcpu.fixed_size_bits(&config(Arch::Aarch64)), Some(12));
    assert_eq!(ObjectType::Vcpu.fixed_size_bits(&config(Arch::X86_64)), Some(14));
    assert!(!ObjectType::Vcpu.is_on(Arch::Riscv64));
    assert!(!ObjectType::Vcpu.is_sized_under(&config(Arch::Riscv64)));
    assert!(ObjectType::Vcpu.is_on(Arch::Aarch64));
}

#[test]
fn vspace_size_needs_a_known_arm_physical_address_width() {
    let mut arm = config(Arch::Aarch64);
    arm.hypervisor = true;
    arm.arm_pa_size_bits = Some(48);
    assert!(!ObjectType::VSpace.is_sized_under(&arm));
    assert!(ObjectType::SmallPage.is_sized_under(&arm));
    arm.arm_pa_size_bits = None;
    assert!(!ObjectType::VSpace.is_sized_under(&arm));
    arm.hypervisor = false;
    assert!(ObjectType::VSpace.is_sized_under(&arm));
}

#[test]
fn other_fixed_sizes() {
    let c = config(Arch::Aarch64);
    assert_eq!(ObjectType::Endpoint.fixed_size_bits(&c), Some(4));
    assert_eq!(ObjectType::Notification.fixed_size_bits(&c), Some(6));
    assert_eq!(ObjectType::Reply.fixed_size_bits(&c), Some(5));
    assert_eq!(ObjectType::SmallPage.fixed_size(&c), Some(0x1000));
    assert_eq!(ObjectType::LargePage.fixed_size(&c), Some(0x200000));
    assert_eq!(ObjectType::HugePage.fixed_size(&c), Some(0x40000000));
    for t in [
        ObjectType::PageTable,
        ObjectType::PageDirectory,
        ObjectType::PdPt,
        ObjectType::Pml4,
        ObjectType::IOPageTable,
        ObjectType::EptPml4,
        ObjectType::EptPdPt,
        ObjectType::EptPageDirectory,
        ObjectType::EptPageTable,
    ] {
        assert_eq!(t.fixed_size_bits(&c), Some(12));
    }
}

#[test]
fn value_matches_the_table_on_arm() {
    let c = config(Arch::Aarch64);
    let expected: [u64; 21] =
        [0, 1, 2, 3, 4, 5, 6, 7, 8, 9, 10, 11, 12, 13, 7, 8, 14, 16, 17, 18, 19];
    for (t, e) in ALL_TYPES.iter().zip(expected) {
        assert_eq!(t.value(&c), e, "{:?}", t);
    }
}

#[test]
fn value_matches_the_table_on_riscv() {
    let c = config(Arch::Riscv64);
    let expected: [Option<u64>; 21] = [
        Some(0),
        Some(1),
        Some(2),
        Some(3),
        Some(4),
        Some(5),
        Some(6),
        Some(7),
        Some(10),
        Some(8),
        Some(9),
        Some(10),
        None,
        Some(13),
        Some(7),
        Some(8),
        Some(14),
        Some(16),
        Some(17),
        Some(18),
        Some(19),
    ];
    for (t, e) in ALL_TYPES.iter().zip(expected) {
        match e {
            Some(e) => assert_eq!(t.value(&c), e, "{:?}", t),
            None => assert!(!t.is_on(c.arch)),
        }
    }
}

#[test]
fn value_matches_the_table_on_x86() {
    let c = config(Arch::X86_64);
    let expected: [u64; 21] =
        [0, 1, 2, 3, 4, 5, 6, 9, 8, 10, 11, 12, 15, 13, 7, 8, 14, 16, 17, 18, 19];
    for (t, e) in ALL_TYPES.iter().zip(expected) {
        assert_eq!(t.value(&c), e, "{:?}", t);
    }
}

#[test]
fn object_type_names() {
    assert_eq!(ObjectType::Untyped.to_str(), "SEL4_UNTYPED_OBJECT");
    assert_eq!(ObjectType::Tcb.to_str(), "SEL4_TCB_OBJECT");
    assert_eq!(ObjectType::SmallPage.to_str(), "SEL4_SMALL_PAGE_OBJECT");
    assert_eq!(ObjectType::PdPt.to_str(), "SEL4_PDPT_OBJECT");
    assert_eq!(ObjectType::EptPageTable.to_str(), "SEL4_EPT_PAGE_TABLE_OBJECT");
    let mut names: Vec<&str> = ALL_TYPES.iter().map(|t| t.to_str()).collect();
    names.sort();
    names.dedup();
    assert_eq!(names.len(), 21);
}

#[test]
fn object_type_format() {
    let c = config(Arch::Aarch64);
    assert_eq!(
        ObjectType::SmallPage.format(&c),
        "         object_type          9 (SEL4_SMALL_PAGE_OBJECT - 0x1000)"
    );
    assert_eq!(
        ObjectType::Untyped.format(&c),
        "         object_type          0 (SEL4_UNTYPED_OBJECT - variable size)"
    );
    assert_eq!(
        ObjectType::EptPageTable.format(&config(Arch::X86_64)),
        "         object_type          19 (SEL4_EPT_PAGE_TABLE_OBJECT - 0x1000)"
    );
    for c in all_configs() {
        for t in ALL_TYPES {
            if !t.is_sized_under(&c) {
                continue;
            }
            let size = match t.fixed_size(&c) {
                Some(size) => format!("0x{:x}", size),
                None => "variable size".to_string(),
            };
            let expected =
                format!("         object_type          {} ({} - {})", t.value(&c), t.to_str(), size);
            assert_eq!(t.format(&c), expected);
        }
    }
}

#[test]
fn page_size_numbers() {
    assert_eq!(PageSize::Small.bytes(), 0x1000);
    assert_eq!(PageSize::Large.bytes(), 0x200_000);
    assert_eq!(PageSize::from(0x1000), PageSize::Small);
    assert_eq!(PageSize::from(0x200_000), PageSize::Large);
}

#[test]
fn vm_attribute_numbers() {
    assert_eq!(ArmVmAttributes::Cacheable.value(), 1);
    assert_eq!(ArmVmAttributes::ParityEnabled.value(), 2);
    assert_eq!(ArmVmAttributes::ExecuteNever.value(), 4);
    assert_eq!(RiscvVmAttributes::ExecuteNever.value(), 1);
    assert_eq!(X86VmAttributes::PageAttributeTable.value(), 1);
    assert_eq!(X86VmAttributes::CacheDisable.value(), 2);
    assert_eq!(X86VmAttributes::WriteThrough.value(), 4);
    assert_eq!(ArmVmAttributes::default(), 3);
    assert_eq!(RiscvVmAttributes::default(), 0);
    assert_eq!(X86VmAttributes::default(), 0);
    assert_eq!(default_vm_attr(&config(Arch::Aarch64)), 3);
    assert_eq!(default_vm_attr(&config(Arch::Riscv64)), 0);
    assert_eq!(default_vm_attr(&config(Arch::X86_64)), 0);
}

#[test]
fn rights_and_trigger_numbers() {
    assert_eq!(Rights::Empty.value(), 0);
    assert_eq!(Rights::Write.value(), 1);
    assert_eq!(Rights::Read.value(), 2);
    assert_eq!(Rights::Grant.value(), 4);
    assert_eq!(Rights::GrantReply.value(), 8);
    assert_eq!(Rights::All.value(), 0xf);
    assert_eq!(IrqTrigger::Level.value(), 0);
    assert_eq!(IrqTrigger::Edge.value(), 1);
}

#[test]
fn riscv_registers_in_kernel_order() {
    let names = [
        "pc", "ra", "sp", "gp", "s0", "s1", "s2", "s3", "s4", "s5", "s6", "s7", "s8", "s9", "s10",
        "s11", "a0", "a1", "a2", "a3", "a4", "a5", "a6", "a7", "t0", "t1", "t2", "t3", "t4", "t5",
        "t6", "tp",
    ];
    let regs = Riscv64Regs { pc: 100, ra: 101, sp: 102, tp: 131, a0: 116, ..Default::default() };
    let named = regs.field_names();
    let values = regs.as_slice();
    assert_eq!(Riscv64Regs::LEN, 32);
    assert_eq!(named.len(), 32);
    assert_eq!(values.len(), 32);
    for i in 0..32 {
        assert_eq!(named[i].0, names[i]);
        assert_eq!(named[i].1, values[i]);
    }
    assert_eq!(values[0], 100);
    assert_eq!(values[1], 101);
    assert_eq!(values[2], 102);
    assert_eq!(values[16], 116);
    assert_eq!(values[31], 131);
    assert_eq!(values[3], 0);
}

#[test]
fn x86_registers_in_kernel_order() {
    let names = [
        "rip", "rsp", "rflags", "rax", "rbx", "rcx", "rdx", "rsi", "rdi", "rbp", "r8", "r9", "r10",
        "r11", "r12", "r13", "r14", "r15", "fs_base", "gs_base",
    ];
    let regs = X86_64Regs { rip: 1, rsp: 2, rflags: 3, gs_base: 20, ..Default::default() };
    let named = regs.field_names();
    let values = regs.as_slice();
    assert_eq!(X86_64Regs::LEN, 20);
    assert_eq!(named.len(), 20);
    assert_eq!(values.len(), 20);
    for i in 0..20 {
        assert_eq!(named[i].0, names[i]);
        assert_eq!(named[i].1, values[i]);
    }
    assert_eq!(&values[0..3], &[1, 2, 3]);
    assert_eq!(values[19], 20);
}

#[test]
fn arm_registers_in_kernel_order() {
    let names = [
        "pc", "sp", "spsr", "x0", "x1", "x2", "x3", "x4", "x5", "x6", "x7", "x8", "x16", "x17",
        "x18", "x29", "x30", "x9", "x10", "x11", "x12", "x13", "x14", "x15", "x19", "x20", "x21",
        "x22", "x23", "x24", "x25", "x26", "x27", "x28", "tpidr_el0", "tpidrro_el0",
    ];
    let regs = Aarch64Regs {
        pc: 1,
        sp: 2,
        x16: 13,
        x9: 18,
        tpidr_el0: 35,
        tpidrro_el0: 36,
        ..Default::default()
    };
    let named = regs.field_names();
    let values = regs.as_slice();
    assert_eq!(Aarch64Regs::LEN, 36);
    assert_eq!(named.len(), 36);
    assert_eq!(values.len(), 36);
    for i in 0..36 {
        assert_eq!(named[i].0, names[i]);
        assert_eq!(named[i].1, values[i]);
    }
    assert_eq!(values[0], 1);
    assert_eq!(values[1], 2);
    assert_eq!(values[12], 13);
    assert_eq!(values[17], 18);
    assert_eq!(values[34], 35);
    assert_eq!(values[35], 36);
}

#[test]
fn sv39_has_three_levels() {
    assert_eq!(RiscvVirtualMemory::Sv39.levels(), 3);
}
