//! The user-level register files of the three architectures, in the order
//! in which the kernel reads them from a register-write message.

use vstd::prelude::*;

verus! {

/// A register as it is written to a thread: its name and its value.
pub type NamedReg = (&'static str, u64);

/// The values of a list of named registers, in the same order.
pub open spec fn reg_values(regs: Seq<NamedReg>) -> Seq<u64> {
    regs.map_values(|reg: NamedReg| reg.1)
}

/// The RISC-V register file.
#[derive(Copy, Clone, Default)]
pub struct Riscv64Regs {
    pub pc: u64,
    pub ra: u64,
    pub sp: u64,
    pub gp: u64,
    pub s0: u64,
    pub s1: u64,
    pub s2: u64,
    pub s3: u64,
    pub s4: u64,
    pub s5: u64,
    pub s6: u64,
    pub s7: u64,
    pub s8: u64,
    pub s9: u64,
    pub s10: u64,
    pub s11: u64,
    pub a0: u64,
    pub a1: u64,
    pub a2: u64,
    pub a3: u64,
    pub a4: u64,
    pub a5: u64,
    pub a6: u64,
    pub a7: u64,
    pub t0: u64,
    pub t1: u64,
    pub t2: u64,
    pub t3: u64,
    pub t4: u64,
    pub t5: u64,
    pub t6: u64,
    pub tp: u64,
}

impl Riscv64Regs {
    /// Number of registers
    pub const LEN: usize = 32;

    /// The registers with their names, in the kernel's order.
    pub open spec fn spec_field_names(&self) -> Seq<NamedReg> {
        seq![
            ("pc", self.pc),
            ("ra", self.ra),
            ("sp", self.sp),
            ("gp", self.gp),
            ("s0", self.s0),
            ("s1", self.s1),
            ("s2", self.s2),
            ("s3", self.s3),
            ("s4", self.s4),
            ("s5", self.s5),
            ("s6", self.s6),
            ("s7", self.s7),
            ("s8", self.s8),
            ("s9", self.s9),
            ("s10", self.s10),
            ("s11", self.s11),
            ("a0", self.a0),
            ("a1", self.a1),
            ("a2", self.a2),
            ("a3", self.a3),
            ("a4", self.a4),
            ("a5", self.a5),
            ("a6", self.a6),
            ("a7", self.a7),
            ("t0", self.t0),
            ("t1", self.t1),
            ("t2", self.t2),
            ("t3", self.t3),
            ("t4", self.t4),
            ("t5", self.t5),
            ("t6", self.t6),
            ("tp", self.tp),
        ]
    }

    /// The register values, in the kernel's order.
    pub open spec fn spec_as_slice(&self) -> Seq<u64> {
        seq![
            self.pc, self.ra, self.sp, self.gp, self.s0, self.s1,
            self.s2, self.s3, self.s4, self.s5, self.s6, self.s7,
            self.s8, self.s9, self.s10, self.s11, self.a0, self.a1,
            self.a2, self.a3, self.a4, self.a5, self.a6, self.a7,
            self.t0, self.t1, self.t2, self.t3, self.t4, self.t5,
            self.t6, self.tp,
        ]
    }

    pub fn field_names(&self) -> (r: Vec<NamedReg>)
        ensures
            r@ == self.spec_field_names(),
            r@.len() == 32,
            reg_values(r@) == self.spec_as_slice(),
    {
        let r: Vec<NamedReg> = vec![
            ("pc", self.pc),
            ("ra", self.ra),
            ("sp", self.sp),
            ("gp", self.gp),
            ("s0", self.s0),
            ("s1", self.s1),
            ("s2", self.s2),
            ("s3", self.s3),
            ("s4", self.s4),
            ("s5", self.s5),
            ("s6", self.s6),
            ("s7", self.s7),
            ("s8", self.s8),
            ("s9", self.s9),
            ("s10", self.s10),
            ("s11", self.s11),
            ("a0", self.a0),
            ("a1", self.a1),
            ("a2", self.a2),
            ("a3", self.a3),
            ("a4", self.a4),
            ("a5", self.a5),
            ("a6", self.a6),
            ("a7", self.a7),
            ("t0", self.t0),
            ("t1", self.t1),
            ("t2", self.t2),
            ("t3", self.t3),
            ("t4", self.t4),
            ("t5", self.t5),
            ("t6", self.t6),
            ("tp", self.tp),
        ];
        assert(r@ =~= self.spec_field_names());
        assert(reg_values(r@) =~= self.spec_as_slice());
        r
    }

    pub fn as_slice(&self) -> (r: Vec<u64>)
        ensures
            r@ == self.spec_as_slice(),
            r@.len() == 32,
    {
        let r: Vec<u64> = vec![
            self.pc, self.ra, self.sp, self.gp, self.s0, self.s1,
            self.s2, self.s3, self.s4, self.s5, self.s6, self.s7,
            self.s8, self.s9, self.s10, self.s11, self.a0, self.a1,
            self.a2, self.a3, self.a4, self.a5, self.a6, self.a7,
            self.t0, self.t1, self.t2, self.t3, self.t4, self.t5,
            self.t6, self.tp,
        ];
        assert(r@ =~= self.spec_as_slice());
        r
    }
}

/// The x86-64 register file.
#[derive(Copy, Clone, Default)]
pub struct X86_64Regs {
    pub rip: u64,
    pub rsp: u64,
    pub rflags: u64,
    pub rax: u64,
    pub rbx: u64,
    pub rcx: u64,
    pub rdx: u64,
    pub rsi: u64,
    pub rdi: u64,
    pub rbp: u64,
    pub r8: u64,
    pub r9: u64,
    pub r10: u64,
    pub r11: u64,
    pub r12: u64,
    pub r13: u64,
    pub r14: u64,
    pub r15: u64,
    pub fs_base: u64,
    pub gs_base: u64,
}

impl X86_64Regs {
    /// Number of registers
    pub const LEN: usize = 20;

    /// The registers with their names, in the kernel's order.
    pub open spec fn spec_field_names(&self) -> Seq<NamedReg> {
        seq![
            ("rip", self.rip),
            ("rsp", self.rsp),
            ("rflags", self.rflags),
            ("rax", self.rax),
            ("rbx", self.rbx),
            ("rcx", self.rcx),
            ("rdx", self.rdx),
            ("rsi", self.rsi),
            ("rdi", self.rdi),
            ("rbp", self.rbp),
            ("r8", self.r8),
            ("r9", self.r9),
            ("r10", self.r10),
            ("r11", self.r11),
            ("r12", self.r12),
            ("r13", self.r13),
            ("r14", self.r14),
            ("r15", self.r15),
            ("fs_base", self.fs_base),
            ("gs_base", self.gs_base),
        ]
    }

    /// The register values, in the kernel's order.
    pub open spec fn spec_as_slice(&self) -> Seq<u64> {
        seq![
            self.rip, self.rsp, self.rflags, self.rax, self.rbx, self.rcx,
            self.rdx, self.rsi, self.rdi, self.rbp, self.r8, self.r9,
            self.r10, self.r11, self.r12, self.r13, self.r14, self.r15,
            self.fs_base, self.gs_base,
        ]
    }

    pub fn field_names(&self) -> (r: Vec<NamedReg>)
        ensures
            r@ == self.spec_field_names(),
            r@.len() == 20,
            reg_values(r@) == self.spec_as_slice(),
    {
        let r: Vec<NamedReg> = vec![
            ("rip", self.rip),
            ("rsp", self.rsp),
            ("rflags", self.rflags),
            ("rax", self.rax),
            ("rbx", self.rbx),
            ("rcx", self.rcx),
            ("rdx", self.rdx),
            ("rsi", self.rsi),
            ("rdi", self.rdi),
            ("rbp", self.rbp),
            ("r8", self.r8),
            ("r9", self.r9),
            ("r10", self.r10),
            ("r11", self.r11),
            ("r12", self.r12),
            ("r13", self.r13),
            ("r14", self.r14),
            ("r15", self.r15),
            ("fs_base", self.fs_base),
            ("gs_base", self.gs_base),
        ];
        assert(r@ =~= self.spec_field_names());
        assert(reg_values(r@) =~= self.spec_as_slice());
        r
    }

    pub fn as_slice(&self) -> (r: Vec<u64>)
        ensures
            r@ == self.spec_as_slice(),
            r@.len() == 20,
    {
        let r: Vec<u64> = vec![
            self.rip, self.rsp, self.rflags, self.rax, self.rbx, self.rcx,
            self.rdx, self.rsi, self.rdi, self.rbp, self.r8, self.r9,
            self.r10, self.r11, self.r12, self.r13, self.r14, self.r15,
            self.fs_base, self.gs_base,
        ];
        assert(r@ =~= self.spec_as_slice());
        r
    }
}

/// The 64-bit ARM register file, which ends with the two thread-local-storage registers.
#[derive(Copy, Clone, Default)]
pub struct Aarch64Regs {
    pub pc: u64,
    pub sp: u64,
    pub spsr: u64,
    pub x0: u64,
    pub x1: u64,
    pub x2: u64,
    pub x3: u64,
    pub x4: u64,
    pub x5: u64,
    pub x6: u64,
    pub x7: u64,
    pub x8: u64,
    pub x16: u64,
    pub x17: u64,
    pub x18: u64,
    pub x29: u64,
    pub x30: u64,
    pub x9: u64,
    pub x10: u64,
    pub x11: u64,
    pub x12: u64,
    pub x13: u64,
    pub x14: u64,
    pub x15: u64,
    pub x19: u64,
    pub x20: u64,
    pub x21: u64,
    pub x22: u64,
    pub x23: u64,
    pub x24: u64,
    pub x25: u64,
    pub x26: u64,
    pub x27: u64,
    pub x28: u64,
    pub tpidr_el0: u64,
    pub tpidrro_el0: u64,
}

impl Aarch64Regs {
    /// Number of registers
    pub const LEN: usize = 36;

    /// The registers with their names, in the kernel's order.
    pub open spec fn spec_field_names(&self) -> Seq<NamedReg> {
        seq![
            ("pc", self.pc),
            ("sp", self.sp),
            ("spsr", self.spsr),
            ("x0", self.x0),
            ("x1", self.x1),
            ("x2", self.x2),
            ("x3", self.x3),
            ("x4", self.x4),
            ("x5", self.x5),
            ("x6", self.x6),
            ("x7", self.x7),
            ("x8", self.x8),
            ("x16", self.x16),
            ("x17", self.x17),
            ("x18", self.x18),
            ("x29", self.x29),
            ("x30", self.x30),
            ("x9", self.x9),
            ("x10", self.x10),
            ("x11", self.x11),
            ("x12", self.x12),
            ("x13", self.x13),
            ("x14", self.x14),
            ("x15", self.x15),
            ("x19", self.x19),
            ("x20", self.x20),
            ("x21", self.x21),
            ("x22", self.x22),
            ("x23", self.x23),
            ("x24", self.x24),
            ("x25", self.x25),
            ("x26", self.x26),
            ("x27", self.x27),
            ("x28", self.x28),
            ("tpidr_el0", self.tpidr_el0),
            ("tpidrro_el0", self.tpidrro_el0),
        ]
    }

    /// The register values, in the kernel's order.
    pub open spec fn spec_as_slice(&self) -> Seq<u64> {
        seq![
            self.pc, self.sp, self.spsr, self.x0, self.x1, self.x2,
            self.x3, self.x4, self.x5, self.x6, self.x7, self.x8,
            self.x16, self.x17, self.x18, self.x29, self.x30, self.x9,
            self.x10, self.x11, self.x12, self.x13, self.x14, self.x15,
            self.x19, self.x20, self.x21, self.x22, self.x23, self.x24,
            self.x25, self.x26, self.x27, self.x28, self.tpidr_el0, self.tpidrro_el0,
        ]
    }

    pub fn field_names(&self) -> (r: Vec<NamedReg>)
        ensures
            r@ == self.spec_field_names(),
            r@.len() == 36,
            reg_values(r@) == self.spec_as_slice(),
    {
        let r: Vec<NamedReg> = vec![
            ("pc", self.pc),
            ("sp", self.sp),
            ("spsr", self.spsr),
            ("x0", self.x0),
            ("x1", self.x1),
            ("x2", self.x2),
            ("x3", self.x3),
            ("x4", self.x4),
            ("x5", self.x5),
            ("x6", self.x6),
            ("x7", self.x7),
            ("x8", self.x8),
            ("x16", self.x16),
            ("x17", self.x17),
            ("x18", self.x18),
            ("x29", self.x29),
            ("x30", self.x30),
            ("x9", self.x9),
            ("x10", self.x10),
            ("x11", self.x11),
            ("x12", self.x12),
            ("x13", self.x13),
            ("x14", self.x14),
            ("x15", self.x15),
            ("x19", self.x19),
            ("x20", self.x20),
            ("x21", self.x21),
            ("x22", self.x22),
            ("x23", self.x23),
            ("x24", self.x24),
            ("x25", self.x25),
            ("x26", self.x26),
            ("x27", self.x27),
            ("x28", self.x28),
            ("tpidr_el0", self.tpidr_el0),
            ("tpidrro_el0", self.tpidrro_el0),
        ];
        assert(r@ =~= self.spec_field_names());
        assert(reg_values(r@) =~= self.spec_as_slice());
        r
    }

    pub fn as_slice(&self) -> (r: Vec<u64>)
        ensures
            r@ == self.spec_as_slice(),
            r@.len() == 36,
    {
        let r: Vec<u64> = vec![
            self.pc, self.sp, self.spsr, self.x0, self.x1, self.x2,
            self.x3, self.x4, self.x5, self.x6, self.x7, self.x8,
            self.x16, self.x17, self.x18, self.x29, self.x30, self.x9,
            self.x10, self.x11, self.x12, self.x13, self.x14, self.x15,
            self.x19, self.x20, self.x21, self.x22, self.x23, self.x24,
            self.x25, self.x26, self.x27, self.x28, self.tpidr_el0, self.tpidrro_el0,
        ];
        assert(r@ =~= self.spec_as_slice());
        r
    }
}

} // verus!
