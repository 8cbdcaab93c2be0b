//! Small enumerations whose numbers are fixed by the kernel interface.

use vstd::prelude::*;
use crate::config::{Arch, Config, LARGE_PAGE_BYTES, SMALL_PAGE_BYTES};

verus! {

#[derive(Debug, PartialEq, Eq, Hash, Copy, Clone, Structural)]
pub enum PageSize {
    Small,
    Large,
}

impl PageSize {
    /// The size of the page in bytes.
    pub open spec fn spec_bytes(self) -> u64 {
        match self {
            PageSize::Small => SMALL_PAGE_BYTES,
            PageSize::Large => LARGE_PAGE_BYTES,
        }
    }

    #[verifier::when_used_as_spec(spec_bytes)]
    pub fn bytes(self) -> (r: u64)
        ensures
            r == self.spec_bytes(),
    {
        match self {
            PageSize::Small => SMALL_PAGE_BYTES,
            PageSize::Large => LARGE_PAGE_BYTES,
        }
    }

    /// The page size of `item` bytes, which must be one of the two
    /// supported sizes.
    pub fn from(item: u64) -> (r: PageSize)
        requires
            item == SMALL_PAGE_BYTES || item == LARGE_PAGE_BYTES,
        ensures
            r.spec_bytes() == item,
    {
        if item == SMALL_PAGE_BYTES {
            PageSize::Small
        } else {
            PageSize::Large
        }
    }
}

/// Virtual memory attributes for ARM, as the kernel expects them in a
/// mapping invocation.
#[derive(Debug, Copy, Clone)]
pub enum ArmVmAttributes {
    Cacheable,
    ParityEnabled,
    ExecuteNever,
}

/// Virtual memory attributes for RISC-V.
#[derive(Debug, Copy, Clone)]
pub enum RiscvVmAttributes {
    ExecuteNever,
}

/// Virtual memory attributes for x86.
#[derive(Debug, Copy, Clone)]
pub enum X86VmAttributes {
    /// The page-attribute-table bit.
    PageAttributeTable,
    /// The cache-disable bit.
    CacheDisable,
    /// The write-through bit.
    WriteThrough,
}

impl ArmVmAttributes {
    /// The bit of the attribute.
    pub open spec fn spec_value(self) -> u64 {
        match self {
            ArmVmAttributes::Cacheable => 1,
            ArmVmAttributes::ParityEnabled => 2,
            ArmVmAttributes::ExecuteNever => 4,
        }
    }

    #[verifier::when_used_as_spec(spec_value)]
    pub fn value(self) -> (r: u64)
        ensures
            r == self.spec_value(),
    {
        match self {
            ArmVmAttributes::Cacheable => 1,
            ArmVmAttributes::ParityEnabled => 2,
            ArmVmAttributes::ExecuteNever => 4,
        }
    }

    /// The attributes of an ordinary mapping: cacheable, with parity.
    pub open spec fn spec_default() -> u64 {
        ArmVmAttributes::Cacheable.spec_value() | ArmVmAttributes::ParityEnabled.spec_value()
    }

    pub fn default() -> (r: u64)
        ensures
            r == Self::spec_default(),
            r == 3,
    {
        assert(1u64 | 2u64 == 3u64) by (bit_vector);
        ArmVmAttributes::Cacheable.value() | ArmVmAttributes::ParityEnabled.value()
    }
}

impl RiscvVmAttributes {
    /// The bit of the attribute.
    pub open spec fn spec_value(self) -> u64 {
        1
    }

    #[verifier::when_used_as_spec(spec_value)]
    pub fn value(self) -> (r: u64)
        ensures
            r == self.spec_value(),
    {
        match self {
            RiscvVmAttributes::ExecuteNever => 1,
        }
    }

    /// An ordinary mapping sets no attribute.
    pub fn default() -> (r: u64)
        ensures
            r == 0,
    {
        0
    }
}

impl X86VmAttributes {
    /// The bit of the attribute.
    pub open spec fn spec_value(self) -> u64 {
        match self {
            X86VmAttributes::PageAttributeTable => 1,
            X86VmAttributes::CacheDisable => 2,
            X86VmAttributes::WriteThrough => 4,
        }
    }

    #[verifier::when_used_as_spec(spec_value)]
    pub fn value(self) -> (r: u64)
        ensures
            r == self.spec_value(),
    {
        match self {
            X86VmAttributes::PageAttributeTable => 1,
            X86VmAttributes::CacheDisable => 2,
            X86VmAttributes::WriteThrough => 4,
        }
    }

    /// An ordinary mapping sets no attribute.
    pub fn default() -> (r: u64)
        ensures
            r == 0,
    {
        0
    }
}

/// The attributes of an ordinary mapping on the architecture of `config`.
pub open spec fn spec_default_vm_attr(arch: Arch) -> u64 {
    match arch {
        Arch::Aarch64 => ArmVmAttributes::spec_default(),
        Arch::Riscv64 => 0,
        Arch::X86_64 => 0,
    }
}

pub fn default_vm_attr(config: &Config) -> (r: u64)
    ensures
        r == spec_default_vm_attr(config.arch),
        r == (if config.arch == Arch::Aarch64 { 3u64 } else { 0u64 }),
{
    match config.arch {
        Arch::Aarch64 => ArmVmAttributes::default(),
        Arch::Riscv64 => RiscvVmAttributes::default(),
        Arch::X86_64 => X86VmAttributes::default(),
    }
}

/// Access rights of a capability, as a mask.
#[derive(Debug, Copy, Clone)]
pub enum Rights {
    Empty,
    Write,
    Read,
    Grant,
    GrantReply,
    All,
}

impl Rights {
    /// The mask of the rights: one bit each for write, read, grant and
    /// grant-reply.
    pub open spec fn spec_value(self) -> u32 {
        match self {
            Rights::Empty => 0x0,
            Rights::Write => 0x1,
            Rights::Read => 0x2,
            Rights::Grant => 0x4,
            Rights::GrantReply => 0x8,
            Rights::All => 0xf,
        }
    }

    #[verifier::when_used_as_spec(spec_value)]
    pub fn value(self) -> (r: u32)
        ensures
            r == self.spec_value(),
    {
        match self {
            Rights::Empty => 0x0,
            Rights::Write => 0x1,
            Rights::Read => 0x2,
            Rights::Grant => 0x4,
            Rights::GrantReply => 0x8,
            Rights::All => 0xf,
        }
    }
}

/// How an interrupt is triggered. The numbers are the same on every
/// architecture.
#[derive(Debug, Copy, Clone, Eq, PartialEq, Hash, Structural)]
pub enum IrqTrigger {
    Level,
    Edge,
}

impl IrqTrigger {
    pub open spec fn spec_value(self) -> u64 {
        match self {
            IrqTrigger::Level => 0,
            IrqTrigger::Edge => 1,
        }
    }

    #[verifier::when_used_as_spec(spec_value)]
    pub fn value(self) -> (r: u64)
        ensures
            r == self.spec_value(),
    {
        match self {
            IrqTrigger::Level => 0,
            IrqTrigger::Edge => 1,
        }
    }
}

} // verus!
