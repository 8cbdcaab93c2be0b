//! The catalogue of kernel object types: sizes, raw identifiers and names.

use vstd::prelude::*;
use vstd::string::*;
use crate::config::{Arch, Config};
use crate::text::{push_decimal, push_hex, spec_decimal, spec_fill, spec_hex, spec_pad_right};

verus! {

/// A range of untyped memory that can be retyped into kernel objects.
#[derive(Copy, Clone, Debug)]
pub struct UntypedObject {
    pub cap: u64,
    pub base: u64,
    pub end: u64,
    pub is_device: bool,
}

/// What the kernel hands to the initial task at boot.
#[derive(Clone)]
pub struct BootInfo {
    pub fixed_cap_count: u64,
    pub sched_control_cap: u64,
    pub paging_cap_count: u64,
    pub page_cap_count: u64,
    pub untyped_objects: Vec<UntypedObject>,
    pub first_available_cap: u64,
}

/// An allocated kernel object.
///
/// A kernel object can have several caps, and a cap several addresses. The
/// cap referred to here is the one made when the object was allocated, and
/// `cap_addr` addresses it from within the initial task.
#[derive(Copy, Clone)]
pub struct Object {
    /// Type of kernel object
    pub object_type: ObjectType,
    pub cap_addr: u64,
    /// Physical memory address of the kernel object
    pub phys_addr: u64,
}

#[derive(Debug, Hash, Eq, PartialEq, Copy, Clone, Structural)]
pub enum ObjectType {
    Untyped,
    Tcb,
    Endpoint,
    Notification,
    CNode,
    SchedContext,
    Reply,
    HugePage,
    VSpace,
    SmallPage,
    LargePage,
    PageTable,
    Vcpu,
    PageDirectory,
    PdPt,
    Pml4,
    IOPageTable,
    EptPml4,
    EptPdPt,
    EptPageDirectory,
    EptPageTable,
}

/// The save-area size in bytes from which an x86 thread control block
/// needs the larger size class.
pub const X86_LARGE_XSAVE_BYTES: u64 = 832;

impl ObjectType {
    /// Whether the kernel has this object type on the architecture: there
    /// is no virtual CPU object on RISC-V.
    pub open spec fn exists_on(self, arch: Arch) -> bool {
        self == ObjectType::Vcpu ==> arch != Arch::Riscv64
    }

    /// Whether the size of this object type is defined under `config`.
    pub open spec fn sized_under(self, config: &Config) -> bool {
        &&& self.exists_on(config.arch)
        &&& self == ObjectType::VSpace ==> config.arm_pa_size_known()
    }

    /// Whether `exists_on` holds.
    pub fn is_on(self, arch: Arch) -> (r: bool)
        ensures
            r == self.exists_on(arch),
    {
        match self {
            ObjectType::Vcpu => match arch {
                Arch::Riscv64 => false,
                _ => true,
            },
            _ => true,
        }
    }

    /// Whether `sized_under` holds.
    pub fn is_sized_under(self, config: &Config) -> (r: bool)
        ensures
            r == self.sized_under(config),
    {
        match self {
            ObjectType::VSpace => config.has_known_arm_pa_size(),
            _ => self.is_on(config.arch),
        }
    }

    /// Size class of a thread control block.
    pub open spec fn tcb_size_bits(config: &Config) -> u64 {
        match config.arch {
            Arch::Aarch64 => 11,
            Arch::Riscv64 => if config.fpu { 11 } else { 10 },
            Arch::X86_64 => if config.x86_xsave_size is Some
                && config.x86_xsave_size.unwrap() >= X86_LARGE_XSAVE_BYTES { 12 } else { 11 },
        }
    }

    /// Size class of a top-level translation table.
    pub open spec fn vspace_size_bits(config: &Config) -> u64 {
        if config.arch == Arch::Aarch64 && config.hypervisor
            && config.arm_pa_size_bits == Some(40usize) { 13 } else { 12 }
    }

    /// Size class of a virtual CPU object.
    pub open spec fn vcpu_size_bits(config: &Config) -> u64 {
        if config.arch == Arch::X86_64 { 14 } else { 12 }
    }

    /// The size of the object as a power of two, for the types whose size
    /// the kernel fixes. Untyped memory, capability nodes and scheduling
    /// contexts have the size that the caller asks for.
    pub open spec fn spec_fixed_size_bits(self, config: &Config) -> Option<u64> {
        match self {
            ObjectType::Untyped | ObjectType::CNode | ObjectType::SchedContext => None,
            ObjectType::Tcb => Some(Self::tcb_size_bits(config)),
            ObjectType::Endpoint => Some(4),
            ObjectType::Reply => Some(5),
            ObjectType::Notification => Some(6),
            ObjectType::VSpace => Some(Self::vspace_size_bits(config)),
            ObjectType::Vcpu => Some(Self::vcpu_size_bits(config)),
            ObjectType::LargePage => Some(21),
            ObjectType::HugePage => Some(30),
            _ => Some(12),
        }
    }

    /// Gets the number of bits to represent the size of an object. The size
    /// depends on the architecture as well as on the kernel configuration.
    pub fn fixed_size_bits(self, config: &Config) -> (r: Option<u64>)
        requires
            self.sized_under(config),
        ensures
            r == self.spec_fixed_size_bits(config),
            r is Some ==> 4 <= r.unwrap() <= 30,
            r is None <==> (self == ObjectType::Untyped || self == ObjectType::CNode || self
                == ObjectType::SchedContext),
    {
        match self {
            ObjectType::Tcb => match config.arch {
                Arch::Aarch64 => Some(11),
                Arch::Riscv64 => match config.fpu {
                    true => Some(11),
                    false => Some(10),
                },
                Arch::X86_64 => match config.x86_xsave_size {
                    Some(size) => if size >= X86_LARGE_XSAVE_BYTES {
                        Some(12)
                    } else {
                        Some(11)
                    },
                    None => Some(11),
                },
            },
            ObjectType::Endpoint => Some(4),
            ObjectType::Notification => Some(6),
            ObjectType::Reply => Some(5),
            ObjectType::VSpace => match config.arch {
                Arch::Aarch64 => match config.hypervisor {
                    true => match config.arm_pa_size_bits {
                        Some(40) => Some(13),
                        _ => Some(12),
                    },
                    false => Some(12),
                },
                Arch::Riscv64 => Some(12),
                Arch::X86_64 => Some(12),
            },
            ObjectType::PageTable => Some(12),
            ObjectType::HugePage => Some(30),
            ObjectType::LargePage => Some(21),
            ObjectType::SmallPage => Some(12),
            ObjectType::Vcpu => match config.arch {
                Arch::X86_64 => Some(14),
                _ => Some(12),
            },
            ObjectType::PageDirectory => Some(12),
            ObjectType::PdPt => Some(12),
            ObjectType::Pml4 => Some(12),
            ObjectType::IOPageTable => Some(12),
            ObjectType::EptPml4 => Some(12),
            ObjectType::EptPdPt => Some(12),
            ObjectType::EptPageDirectory => Some(12),
            ObjectType::EptPageTable => Some(12),
            _ => None,
        }
    }

    /// The size in bytes of a fixed-size object: one shifted left by its
    /// size class.
    pub open spec fn spec_fixed_size(self, config: &Config) -> Option<u64> {
        match self.spec_fixed_size_bits(config) {
            Some(bits) => Some(1u64 << bits),
            None => None,
        }
    }

    pub fn fixed_size(self, config: &Config) -> (r: Option<u64>)
        requires
            self.sized_under(config),
        ensures
            r == self.spec_fixed_size(config),
            r is Some <==> self.spec_fixed_size_bits(config) is Some,
            r is Some ==> r.unwrap() == 1u64 << self.spec_fixed_size_bits(config).unwrap(),
    {
        match self.fixed_size_bits(config) {
            Some(bits) => Some(1u64 << bits),
            None => None,
        }
    }

    /// The name that the kernel sources give to the object type.
    pub open spec fn spec_to_str(self) -> Seq<char> {
        match self {
            ObjectType::Untyped => "SEL4_UNTYPED_OBJECT"@,
            ObjectType::Tcb => "SEL4_TCB_OBJECT"@,
            ObjectType::Endpoint => "SEL4_ENDPOINT_OBJECT"@,
            ObjectType::Notification => "SEL4_NOTIFICATION_OBJECT"@,
            ObjectType::CNode => "SEL4_CNODE_OBJECT"@,
            ObjectType::SchedContext => "SEL4_SCHEDCONTEXT_OBJECT"@,
            ObjectType::Reply => "SEL4_REPLY_OBJECT"@,
            ObjectType::HugePage => "SEL4_HUGE_PAGE_OBJECT"@,
            ObjectType::VSpace => "SEL4_VSPACE_OBJECT"@,
            ObjectType::SmallPage => "SEL4_SMALL_PAGE_OBJECT"@,
            ObjectType::LargePage => "SEL4_LARGE_PAGE_OBJECT"@,
            ObjectType::PageTable => "SEL4_PAGE_TABLE_OBJECT"@,
            ObjectType::Vcpu => "SEL4_VCPU_OBJECT"@,
            ObjectType::PageDirectory => "SEL4_PAGE_DIRECTORY_OBJECT"@,
            ObjectType::PdPt => "SEL4_PDPT_OBJECT"@,
            ObjectType::Pml4 => "SEL4_PML4_OBJECT"@,
            ObjectType::IOPageTable => "SEL4_IO_PAGE_TABLE_OBJECT"@,
            ObjectType::EptPml4 => "SEL4_EPT_PML4_OBJECT"@,
            ObjectType::EptPdPt => "SEL4_EPT_PDPT_OBJECT"@,
            ObjectType::EptPageDirectory => "SEL4_EPT_PAGE_DIRECTORY_OBJECT"@,
            ObjectType::EptPageTable => "SEL4_EPT_PAGE_TABLE_OBJECT"@,
        }
    }

    pub fn to_str(self) -> (r: &'static str)
        ensures
            r@ == self.spec_to_str(),
    {
        match self {
            ObjectType::Untyped => "SEL4_UNTYPED_OBJECT",
            ObjectType::Tcb => "SEL4_TCB_OBJECT",
            ObjectType::Endpoint => "SEL4_ENDPOINT_OBJECT",
            ObjectType::Notification => "SEL4_NOTIFICATION_OBJECT",
            ObjectType::CNode => "SEL4_CNODE_OBJECT",
            ObjectType::SchedContext => "SEL4_SCHEDCONTEXT_OBJECT",
            ObjectType::Reply => "SEL4_REPLY_OBJECT",
            ObjectType::HugePage => "SEL4_HUGE_PAGE_OBJECT",
            ObjectType::VSpace => "SEL4_VSPACE_OBJECT",
            ObjectType::SmallPage => "SEL4_SMALL_PAGE_OBJECT",
            ObjectType::LargePage => "SEL4_LARGE_PAGE_OBJECT",
            ObjectType::PageTable => "SEL4_PAGE_TABLE_OBJECT",
            ObjectType::Vcpu => "SEL4_VCPU_OBJECT",
            ObjectType::PageDirectory => "SEL4_PAGE_DIRECTORY_OBJECT",
            ObjectType::PdPt => "SEL4_PDPT_OBJECT",
            ObjectType::Pml4 => "SEL4_PML4_OBJECT",
            ObjectType::IOPageTable => "SEL4_IO_PAGE_TABLE_OBJECT",
            ObjectType::EptPml4 => "SEL4_EPT_PML4_OBJECT",
            ObjectType::EptPdPt => "SEL4_EPT_PDPT_OBJECT",
            ObjectType::EptPageDirectory => "SEL4_EPT_PAGE_DIRECTORY_OBJECT",
            ObjectType::EptPageTable => "SEL4_EPT_PAGE_TABLE_OBJECT",
        }
    }

    /// The kernel's identifier of the object type, one row per type and
    /// one column per architecture. The types that every architecture has
    /// come first and share their numbers; the others are numbered in the
    /// order of each architecture's own object list. RISC-V has no virtual
    /// CPU object: the entry in its column is no number of the kernel, and
    /// `exists_on` keeps it from being asked for.
    pub open spec fn spec_value(self, arch: Arch) -> u64 {
        let (arm, riscv, x86): (u64, u64, u64) = match self {
            ObjectType::Untyped => (0, 0, 0),
            ObjectType::Tcb => (1, 1, 1),
            ObjectType::Endpoint => (2, 2, 2),
            ObjectType::Notification => (3, 3, 3),
            ObjectType::CNode => (4, 4, 4),
            ObjectType::SchedContext => (5, 5, 5),
            ObjectType::Reply => (6, 6, 6),
            ObjectType::HugePage => (7, 7, 9),
            ObjectType::VSpace => (8, 10, 8),
            ObjectType::SmallPage => (9, 8, 10),
            ObjectType::LargePage => (10, 9, 11),
            ObjectType::PageTable => (11, 10, 12),
            ObjectType::Vcpu => (12, 12, 15),
            ObjectType::PdPt => (7, 7, 7),
            ObjectType::Pml4 => (8, 8, 8),
            ObjectType::PageDirectory => (13, 13, 13),
            ObjectType::IOPageTable => (14, 14, 14),
            ObjectType::EptPml4 => (16, 16, 16),
            ObjectType::EptPdPt => (17, 17, 17),
            ObjectType::EptPageDirectory => (18, 18, 18),
            ObjectType::EptPageTable => (19, 19, 19),
        };
        match arch {
            Arch::Aarch64 => arm,
            Arch::Riscv64 => riscv,
            Arch::X86_64 => x86,
        }
    }

    /// The kernel associates each kind of object with an identifier, which
    /// depends on the kernel configuration. It is the first argument of
    /// every retype invocation.
    pub fn value(self, config: &Config) -> (r: u64)
        requires
            self.exists_on(config.arch),
        ensures
            r == self.spec_value(config.arch),
            r <= 19,
    {
        match self {
            ObjectType::Untyped => 0,
            ObjectType::Tcb => 1,
            ObjectType::Endpoint => 2,
            ObjectType::Notification => 3,
            ObjectType::CNode => 4,
            ObjectType::SchedContext => 5,
            ObjectType::Reply => 6,
            ObjectType::HugePage => match config.arch {
                Arch::Aarch64 => 7,
                Arch::Riscv64 => 7,
                Arch::X86_64 => 9,
            },
            ObjectType::VSpace => match config.arch {
                Arch::Aarch64 => 8,
                Arch::Riscv64 => 10,
                Arch::X86_64 => 8,
            },
            ObjectType::SmallPage => match config.arch {
                Arch::Aarch64 => 9,
                Arch::Riscv64 => 8,
                Arch::X86_64 => 10,
            },
            ObjectType::LargePage => match config.arch {
                Arch::Aarch64 => 10,
                Arch::Riscv64 => 9,
                Arch::X86_64 => 11,
            },
            ObjectType::PageTable => match config.arch {
                Arch::Aarch64 => 11,
                Arch::Riscv64 => 10,
                Arch::X86_64 => 12,
            },
            ObjectType::Vcpu => match config.arch {
                Arch::X86_64 => 15,
                _ => 12,
            },
            ObjectType::PdPt => 7,
            ObjectType::Pml4 => 8,
            ObjectType::PageDirectory => 13,
            ObjectType::IOPageTable => 14,
            ObjectType::EptPml4 => 16,
            ObjectType::EptPdPt => 17,
            ObjectType::EptPageDirectory => 18,
            ObjectType::EptPageTable => 19,
        }
    }
    /// The size of the object in the build log: the number of bytes in
    /// hexadecimal, or a note that the size is not fixed.
    pub open spec fn spec_size_text(self, config: &Config) -> Seq<char> {
        match self.spec_fixed_size(config) {
            Some(size) => "0x"@ + spec_hex(size as nat),
            None => "variable size"@,
        }
    }

    /// The line of the build log that names the object type: its
    /// identifier, and in brackets its name and its size.
    pub open spec fn spec_format(self, config: &Config) -> Seq<char> {
        "         object_type          "@ + spec_decimal(self.spec_value(config.arch) as nat)
            + " ("@ + self.spec_to_str() + " - "@ + self.spec_size_text(config) + ")"@
    }

    /// The start of the line is laid out as every field line of the build
    /// log: nine spaces, the name of the field padded to twenty
    /// characters, and a space.
    pub proof fn lemma_format_layout()
        ensures
            "         object_type          "@ == spec_fill(' ', 9) + spec_pad_right(
                "object_type"@,
                20,
            ) + seq![' '],
    {
        reveal_strlit("         object_type          ");
        reveal_strlit("object_type");
        assert("         object_type          "@ =~= spec_fill(' ', 9) + spec_pad_right(
            "object_type"@,
            20,
        ) + seq![' ']);
    }

    pub fn format(&self, config: &Config) -> (r: String)
        requires
            self.sized_under(config),
        ensures
            r@ == self.spec_format(config),
    {
        let mut out = String::from_str("         object_type          ");
        push_decimal(&mut out, self.value(config));
        out.append(" (");
        out.append(self.to_str());
        out.append(" - ");
        match self.fixed_size(config) {
            Some(fixed_size) => {
                out.append("0x");
                push_hex(&mut out, fixed_size);
            },
            None => {
                out.append("variable size");
            },
        }
        out.append(")");
        assert(out@ =~= self.spec_format(config));
        out
    }
}

} // verus!
