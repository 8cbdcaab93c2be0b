//! Per-build architecture configuration and the address-space constants
//! derived from it.

use vstd::prelude::*;
use vstd::arithmetic::power2::{pow2, lemma2_to64, lemma2_to64_rest};
use crate::error::EncodeError;

verus! {

/// Target architecture of the kernel build.
#[derive(Clone, Copy, Debug, PartialEq, Eq, Structural)]
pub enum Arch {
    Aarch64,
    Riscv64,
    X86_64,
}

/// RISC-V supports several virtual memory systems; only Sv39 is modelled.
#[derive(Debug, Copy, Clone)]
pub enum RiscvVirtualMemory {
    Sv39,
}

impl RiscvVirtualMemory {
    pub open spec fn spec_levels(self) -> usize {
        3
    }

    /// Number of page-table levels of the virtual memory system.
    #[verifier::when_used_as_spec(spec_levels)]
    pub fn levels(self) -> (r: usize)
        ensures
            r == self.spec_levels(),
    {
        match self {
            RiscvVirtualMemory::Sv39 => 3,
        }
    }
}

/// The parameters of one kernel build. They do not change during a build.
pub struct Config {
    pub arch: Arch,
    pub word_size: u64,
    pub minimum_page_size: u64,
    pub paddr_user_device_top: u64,
    pub kernel_frame_size: u64,
    pub init_cnode_bits: u64,
    pub cap_address_bits: u64,
    pub fan_out_limit: u64,
    pub hypervisor: bool,
    pub benchmark: bool,
    pub fpu: bool,
    /// ARM only: number of physical address bits.
    pub arm_pa_size_bits: Option<usize>,
    /// ARM only: whether SMC forwarding is allowed.
    pub arm_smc: Option<bool>,
    /// RISC-V only: the virtual memory system in use.
    pub riscv_pt_levels: Option<RiscvVirtualMemory>,
    /// Raw invocation numbers of the kernel build, keyed by label name.
    pub invocations_labels: serde_json::Value,
    /// x86 only: size in bytes of the extended-state save area.
    pub x86_xsave_size: Option<u64>,
}

/// Size in bytes of a small page.
pub const SMALL_PAGE_BYTES: u64 = 0x1000;

/// Size in bytes of a large page.
pub const LARGE_PAGE_BYTES: u64 = 0x200_000;

impl Config {
    /// An ARM build in hypervisor mode has 40 or 44 physical address bits.
    pub open spec fn arm_pa_size_known(&self) -> bool {
        self.arch == Arch::Aarch64 && self.hypervisor ==> (self.arm_pa_size_bits == Some(40usize)
            || self.arm_pa_size_bits == Some(44usize))
    }

    /// A RISC-V build names its virtual memory system.
    pub open spec fn riscv_vm_known(&self) -> bool {
        self.arch == Arch::Riscv64 ==> self.riscv_pt_levels is Some
    }

    /// Whether `arm_pa_size_known` holds.
    pub fn has_known_arm_pa_size(&self) -> (r: bool)
        ensures
            r == self.arm_pa_size_known(),
    {
        match self.arch {
            Arch::Aarch64 => {
                if self.hypervisor {
                    match self.arm_pa_size_bits {
                        Some(bits) => bits == 40 || bits == 44,
                        None => false,
                    }
                } else {
                    true
                }
            },
            _ => true,
        }
    }

    /// Whether `riscv_vm_known` holds.
    pub fn has_known_riscv_vm(&self) -> (r: bool)
        ensures
            r == self.riscv_vm_known(),
    {
        match self.arch {
            Arch::Riscv64 => self.riscv_pt_levels.is_some(),
            _ => true,
        }
    }

    /// The configuration is one that the address-space queries are defined
    /// for.
    pub open spec fn supported(&self) -> bool {
        self.arm_pa_size_known() && self.riscv_vm_known()
    }

    /// Tells whether the configuration is `supported`.
    pub fn check(&self) -> (r: Result<(), EncodeError>)
        ensures
            r is Ok <==> self.supported(),
            r matches Err(e) ==> e == EncodeError::UnsupportedArchitectureCombination,
    {
        if self.has_known_arm_pa_size() && self.has_known_riscv_vm() {
            Ok(())
        } else {
            Err(EncodeError::UnsupportedArchitectureCombination)
        }
    }

    /// Top of the user-addressable virtual range: on ARM two to the number
    /// of physical address bits in hypervisor mode and 2^47 otherwise; on
    /// RISC-V and x86 one small page below 2^38 and 2^47.
    pub open spec fn spec_user_top(&self) -> int {
        match self.arch {
            Arch::Aarch64 => if self.hypervisor {
                pow2(self.arm_pa_size_bits.unwrap() as nat) as int
            } else {
                pow2(47) as int
            },
            Arch::Riscv64 => pow2(38) - SMALL_PAGE_BYTES,
            Arch::X86_64 => pow2(47) - SMALL_PAGE_BYTES,
        }
    }

    pub fn user_top(&self) -> (r: u64)
        requires
            self.arm_pa_size_known(),
        ensures
            r == self.spec_user_top(),
    {
        proof {
            lemma2_to64();
            lemma2_to64_rest();
        }
        match self.arch {
            Arch::Aarch64 => {
                if self.hypervisor {
                    match self.arm_pa_size_bits {
                        Some(40) => 0x100_0000_0000,
                        _ => 0x1000_0000_0000,
                    }
                } else {
                    0x8000_0000_0000
                }
            },
            Arch::Riscv64 => 0x0000_003f_ffff_f000,
            // The canonical top 0x7fff_ffff_ffff is rounded down to a page
            // boundary so that stack pages can be placed right below it.
            Arch::X86_64 => 0x7fff_ffff_f000,
        }
    }

    /// Start of the kernel's virtual range: 2^39 on ARM in hypervisor mode,
    /// and otherwise the top 2^39 bytes (2^38 under Sv39) of the 64-bit
    /// address space.
    pub open spec fn spec_kernel_virtual_base(&self) -> int {
        match self.arch {
            Arch::Aarch64 => if self.hypervisor {
                pow2(39) as int
            } else {
                pow2(64) - pow2(39)
            },
            Arch::Riscv64 => pow2(64) - pow2(38),
            Arch::X86_64 => pow2(64) - pow2(39),
        }
    }

    pub fn kernel_virtual_base(&self) -> (r: u64)
        requires
            self.riscv_vm_known(),
        ensures
            r == self.spec_kernel_virtual_base(),
    {
        proof {
            lemma2_to64();
            lemma2_to64_rest();
        }
        match self.arch {
            Arch::Aarch64 => {
                if self.hypervisor {
                    0x0000_0080_0000_0000
                } else {
                    0xffff_ff80_0000_0000
                }
            },
            Arch::Riscv64 => 0xffff_ffc0_0000_0000,
            Arch::X86_64 => 0xffff_ff80_0000_0000,
        }
    }

    /// The supported page sizes, smallest first.
    pub fn page_sizes(&self) -> (r: [u64; 2])
        ensures
            r@ == seq![SMALL_PAGE_BYTES, LARGE_PAGE_BYTES],
    {
        let r: [u64; 2] = [SMALL_PAGE_BYTES, LARGE_PAGE_BYTES];
        assert(r@ =~= seq![SMALL_PAGE_BYTES, LARGE_PAGE_BYTES]);
        r
    }

    /// The largest supported page size that divides `size`.
    pub open spec fn spec_optimal_page_size(size: u64) -> u64 {
        if size % LARGE_PAGE_BYTES == 0 {
            LARGE_PAGE_BYTES
        } else {
            SMALL_PAGE_BYTES
        }
    }

    /// Whether `size` is a whole number of small pages, which
    /// `optimal_page_size` requires.
    pub fn is_page_aligned(&self, size: u64) -> (r: bool)
        ensures
            r == (size % SMALL_PAGE_BYTES == 0),
    {
        size % SMALL_PAGE_BYTES == 0
    }

    /// The largest page size that the size of a memory region is aligned
    /// to, or nothing where the size is not a whole number of small pages:
    /// no page size is chosen for such a size.
    pub fn try_optimal_page_size(&self, size: u64) -> (r: Option<u64>)
        ensures
            r is Some <==> size % SMALL_PAGE_BYTES == 0,
            r matches Some(page) ==> page == Self::spec_optimal_page_size(size) && size % page == 0,
            size % LARGE_PAGE_BYTES == 0 ==> r == Some(LARGE_PAGE_BYTES),
            size % SMALL_PAGE_BYTES == 0 && size % LARGE_PAGE_BYTES != 0 ==> r == Some(
                SMALL_PAGE_BYTES,
            ),
    {
        if self.is_page_aligned(size) {
            Some(self.optimal_page_size(size))
        } else {
            None
        }
    }

    /// Given the size of a memory region, returns the largest page size
    /// that the size is aligned to.
    pub fn optimal_page_size(&self, size: u64) -> (r: u64)
        requires
            size % SMALL_PAGE_BYTES == 0,
        ensures
            r == Self::spec_optimal_page_size(size),
            size % r == 0,
            size % LARGE_PAGE_BYTES == 0 ==> r == LARGE_PAGE_BYTES,
            size % LARGE_PAGE_BYTES != 0 ==> r == SMALL_PAGE_BYTES,
    {
        let page_sizes = self.page_sizes();
        let mut i: usize = page_sizes.len();
        while i > 0
            invariant
                i <= 2,
                page_sizes@ == seq![SMALL_PAGE_BYTES, LARGE_PAGE_BYTES],
                size % SMALL_PAGE_BYTES == 0,
                forall|j: int| i <= j < 2 ==> size % page_sizes@[j] != 0,
            decreases i,
        {
            i = i - 1;
            if size % page_sizes[i] == 0 {
                return page_sizes[i];
            }
        }
        proof {
            assert(size % page_sizes@[0] != 0);
        }
        SMALL_PAGE_BYTES
    }

    /// The stack of a protection domain ends at the top of the user range.
    pub fn pd_stack_top(&self) -> (r: u64)
        requires
            self.arm_pa_size_known(),
        ensures
            r == self.spec_user_top(),
    {
        self.user_top()
    }

    pub fn pd_stack_bottom(&self, stack_size: u64) -> (r: u64)
        requires
            self.arm_pa_size_known(),
            stack_size <= self.spec_user_top(),
        ensures
            r == self.spec_user_top() - stack_size,
    {
        self.pd_stack_top() - stack_size
    }

    /// The stack of a protection domain occupies the highest part of its
    /// address space, so the highest address at which a mapping may be made
    /// is the lower end of the stack.
    pub fn pd_map_max_vaddr(&self, stack_size: u64) -> (r: u64)
        requires
            self.arm_pa_size_known(),
            stack_size <= self.spec_user_top(),
        ensures
            r == self.spec_user_top() - stack_size,
    {
        // The bound rests on the stack ending where the user range ends.
        assert(self.spec_user_top() - stack_size >= 0);
        self.pd_stack_bottom(stack_size)
    }

    /// A virtual machine has no stack, so its mappings may reach the top of
    /// the user range.
    pub fn vm_map_max_vaddr(&self) -> (r: u64)
        requires
            self.arm_pa_size_known(),
        ensures
            r == self.spec_user_top(),
    {
        self.user_top()
    }
}

} // verus!
