//! Encoding of seL4 kernel invocations for a system-image build tool.
//!
//! The crate computes architecture-specific kernel object metadata and turns
//! high-level invocation requests into the word stream that the initial task
//! replays at boot. It also renders a readable trace of each invocation.
//! Every executable function carries a contract that Verus proves.

pub mod args;
pub mod attrs;
pub mod config;
pub mod error;
pub mod invocation;
pub mod label;
pub mod label_table;
pub mod object;
pub mod regs;
pub mod report;
pub mod text;

pub use args::{lemma_write_registers_flags, spec_write_registers_flags, InvocationArgs};
pub use attrs::{
    default_vm_attr, spec_default_vm_attr, ArmVmAttributes, IrqTrigger, PageSize, Rights,
    RiscvVmAttributes, X86VmAttributes,
};
pub use config::{Arch, Config, RiscvVirtualMemory, LARGE_PAGE_BYTES, SMALL_PAGE_BYTES};
pub use error::EncodeError;
pub use invocation::{
    lemma_message_info_round_trip, lemma_words_to_bytes_concat, lemma_words_to_bytes_len,
    message_info_extra_caps, message_info_label, message_info_length, message_info_repeats,
    push_word, push_words, spec_group, spec_message_info, words_to_bytes, Invocation,
    CAPS_LIMIT, LABEL_LIMIT, LENGTH_LIMIT,
};
pub use label::InvocationLabel;
pub use label_table::{label_numbers, raw_label_from, spec_raw_label_from};
pub use object::{BootInfo, Object, ObjectType, UntypedObject, X86_LARGE_XSAVE_BYTES};
pub use regs::{reg_values, Aarch64Regs, NamedReg, Riscv64Regs, X86_64Regs};
