//! The ways in which a request can be refused.

use vstd::prelude::*;

verus! {

#[derive(Debug, Clone, Copy, PartialEq, Eq, Structural)]
pub enum EncodeError {
    /// The kernel configuration does not have what the request names.
    UnsupportedArchitectureCombination,
    /// A field does not fit in the bits that the message format gives it.
    InvocationFieldOutOfRange,
    /// The arguments of a repeat are not of the variant of the invocation.
    RepeatVariantMismatch,
    /// The table of the kernel build has no number for a label, or one
    /// that does not fit in 32 bits.
    UnknownInvocationLabel,
}

impl EncodeError {
    pub open spec fn spec_describe(self) -> Seq<char> {
        match self {
            EncodeError::UnsupportedArchitectureCombination =>
                "unsupported combination of architecture and configuration"@,
            EncodeError::InvocationFieldOutOfRange => "invocation field out of range"@,
            EncodeError::RepeatVariantMismatch =>
                "repeat arguments differ in kind from the invocation"@,
            EncodeError::UnknownInvocationLabel =>
                "invocation label missing from the kernel's label table"@,
        }
    }

    /// A sentence for the build log.
    pub fn describe(self) -> (r: &'static str)
        ensures
            r@ == self.spec_describe(),
    {
        match self {
            EncodeError::UnsupportedArchitectureCombination =>
                "unsupported combination of architecture and configuration",
            EncodeError::InvocationFieldOutOfRange => "invocation field out of range",
            EncodeError::RepeatVariantMismatch =>
                "repeat arguments differ in kind from the invocation",
            EncodeError::UnknownInvocationLabel =>
                "invocation label missing from the kernel's label table",
        }
    }
}

} // verus!
