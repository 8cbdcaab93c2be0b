//! The table of raw invocation numbers supplied with a kernel build.
//!
//! The table arrives as a JSON value. Verus cannot look inside it, so the
//! items here state, without proof, what a lookup in it returns.

use vstd::prelude::*;
use crate::config::Config;
use crate::label::InvocationLabel;

verus! {

/// Makes `serde_json::Value` known to the verifier as an opaque type.
#[verifier::external_type_specification]
#[verifier::external_body]
pub struct ExJsonValue(serde_json::Value);

/// The numeric members of a JSON value: each key of a JSON object whose
/// member is a non-negative integer that fits in 64 bits, with that integer.
/// A value that is not an object has no members.
pub uninterp spec fn label_numbers(labels: serde_json::Value) -> Map<Seq<char>, u64>;

/// Indexes `labels` by `name` (`Value`'s `Index<&str>`) and reads the member
/// with `Value::as_u64`. Indexing yields JSON null when `labels` is not an
/// object or has no such key, and `as_u64` yields `None` for anything but a
/// non-negative integer that fits in 64 bits; neither panics.
#[verifier::external_body]
pub(crate) fn lookup_label(labels: &serde_json::Value, name: &str) -> (r: Option<u64>)
    ensures
        r == (if label_numbers(*labels).contains_key(name@) {
            Some(label_numbers(*labels)[name@])
        } else {
            None
        }),
{
    labels[name].as_u64()
}

/// The raw number of a label, given what the lookup of its name found: the
/// number itself where it fits in 32 bits.
pub open spec fn spec_raw_label_from(found: Option<u64>) -> Option<u32> {
    match found {
        Some(number) => if number <= u32::MAX {
            Some(number as u32)
        } else {
            None
        },
        None => None,
    }
}

/// Narrows what the lookup of a label name found to the 32 bits of a raw
/// label.
pub fn raw_label_from(found: Option<u64>) -> (r: Option<u32>)
    ensures
        r == spec_raw_label_from(found),
{
    match found {
        Some(number) => if number <= 0xffff_ffff {
            Some(number as u32)
        } else {
            None
        },
        None => None,
    }
}

impl Config {
    /// What the table of the kernel build holds under the name of `label`.
    pub open spec fn spec_label_entry(&self, label: InvocationLabel) -> Option<u64> {
        let numbers = label_numbers(self.invocations_labels);
        if numbers.contains_key(label.spec_name()) {
            Some(numbers[label.spec_name()])
        } else {
            None
        }
    }

    /// The raw number of `label` in the kernel build, if the table has one
    /// that fits in 32 bits.
    pub open spec fn spec_raw_label(&self, label: InvocationLabel) -> Option<u32> {
        spec_raw_label_from(self.spec_label_entry(label))
    }

    pub fn raw_label(&self, label: InvocationLabel) -> (r: Option<u32>)
        ensures
            r == self.spec_raw_label(label),
    {
        raw_label_from(lookup_label(&self.invocations_labels, label.name()))
    }
}

} // verus!
