//! The two modes of the invariant checks, and what a failed check reports.
use crate::panicking::{
    impossible_bounds_text, incompatible_alignment_panic, incompatible_alignment_text,
    panic_impossible_bounds, slice_cast_zst_panic, slice_cast_zst_text,
    slice_excess_message, slice_excess_text,
    transmute_unequal_align_panic, transmute_unequal_align_text,
    transmute_unequal_ptr_size_panic, transmute_unequal_ptr_size_text,
    transmute_unequal_size_panic, transmute_unequal_size_text, unequal_bytes_size_panic,
    unequal_bytes_size_text, unequal_size_panic, unequal_size_text, zeroed_too_large_panic,
    zeroed_too_large_text, BoundValue,
};
use vstd::prelude::*;

verus! {

/// Whether the layouts of the subject types are compared before a
/// reinterpretation that a marker value gates.
#[derive(Clone, Copy, Debug, PartialEq, Eq, Structural)]
pub enum CheckMode {
    /// The layouts are compared, and a disagreement is reported.
    Checked,
    /// Nothing is compared: what the marker claims is a precondition.
    Unchecked,
}

impl CheckMode {
    /// Whether this is [`CheckMode::Checked`].
    pub fn is_checked(self) -> (r: bool)
        ensures
            r == (self == CheckMode::Checked),
    {
        match self {
            CheckMode::Checked => true,
            CheckMode::Unchecked => false,
        }
    }
}

/// What a failed check found: the kind of the disagreement and the
/// quantities that disagree.
#[derive(Clone, Copy, Debug, PartialEq, Eq, Structural)]
pub enum InvariantViolation {
    /// A marker-gated reinterpretation between types of different sizes.
    TransmuteUnequalSize { from: usize, to: usize },
    /// A marker-gated reinterpretation behind a reference into a more
    /// aligned type.
    TransmuteUnequalAlign { from: usize, to: usize },
    /// A cast between references whose pointers differ in size.
    TransmuteUnequalPtrSize { from: usize, to: usize },
    /// A cast between types of different sizes.
    UnequalSize { size_of_t: usize, size_of_u: usize },
    /// A read of a value out of a byte slice of another length.
    UnequalBytesSize { size_of_slice: usize, size_of_t: usize },
    /// A cast behind a reference into a more aligned type.
    IncompatibleAlignment { align_of_t: usize, align_of_u: usize },
    /// A cast of a slice of `byte_size` bytes into elements of `size_of_u`
    /// bytes, which leaves `excess_bytes` bytes over.
    SliceDoesNotDivideEvenly { byte_size: usize, size_of_u: usize, excess_bytes: usize },
    /// A slice cast between a zero-sized and a non-zero-sized element type.
    SliceCastZst { size_of_t: usize, size_of_u: usize },
    /// Bounds of a contiguous type whose minimum lies above their maximum.
    ImpossibleBounds { min_value: BoundValue, max_value: BoundValue },
    /// A zero-fill of a type larger than the largest buffer.
    ZeroedTooLarge { max_size: usize, size: usize },
}

impl InvariantViolation {
    /// The message of this violation.
    pub open spec fn message_text(self) -> Seq<char> {
        match self {
            InvariantViolation::TransmuteUnequalSize { from, to } => transmute_unequal_size_text(
                from as nat,
                to as nat,
            ),
            InvariantViolation::TransmuteUnequalAlign { from, to } => transmute_unequal_align_text(
                from as nat,
                to as nat,
            ),
            InvariantViolation::TransmuteUnequalPtrSize { from, to } =>
                transmute_unequal_ptr_size_text(from as nat, to as nat),
            InvariantViolation::UnequalSize { size_of_t, size_of_u } => unequal_size_text(
                size_of_t as nat,
                size_of_u as nat,
            ),
            InvariantViolation::UnequalBytesSize { size_of_slice, size_of_t } =>
                unequal_bytes_size_text(size_of_slice as nat, size_of_t as nat),
            InvariantViolation::IncompatibleAlignment { align_of_t, align_of_u } =>
                incompatible_alignment_text(align_of_t as nat, align_of_u as nat),
            InvariantViolation::SliceDoesNotDivideEvenly { byte_size, size_of_u, excess_bytes } =>
                slice_excess_text(byte_size as nat, size_of_u as nat, excess_bytes as nat),
            InvariantViolation::SliceCastZst { size_of_t, size_of_u } => slice_cast_zst_text(
                size_of_t as nat,
                size_of_u as nat,
            ),
            InvariantViolation::ImpossibleBounds { min_value, max_value } =>
                impossible_bounds_text(min_value.as_int(), max_value.as_int()),
            InvariantViolation::ZeroedTooLarge { max_size, size } => zeroed_too_large_text(
                max_size as nat,
                size as nat,
            ),
        }
    }

    /// Renders the message with which the violation is reported.
    pub fn message(&self) -> (message: String)
        ensures
            message@ == self.message_text(),
    {
        match *self {
            InvariantViolation::TransmuteUnequalSize { from, to } => transmute_unequal_size_panic(
                from,
                to,
            ),
            InvariantViolation::TransmuteUnequalAlign { from, to } => transmute_unequal_align_panic(
                from,
                to,
            ),
            InvariantViolation::TransmuteUnequalPtrSize { from, to } =>
                transmute_unequal_ptr_size_panic(from, to),
            InvariantViolation::UnequalSize { size_of_t, size_of_u } => unequal_size_panic(
                size_of_t,
                size_of_u,
            ),
            InvariantViolation::UnequalBytesSize { size_of_slice, size_of_t } =>
                unequal_bytes_size_panic(size_of_slice, size_of_t),
            InvariantViolation::IncompatibleAlignment { align_of_t, align_of_u } =>
                incompatible_alignment_panic(align_of_t, align_of_u),
            InvariantViolation::SliceDoesNotDivideEvenly { byte_size, size_of_u, excess_bytes } =>
                slice_excess_message(byte_size, size_of_u, excess_bytes),
            InvariantViolation::SliceCastZst { size_of_t, size_of_u } => slice_cast_zst_panic(
                size_of_t,
                size_of_u,
            ),
            InvariantViolation::ImpossibleBounds { min_value, max_value } =>
                panic_impossible_bounds(min_value, max_value),
            InvariantViolation::ZeroedTooLarge { max_size, size } => zeroed_too_large_panic(
                max_size,
                size,
            ),
        }
    }
}

} // verus!
