//! Checked reinterpretation of values, references and slices at the level of
//! their byte representation.
//!
//! A value of a type `T` is handled through its representation: a [`Repr<T>`]
//! owns the `size_of::<T>()` bytes of one value, a [`ReprRef<T>`] borrows them,
//! and a [`ReprSlice<T>`] borrows the bytes of a run of values. Every cast hands
//! the same bytes on under another subject type, after comparing the layouts of
//! the two types.
//!
//! Zero-sized marker values ([`TransmutableInto`], [`IsTransparentWrapper`],
//! [`IsZeroable`], [`IsCopy`], [`IsPod`], [`TypeSize`]) stand for what their
//! holder claims of the subject types; an
//! [`IsContiguous`](contiguous::IsContiguous) holds the bounds that it claims
//! as well. A marker made by `new_unchecked`
//! may claim what does not hold: with [`CheckMode::Checked`] the functions that
//! consume a marker compare the layouts first and report an
//! [`InvariantViolation`]; with [`CheckMode::Unchecked`] the comparison is left
//! out and the claim is a precondition.
pub mod casts;
pub mod checks;
pub mod contiguous;
pub mod copying;
pub mod infer;
pub mod layout;
pub mod panicking;
pub mod pod;
pub mod proof_types;
pub mod repr;
mod sealed;
pub mod slice_fns;
pub mod transmutable;
pub mod type_size;
mod utils;
pub mod wrapper;
pub mod zeroable;

pub use crate::checks::{CheckMode, InvariantViolation};
pub use crate::copying::IsCopy;
pub use crate::infer::Infer;
pub use crate::panicking::{
    incompatible_alignment_panic, panic_impossible_bounds, slice_cast_zst_panic,
    slice_does_not_divide_evenly_panic, transmute_unequal_align_panic,
    transmute_unequal_ptr_size_panic, transmute_unequal_size_panic, unequal_bytes_size_panic,
    unequal_size_panic, zeroed_too_large_panic, BoundValue,
};
pub use crate::pod::{
    cast, cast_ref_alt, pod_read_unaligned, try_cast, try_cast_ref_alt, try_pod_read_unaligned,
    IsPod, PodCastError,
};
pub use crate::proof_types::TransparentWrapperProof;
pub use crate::repr::{Repr, ReprRef, ReprSlice};
pub use crate::slice_fns::{bytes_of, cast_slice_alt, exact_div, try_cast_slice_alt};
pub use crate::transmutable::TransmutableInto;
pub use crate::type_size::TypeSize;
pub use crate::wrapper::IsTransparentWrapper;
pub use crate::zeroable::{zeroed, zeroed_array_ts, zeroed_buffer_size, zeroed_ts, IsZeroable};
