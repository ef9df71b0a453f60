//! Casts between plain old data, by value and behind a reference.
use crate::checks::InvariantViolation;
use crate::copying::IsCopy;
use crate::layout::{at_least_as_aligned, same_size};
use crate::repr::{viewed, Repr, ReprRef};
use crate::zeroable::IsZeroable;
use vstd::layout::{align_of, size_of};
use vstd::prelude::*;
use vstd::slice::slice_to_vec;

verus! {

/// Stands for the claim that `T` is plain old data: its bytes may be any,
/// so they may all be zero, and a `T` is copied by copying them.
#[derive(Debug)]
pub struct IsPod<T> {
    /// For copying a `T`.
    pub is_copy: IsCopy<T>,
    /// For making a `T` of zero bytes.
    pub is_zeroable: IsZeroable<T>,
}

impl<T> Clone for IsPod<T> {
    fn clone(&self) -> (r: Self) {
        *self
    }
}

impl<T> Copy for IsPod<T> {

}

impl<T> IsPod<T> {
    /// Makes the marker without any check: that `T` is plain old data is
    /// the caller's claim.
    pub fn new_unchecked() -> (r: Self) {
        IsPod { is_copy: IsCopy::new_unchecked(), is_zeroable: IsZeroable::new_unchecked() }
    }
}

/// The things that can go wrong when casting between plain old data.
#[derive(Clone, Copy, Debug, PartialEq, Eq, Hash, Structural)]
pub enum PodCastError {
    /// A reference was cast into a reference to a more aligned type.
    TargetAlignmentGreaterAndInputNotAligned,
    /// The bytes of a slice are not a whole number of elements of the new
    /// type.
    OutputSliceWouldHaveSlop,
    /// The source and the destination differ in size.
    SizeMismatch,
    /// The alignments had to be the same and are not. No cast of this
    /// library gives this error.
    AlignmentMismatch,
}

/// The outcome of [`try_cast`] on the bytes `from` of a `T`.
pub open spec fn try_cast_result<T, U>(from: Seq<u8>) -> Result<Seq<u8>, PodCastError> {
    if same_size::<T, U>() {
        Ok(from)
    } else {
        Err(PodCastError::SizeMismatch)
    }
}

/// The outcome of [`cast`] on the bytes `from` of a `T`.
pub open spec fn cast_result<T, U>(from: Seq<u8>) -> Result<Seq<u8>, InvariantViolation> {
    if same_size::<T, U>() {
        Ok(from)
    } else {
        Err(
            InvariantViolation::UnequalSize {
                size_of_t: size_of::<T>() as usize,
                size_of_u: size_of::<U>() as usize,
            },
        )
    }
}

/// The outcome of [`cast_ref_alt`] on the bytes `from` of a `T`.
pub open spec fn cast_ref_alt_result<T, U>(from: Seq<u8>) -> Result<Seq<u8>, InvariantViolation> {
    if !at_least_as_aligned::<T, U>() {
        Err(
            InvariantViolation::IncompatibleAlignment {
                align_of_t: align_of::<T>() as usize,
                align_of_u: align_of::<U>() as usize,
            },
        )
    } else if !same_size::<T, U>() {
        Err(
            InvariantViolation::UnequalSize {
                size_of_t: size_of::<T>() as usize,
                size_of_u: size_of::<U>() as usize,
            },
        )
    } else {
        Ok(from)
    }
}

/// The outcome of [`pod_read_unaligned`] on `bytes`.
pub open spec fn pod_read_unaligned_result<T>(bytes: Seq<u8>) -> Result<
    Seq<u8>,
    InvariantViolation,
> {
    if bytes.len() == size_of::<T>() {
        Ok(bytes)
    } else {
        Err(
            InvariantViolation::UnequalBytesSize {
                size_of_slice: bytes.len() as usize,
                size_of_t: size_of::<T>() as usize,
            },
        )
    }
}

/// The outcome of [`try_cast_ref_alt`] on the bytes `from` of a `T`.
pub open spec fn try_cast_ref_alt_result<T, U>(from: Seq<u8>) -> Result<Seq<u8>, PodCastError> {
    if !at_least_as_aligned::<T, U>() {
        Err(PodCastError::TargetAlignmentGreaterAndInputNotAligned)
    } else if !same_size::<T, U>() {
        Err(PodCastError::SizeMismatch)
    } else {
        Ok(from)
    }
}

/// The outcome of [`try_pod_read_unaligned`] on `bytes`.
pub open spec fn try_pod_read_unaligned_result<T>(bytes: Seq<u8>) -> Result<Seq<u8>, PodCastError> {
    if bytes.len() == size_of::<T>() {
        Ok(bytes)
    } else {
        Err(PodCastError::SizeMismatch)
    }
}

/// Casts a `T` into a `U`.
///
/// Where `T` is not of the same size as `U`, the violation is reported.
pub fn cast<T, U>(from: Repr<T>) -> (r: Result<Repr<U>, InvariantViolation>)
    ensures
        viewed(r) == cast_result::<T, U>(from@),
{
    if core::mem::size_of::<T>() != core::mem::size_of::<U>() {
        Err(
            InvariantViolation::UnequalSize {
                size_of_t: core::mem::size_of::<T>(),
                size_of_u: core::mem::size_of::<U>(),
            },
        )
    } else {
        Ok(crate::utils::transmute(from))
    }
}

/// Tries to cast a `T` into a `U`.
///
/// Gives [`PodCastError::SizeMismatch`] where `T` is not of the same size
/// as `U`.
pub fn try_cast<T, U>(from: Repr<T>) -> (r: Result<Repr<U>, PodCastError>)
    ensures
        viewed(r) == try_cast_result::<T, U>(from@),
{
    if core::mem::size_of::<T>() == core::mem::size_of::<U>() {
        Ok(crate::utils::transmute(from))
    } else {
        Err(PodCastError::SizeMismatch)
    }
}

/// Casts a borrowed `T` into a borrowed `U`.
///
/// The violation is reported where `T` is less aligned than `U`, and else
/// where the sizes of the two differ. Whether the bytes happen to lie at an
/// address that suits `U` plays no part.
pub fn cast_ref_alt<'a, T, U>(from: ReprRef<'a, T>) -> (r: Result<
    ReprRef<'a, U>,
    InvariantViolation,
>)
    ensures
        viewed(r) == cast_ref_alt_result::<T, U>(from@),
{
    match try_cast_ref_alt(from) {
        Ok(to) => Ok(to),
        Err(PodCastError::TargetAlignmentGreaterAndInputNotAligned) => Err(
            InvariantViolation::IncompatibleAlignment {
                align_of_t: core::mem::align_of::<T>(),
                align_of_u: core::mem::align_of::<U>(),
            },
        ),
        Err(_) => Err(
            InvariantViolation::UnequalSize {
                size_of_t: core::mem::size_of::<T>(),
                size_of_u: core::mem::size_of::<U>(),
            },
        ),
    }
}

/// Tries to cast a borrowed `T` into a borrowed `U`.
///
/// Gives [`PodCastError::TargetAlignmentGreaterAndInputNotAligned`] where
/// `T` is less aligned than `U`, and else [`PodCastError::SizeMismatch`]
/// where the sizes of the two differ.
pub fn try_cast_ref_alt<'a, T, U>(from: ReprRef<'a, T>) -> (r: Result<ReprRef<'a, U>, PodCastError>)
    ensures
        viewed(r) == try_cast_ref_alt_result::<T, U>(from@),
{
    if core::mem::align_of::<T>() < core::mem::align_of::<U>() {
        Err(PodCastError::TargetAlignmentGreaterAndInputNotAligned)
    } else if core::mem::size_of::<T>() != core::mem::size_of::<U>() {
        Err(PodCastError::SizeMismatch)
    } else {
        Ok(crate::utils::transmute_ref(from))
    }
}

/// Reads a `T` out of a byte slice, wherever the slice lies.
///
/// Where the slice is not as long as a `T`, the violation is reported.
pub fn pod_read_unaligned<T>(bytes: &[u8]) -> (r: Result<Repr<T>, InvariantViolation>)
    ensures
        viewed(r) == pod_read_unaligned_result::<T>(bytes@),
{
    match try_pod_read_unaligned(bytes) {
        Ok(value) => Ok(value),
        Err(_) => Err(
            InvariantViolation::UnequalBytesSize {
                size_of_slice: bytes.len(),
                size_of_t: core::mem::size_of::<T>(),
            },
        ),
    }
}

/// Tries to read a `T` out of a byte slice, wherever the slice lies.
///
/// Gives [`PodCastError::SizeMismatch`] where the slice is not as long as
/// a `T`.
pub fn try_pod_read_unaligned<T>(bytes: &[u8]) -> (r: Result<Repr<T>, PodCastError>)
    ensures
        viewed(r) == try_pod_read_unaligned_result::<T>(bytes@),
{
    if core::mem::size_of::<T>() == bytes.len() {
        Ok(Repr::from_sized(slice_to_vec(bytes)))
    } else {
        Err(PodCastError::SizeMismatch)
    }
}

} // verus!
