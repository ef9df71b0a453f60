//! Casts of slices, and the bytes of a value.
use crate::checks::InvariantViolation;
use crate::layout::{at_least_as_aligned, same_size};
use crate::pod::{try_cast_ref_alt_result, PodCastError};
use crate::repr::{viewed, ReprRef, ReprSlice, RunView};
use vstd::arithmetic::div_mod::lemma_fundamental_div_mod;
use vstd::layout::{align_of, size_of};
use vstd::pervasive::unreached;
use vstd::prelude::*;

verus! {

/// The bytes of a borrowed `T`.
pub fn bytes_of<'a, T>(bytes: ReprRef<'a, T>) -> (r: &'a [u8])
    ensures
        r@ == bytes@,
        r@.len() == size_of::<T>(),
{
    bytes.as_bytes()
}

/// The number of `U` that a run of `len` values of `T` is cast into by
/// [`try_cast_slice_alt`], or the error.
pub open spec fn try_cast_slice_alt_len<T, U>(len: nat) -> Result<nat, PodCastError> {
    if !at_least_as_aligned::<T, U>() {
        Err(PodCastError::TargetAlignmentGreaterAndInputNotAligned)
    } else if same_size::<T, U>() {
        Ok(len)
    } else if size_of::<T>() == 0 || size_of::<U>() == 0 {
        Err(PodCastError::SizeMismatch)
    } else if (len * size_of::<T>()) % size_of::<U>() == 0 {
        Ok((len * size_of::<T>()) / size_of::<U>())
    } else {
        Err(PodCastError::OutputSliceWouldHaveSlop)
    }
}

/// The outcome of [`try_cast_slice_alt`] on the run `from` of `T`: the same
/// bytes as a run of [`try_cast_slice_alt_len`] values of `U`, or the error.
pub open spec fn try_cast_slice_alt_result<T, U>(from: RunView) -> Result<RunView, PodCastError> {
    match try_cast_slice_alt_len::<T, U>(from.len) {
        Ok(len) => Ok(RunView { len, bytes: from.bytes }),
        Err(error) => Err(error),
    }
}

/// The outcome of [`cast_slice_alt`] on the run `from` of `T`.
pub open spec fn cast_slice_alt_result<T, U>(from: RunView) -> Result<
    RunView,
    InvariantViolation,
> {
    match try_cast_slice_alt_result::<T, U>(from) {
        Ok(to) => Ok(to),
        Err(error) => Err(cast_slice_alt_violation::<T, U>(error, from.len)),
    }
}

/// What [`cast_slice_alt`] reports where [`try_cast_slice_alt`] gives `error`
/// on a run of `len` values of `T`.
pub open spec fn cast_slice_alt_violation<T, U>(error: PodCastError, len: nat) -> InvariantViolation {
    match error {
        PodCastError::TargetAlignmentGreaterAndInputNotAligned => {
            InvariantViolation::IncompatibleAlignment {
                align_of_t: align_of::<T>() as usize,
                align_of_u: align_of::<U>() as usize,
            }
        },
        PodCastError::OutputSliceWouldHaveSlop => InvariantViolation::SliceDoesNotDivideEvenly {
            byte_size: (len * size_of::<T>()) as usize,
            size_of_u: size_of::<U>() as usize,
            excess_bytes: ((len * size_of::<T>()) % size_of::<U>()) as usize,
        },
        _ => InvariantViolation::SliceCastZst {
            size_of_t: size_of::<T>() as usize,
            size_of_u: size_of::<U>() as usize,
        },
    }
}

/// Casts a borrowed run of `T` into a run of `U` over the same bytes.
///
/// The new run has `from.len() * size_of::<T>() / size_of::<U>()` values.
/// The violation is reported in the cases in which [`try_cast_slice_alt`]
/// gives an error.
pub fn cast_slice_alt<'a, T, U>(from: ReprSlice<'a, T>) -> (r: Result<
    ReprSlice<'a, U>,
    InvariantViolation,
>)
    ensures
        viewed(r) == cast_slice_alt_result::<T, U>(from@),
{
    let byte_size = from.as_bytes().len();
    match try_cast_slice_alt(from) {
        Ok(to) => Ok(to),
        Err(PodCastError::TargetAlignmentGreaterAndInputNotAligned) => Err(
            InvariantViolation::IncompatibleAlignment {
                align_of_t: core::mem::align_of::<T>(),
                align_of_u: core::mem::align_of::<U>(),
            },
        ),
        Err(PodCastError::OutputSliceWouldHaveSlop) => Err(
            InvariantViolation::SliceDoesNotDivideEvenly {
                byte_size,
                size_of_u: core::mem::size_of::<U>(),
                excess_bytes: byte_size % core::mem::size_of::<U>(),
            },
        ),
        Err(PodCastError::SizeMismatch) => Err(
            InvariantViolation::SliceCastZst {
                size_of_t: core::mem::size_of::<T>(),
                size_of_u: core::mem::size_of::<U>(),
            },
        ),
        Err(PodCastError::AlignmentMismatch) => unreached(),
    }
}

/// Tries to cast a borrowed run of `T` into a run of `U` over the same
/// bytes.
///
/// Gives
/// - [`PodCastError::TargetAlignmentGreaterAndInputNotAligned`] where `T` is
///   less aligned than `U`, wherever the bytes lie;
/// - else, for types of different sizes, [`PodCastError::SizeMismatch`]
///   where one of them is zero-sized;
/// - else [`PodCastError::OutputSliceWouldHaveSlop`] where the bytes of the
///   run are not a whole number of `U`.
pub fn try_cast_slice_alt<'a, T, U>(from: ReprSlice<'a, T>) -> (r: Result<
    ReprSlice<'a, U>,
    PodCastError,
>)
    ensures
        viewed(r) == try_cast_slice_alt_result::<T, U>(from@),
{
    let len = from.len();
    let size_of_t = core::mem::size_of::<T>();
    let size_of_u = core::mem::size_of::<U>();
    if core::mem::align_of::<T>() < core::mem::align_of::<U>() {
        Err(PodCastError::TargetAlignmentGreaterAndInputNotAligned)
    } else if size_of_t == size_of_u {
        Ok(crate::utils::transmute_slice(from, len))
    } else if size_of_t == 0 || size_of_u == 0 {
        Err(PodCastError::SizeMismatch)
    } else {
        let byte_len = from.as_bytes().len();
        match exact_div(byte_len, size_of_u) {
            Some(new_len) => {
                proof {
                    lemma_fundamental_div_mod(byte_len as int, size_of_u as int);
                    assert(new_len * size_of_u == byte_len) by (nonlinear_arith)
                        requires
                            byte_len == size_of_u * new_len + 0,
                    ;
                }
                Ok(crate::utils::transmute_slice(from, new_len))
            },
            None => Err(PodCastError::OutputSliceWouldHaveSlop),
        }
    }
}

/// `dividend / divisor` where the division leaves no remainder.
pub fn exact_div(dividend: usize, divisor: usize) -> (r: Option<usize>)
    requires
        divisor != 0,
    ensures
        r == (if dividend % divisor == 0 {
            Some((dividend / divisor) as usize)
        } else {
            None
        }),
{
    if dividend % divisor == 0 {
        Some(dividend / divisor)
    } else {
        None
    }
}

/// The casts whose names end in `_alt` go by the alignments of the types
/// alone: a cast into a more aligned type gives
/// [`PodCastError::TargetAlignmentGreaterAndInputNotAligned`] wherever the
/// bytes lie, and a cast between types of one size into a type that is not
/// more aligned succeeds.
pub proof fn lemma_alt_casts_go_by_alignment<T, U>(from: Seq<u8>, run: RunView)
    ensures
        !at_least_as_aligned::<T, U>() ==> try_cast_ref_alt_result::<T, U>(from) == Err::<
            Seq<u8>,
            PodCastError,
        >(PodCastError::TargetAlignmentGreaterAndInputNotAligned) && try_cast_slice_alt_result::<
            T,
            U,
        >(run) == Err::<RunView, PodCastError>(
            PodCastError::TargetAlignmentGreaterAndInputNotAligned,
        ),
        at_least_as_aligned::<T, U>() && same_size::<T, U>() ==> try_cast_ref_alt_result::<T, U>(
            from,
        ) == Ok::<Seq<u8>, PodCastError>(from) && try_cast_slice_alt_result::<T, U>(run) == Ok::<
            RunView,
            PodCastError,
        >(run),
{
}

/// A cast between element types of different sizes succeeds exactly where
/// neither type is zero-sized and the bytes of the run are a whole number of
/// new elements; the new run then covers the same number of bytes. One
/// zero-sized type gives [`PodCastError::SizeMismatch`], bytes left over give
/// [`PodCastError::OutputSliceWouldHaveSlop`].
pub proof fn lemma_slice_cast_exactness<T, U>(len: nat)
    requires
        at_least_as_aligned::<T, U>(),
        !same_size::<T, U>(),
    ensures
        try_cast_slice_alt_len::<T, U>(len) is Ok <==> size_of::<T>() != 0 && size_of::<U>() != 0
            && (len * size_of::<T>()) % size_of::<U>() == 0,
        try_cast_slice_alt_len::<T, U>(len) matches Ok(new_len) ==> new_len * size_of::<U>() == len
            * size_of::<T>(),
        size_of::<T>() == 0 || size_of::<U>() == 0 ==> try_cast_slice_alt_len::<T, U>(len) == Err::<
            nat,
            PodCastError,
        >(PodCastError::SizeMismatch),
        size_of::<T>() != 0 && size_of::<U>() != 0 && (len * size_of::<T>()) % size_of::<U>() != 0
            ==> try_cast_slice_alt_len::<T, U>(len) == Err::<nat, PodCastError>(
            PodCastError::OutputSliceWouldHaveSlop,
        ),
{
    if size_of::<T>() != 0 && size_of::<U>() != 0 && (len * size_of::<T>()) % size_of::<U>() == 0 {
        let bytes = (len * size_of::<T>()) as int;
        let unit = size_of::<U>() as int;
        lemma_fundamental_div_mod(bytes, unit);
        assert((bytes / unit) * unit == bytes) by (nonlinear_arith)
            requires
                bytes == unit * (bytes / unit) + 0,
        ;
    }
}

} // verus!
