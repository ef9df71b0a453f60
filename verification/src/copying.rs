//! Copying values through their bytes.
use crate::checks::{CheckMode, InvariantViolation};
use crate::infer::Infer;
use crate::layout::{size_of_array, size_of_buffers};
use crate::repr::{viewed, Repr, ReprRef};
use crate::type_size::{type_size, TypeSize};
use core::marker::PhantomData;
use vstd::layout::size_of;
use vstd::prelude::*;

verus! {

/// Stands for the claim that a `T` is copied by copying its bytes.
#[derive(Debug)]
pub struct IsCopy<T> {
    _subject: PhantomData<T>,
}

impl<T> Clone for IsCopy<T> {
    fn clone(&self) -> (r: Self) {
        *self
    }
}

impl<T> Copy for IsCopy<T> {

}

impl<T: Copy> IsCopy<T> {
    /// The marker for a type that is `Copy`.
    pub fn new() -> (r: Self) {
        IsCopy { _subject: PhantomData }
    }
}

impl<T> IsCopy<T> {
    /// Makes the marker without any check: that a `T` is copied by
    /// copying its bytes is the caller's claim.
    pub fn new_unchecked() -> (r: Self) {
        IsCopy { _subject: PhantomData }
    }
}

impl<T: Copy> Infer for IsCopy<T> {
    closed spec fn inferred() -> Self {
        IsCopy { _subject: PhantomData }
    }

    fn infer() -> (r: Self) {
        IsCopy { _subject: PhantomData }
    }
}

/// `count` copies of `bytes`, one after the other.
pub open spec fn repeated(bytes: Seq<u8>, count: nat) -> Seq<u8>
    decreases count,
{
    if count == 0 {
        Seq::empty()
    } else {
        repeated(bytes, (count - 1) as nat) + bytes
    }
}

/// `count` copies of `bytes` are `count` times as long as `bytes`.
pub proof fn lemma_repeated_len(bytes: Seq<u8>, count: nat)
    ensures
        repeated(bytes, count).len() == count * bytes.len(),
    decreases count,
{
    if count == 0 {
        assert(count * bytes.len() == 0) by (nonlinear_arith)
            requires
                count == 0,
        ;
    } else {
        let fewer = (count - 1) as nat;
        lemma_repeated_len(bytes, fewer);
        assert(fewer * bytes.len() + bytes.len() == count * bytes.len()) by (nonlinear_arith)
            requires
                fewer + 1 == count,
        ;
    }
}

/// The outcome of [`copy_ts`] on the bytes `reff` of a `T` that is claimed
/// to be `size` bytes large.
pub open spec fn copy_ts_result<T>(size: usize, reff: Seq<u8>, checks: CheckMode) -> Result<
    Seq<u8>,
    InvariantViolation,
> {
    if checks == CheckMode::Checked && !type_size::<T>(size) {
        Err(InvariantViolation::TransmuteUnequalSize { from: size, to: size_of::<T>() as usize })
    } else {
        Ok(reff)
    }
}

/// The outcome of [`repeat_ts`] on the bytes `reff` of a `T` that is claimed
/// to be `size` bytes large, for an array of `arr_len` elements.
pub open spec fn repeat_ts_result<T>(
    size: usize,
    arr_len: usize,
    reff: Seq<u8>,
    checks: CheckMode,
) -> Result<Seq<u8>, InvariantViolation> {
    if checks == CheckMode::Checked && arr_len * size != arr_len * size_of::<T>() {
        Err(
            InvariantViolation::TransmuteUnequalSize {
                from: (arr_len * size) as usize,
                to: (arr_len * size_of::<T>()) as usize,
            },
        )
    } else {
        Ok(repeated(reff, arr_len as nat))
    }
}

/// Copies a `T` out of a borrowed `T`, through a buffer of `SIZE` bytes.
///
/// Under [`CheckMode::Checked`] it is reported where `T` is not `SIZE`
/// bytes large.
pub fn copy_ts<T, const SIZE: usize>(
    reff: ReprRef<'_, T>,
    _bounds: TypeSize<T, IsCopy<T>, SIZE>,
    checks: CheckMode,
) -> (r: Result<Repr<T>, InvariantViolation>)
    requires
        checks == CheckMode::Unchecked ==> type_size::<T>(SIZE),
    ensures
        viewed(r) == copy_ts_result::<T>(SIZE, reff@, checks),
{
    if checks.is_checked() && SIZE != core::mem::size_of::<T>() {
        Err(InvariantViolation::TransmuteUnequalSize { from: SIZE, to: core::mem::size_of::<T>() })
    } else {
        Ok(reff.to_repr())
    }
}

/// Makes an array of `ARR_LEN` copies of a borrowed `T`, through buffers of
/// `SIZE` bytes.
///
/// Under [`CheckMode::Checked`] it is reported where the `ARR_LEN` buffers
/// are not as large as the array.
pub fn repeat_ts<T, const SIZE: usize, const ARR_LEN: usize>(
    reff: ReprRef<'_, T>,
    _bounds: TypeSize<T, IsCopy<T>, SIZE>,
    checks: CheckMode,
) -> (r: Result<Repr<[T; ARR_LEN]>, InvariantViolation>)
    requires
        checks == CheckMode::Unchecked ==> type_size::<T>(SIZE),
    ensures
        viewed(r) == repeat_ts_result::<T>(SIZE, ARR_LEN, reff@, checks),
{
    let buffers_size = size_of_buffers::<SIZE, ARR_LEN>();
    let array_size = size_of_array::<T, ARR_LEN>();
    if checks.is_checked() && buffers_size != array_size {
        return Err(InvariantViolation::TransmuteUnequalSize { from: buffers_size, to: array_size });
    }
    let bytes = reff.as_bytes();
    let mut array: Vec<u8> = Vec::new();
    let mut copies: usize = 0;
    while copies < ARR_LEN
        invariant
            copies <= ARR_LEN,
            array@ == repeated(bytes@, copies as nat),
        decreases ARR_LEN - copies,
    {
        let ghost before = array@;
        array.extend_from_slice(bytes);
        assert(array@ =~= before + bytes@);
        copies = copies + 1;
    }
    proof {
        lemma_repeated_len(bytes@, ARR_LEN as nat);
    }
    Ok(Repr::from_sized(array))
}

} // verus!
