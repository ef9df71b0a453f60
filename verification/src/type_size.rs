//! A type passed along with its size.
use crate::checks::{CheckMode, InvariantViolation};
use crate::copying::{copy_ts_result, repeat_ts, repeat_ts_result, repeated, IsCopy};
use crate::repr::{viewed, Repr, ReprRef};
use crate::zeroable::{zero_bytes, zeroed_array_ts_result, zeroed_ts_result};
use core::marker::PhantomData;
use vstd::layout::size_of;
use vstd::prelude::*;

verus! {

/// Stands for the claim that `T` is `SIZE` bytes large, and carries further
/// marker values for `T` in its bounds.
///
/// The size is compared once, where the value is made by
/// [`TypeSize::new_panicking`]; [`TypeSize::new_unchecked`] makes it on the
/// caller's word.
#[derive(Debug)]
pub struct TypeSize<T, B, const SIZE: usize> {
    bounds: B,
    _subject: PhantomData<T>,
}

/// What a [`TypeSize`] claims: the size of `T` is `size`.
pub open spec fn type_size<T>(size: usize) -> bool {
    size_of::<T>() == size
}

impl<T, B: Copy, const SIZE: usize> Clone for TypeSize<T, B, SIZE> {
    fn clone(&self) -> (r: Self) {
        *self
    }
}

impl<T, B: Copy, const SIZE: usize> Copy for TypeSize<T, B, SIZE> {

}

impl<T, const SIZE: usize> TypeSize<T, (), SIZE> {
    /// Makes a `TypeSize` without bounds and without any check: that `T` is
    /// `SIZE` bytes large is the caller's claim.
    pub fn new_unchecked() -> (r: Self) {
        TypeSize { bounds: (), _subject: PhantomData }
    }

    /// Whether `T` is `SIZE` bytes large.
    pub fn is_type_size() -> (r: bool)
        ensures
            r == type_size::<T>(SIZE),
    {
        core::mem::size_of::<T>() == SIZE
    }

    /// Makes a `TypeSize` without bounds for a `T` that is `SIZE` bytes
    /// large.
    pub fn new_panicking() -> (r: Self)
        requires
            type_size::<T>(SIZE),
    {
        TypeSize { bounds: (), _subject: PhantomData }
    }

    /// Sets the bounds of a `TypeSize` that has none.
    pub fn with_bounds<B>(self, bounds: B) -> (r: TypeSize<T, B, SIZE>)
        ensures
            r.spec_bounds() == bounds,
    {
        TypeSize { bounds, _subject: PhantomData }
    }
}

impl<T, B, const SIZE: usize> TypeSize<T, B, SIZE> {
    /// The bounds.
    pub closed spec fn spec_bounds(self) -> B {
        self.bounds
    }

    /// Replaces the bounds with `bounds`.
    pub fn set_bounds<V>(self, bounds: V) -> (r: TypeSize<T, V, SIZE>)
        ensures
            r.spec_bounds() == bounds,
    {
        TypeSize { bounds, _subject: PhantomData }
    }

    /// Borrows the bounds.
    pub fn bounds(&self) -> (r: &B)
        ensures
            *r == self.spec_bounds(),
    {
        &self.bounds
    }

    /// Turns this `TypeSize` into its bounds.
    pub fn into_bounds(self) -> (r: B)
        ensures
            r == self.spec_bounds(),
    {
        self.bounds
    }

    /// Splits this `TypeSize` into its bounds and a `TypeSize` without
    /// bounds.
    pub fn split(self) -> (r: (B, TypeSize<T, (), SIZE>))
        ensures
            r.0 == self.spec_bounds(),
    {
        (self.bounds, TypeSize { bounds: (), _subject: PhantomData })
    }
}

impl<T, const SIZE: usize> TypeSize<T, IsCopy<T>, SIZE> {
    /// [`repeat_ts`] with the length of the array given at the call.
    pub fn repeat<const LEN: usize>(self, reff: ReprRef<'_, T>, checks: CheckMode) -> (r: Result<
        Repr<[T; LEN]>,
        InvariantViolation,
    >)
        requires
            checks == CheckMode::Unchecked ==> type_size::<T>(SIZE),
        ensures
            viewed(r) == repeat_ts_result::<T>(SIZE, LEN, reff@, checks),
    {
        repeat_ts(reff, self, checks)
    }
}

/// The size contract of the functions that take a [`TypeSize`]: under
/// [`CheckMode::Checked`], where `T` is not `size` bytes large, a copy and a
/// zero-fill report the two sizes, and so do those of a non-empty array;
/// where `T` is `size` bytes large, each gives its value.
pub proof fn lemma_type_size_contract<T>(size: usize, len: usize, reff: Seq<u8>)
    ensures
        !type_size::<T>(size) ==> copy_ts_result::<T>(size, reff, CheckMode::Checked) is Err
            && zeroed_ts_result::<T>(size, CheckMode::Checked) is Err,
        !type_size::<T>(size) && len != 0 ==> repeat_ts_result::<T>(
            size,
            len,
            reff,
            CheckMode::Checked,
        ) is Err && zeroed_array_ts_result::<T>(size, len, CheckMode::Checked) is Err,
        type_size::<T>(size) ==> copy_ts_result::<T>(size, reff, CheckMode::Checked) == Ok::<
            Seq<u8>,
            InvariantViolation,
        >(reff) && zeroed_ts_result::<T>(size, CheckMode::Checked) == Ok::<
            Seq<u8>,
            InvariantViolation,
        >(zero_bytes(size as nat)) && repeat_ts_result::<T>(size, len, reff, CheckMode::Checked)
            == Ok::<Seq<u8>, InvariantViolation>(repeated(reff, len as nat))
            && zeroed_array_ts_result::<T>(size, len, CheckMode::Checked) == Ok::<
            Seq<u8>,
            InvariantViolation,
        >(zero_bytes((len * size) as nat)),
{
    if !type_size::<T>(size) && len != 0 {
        assert(len * size != len * vstd::layout::size_of::<T>()) by (nonlinear_arith)
            requires
                len != 0,
                size != vstd::layout::size_of::<T>(),
        ;
    }
}

} // verus!
