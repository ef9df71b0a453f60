//! Casts that a [`TransmutableInto`] marker gates.
use crate::casts::{
    cast_outcome, check_outcome, checked_transmute, checked_transmute_ref,
    checked_transmute_slice, reference_violation, value_violation,
};
use crate::checks::{CheckMode, InvariantViolation};
use crate::layout::{align_of_array, at_least_as_aligned, same_size, size_of_array};
use crate::pod::IsPod;
use crate::proof_types::reference_size_violation;
use crate::repr::{viewed, Repr, ReprRef, ReprSlice, RunView};
use core::marker::PhantomData;
use vstd::prelude::*;

verus! {

/// Stands for the claim that a `Fro` can be reinterpreted as a `To`, by
/// value and behind a reference.
///
/// The value is zero-sized and says nothing by itself: what is claimed is
/// [`transmutable`] of the two types. [`TransmutableInto::pod`] makes the
/// marker where the layouts were compared; [`TransmutableInto::new_unchecked`]
/// makes it on the caller's word.
#[derive(Debug)]
pub struct TransmutableInto<Fro: ?Sized, To: ?Sized> {
    _fro: PhantomData<Fro>,
    _to: PhantomData<To>,
}

/// What a [`TransmutableInto`] claims of the layouts: `Fro` and `To` have
/// the same size, and `Fro` is at least as aligned as `To`.
pub open spec fn transmutable<Fro, To>() -> bool {
    same_size::<Fro, To>() && at_least_as_aligned::<Fro, To>()
}

impl<Fro: ?Sized, To: ?Sized> Clone for TransmutableInto<Fro, To> {
    fn clone(&self) -> (r: Self) {
        *self
    }
}

impl<Fro: ?Sized, To: ?Sized> Copy for TransmutableInto<Fro, To> {

}

impl<Fro: ?Sized, To: ?Sized> TransmutableInto<Fro, To> {
    /// Makes the marker without any check: that a `Fro` can be
    /// reinterpreted as a `To` is the caller's claim.
    pub fn new_unchecked() -> (r: Self) {
        TransmutableInto { _fro: PhantomData, _to: PhantomData }
    }
}

impl<'a, Fro: ?Sized + 'a, To: ?Sized + 'a> TransmutableInto<Fro, To> {
    /// The check before a cast from a reference to `Fro` into a reference
    /// to `To`, of which either may be unsized: under [`CheckMode::Checked`]
    /// it is reported where the two references differ in size.
    pub fn check_reference_size(self, checks: CheckMode) -> (r: Result<(), InvariantViolation>)
        ensures
            r == check_outcome(reference_size_violation::<'a, Fro, To>(checks)),
    {
        if checks.is_checked() && core::mem::size_of::<&'a Fro>() != core::mem::size_of::<&'a To>() {
            Err(
                InvariantViolation::TransmuteUnequalPtrSize {
                    from: core::mem::size_of::<&'a Fro>(),
                    to: core::mem::size_of::<&'a To>(),
                },
            )
        } else {
            Ok(())
        }
    }
}

impl<Fro, To> TransmutableInto<Fro, To> {
    /// Whether the layouts of `Fro` and `To` are as the marker claims.
    pub fn is_transmutable() -> (r: bool)
        ensures
            r == transmutable::<Fro, To>(),
    {
        core::mem::size_of::<Fro>() == core::mem::size_of::<To>() && core::mem::align_of::<Fro>()
            >= core::mem::align_of::<To>()
    }

    /// Makes the marker for two types of plain old data whose layouts
    /// agree.
    pub fn pod(_bounds: (IsPod<Fro>, IsPod<To>)) -> (r: Self)
        requires
            transmutable::<Fro, To>(),
    {
        TransmutableInto::new_unchecked()
    }

    /// Chains this marker with one from `To` on into `Dst`, without
    /// passing through a `To`.
    ///
    /// What the two markers claim holds of the ends.
    pub fn join<Dst>(self, _other: TransmutableInto<To, Dst>) -> (r: TransmutableInto<Fro, Dst>)
        ensures
            transmutable::<Fro, To>() && transmutable::<To, Dst>() ==> transmutable::<Fro, Dst>(),
    {
        TransmutableInto::new_unchecked()
    }

    /// Lifts the marker to arrays of `LEN` elements.
    ///
    /// The layouts of the arrays agree where those of the elements do.
    pub fn array<const LEN: usize>(self) -> (r: TransmutableInto<[Fro; LEN], [To; LEN]>)
        ensures
            transmutable::<Fro, To>() ==> transmutable::<[Fro; LEN], [To; LEN]>(),
    {
        let _ = size_of_array::<Fro, LEN>();
        let _ = size_of_array::<To, LEN>();
        let _ = align_of_array::<Fro, LEN>();
        let _ = align_of_array::<To, LEN>();
        TransmutableInto::new_unchecked()
    }
}

/// The outcome of [`transmute_into`] on the bytes `value`.
pub open spec fn transmute_into_result<T, U>(value: Seq<u8>, checks: CheckMode) -> Result<
    Seq<u8>,
    InvariantViolation,
> {
    cast_outcome(value_violation::<T, U>(checks), value)
}

/// The outcome of [`transmute_ref`] on the bytes `value`.
pub open spec fn transmute_ref_result<T, U>(value: Seq<u8>, checks: CheckMode) -> Result<
    Seq<u8>,
    InvariantViolation,
> {
    cast_outcome(reference_violation::<T, U>(checks), value)
}

/// The outcome of [`transmute_slice`] on the run `value`.
pub open spec fn transmute_slice_result<T, U>(value: RunView, checks: CheckMode) -> Result<
    RunView,
    InvariantViolation,
> {
    cast_outcome(reference_violation::<T, U>(checks), value)
}

/// Reinterprets a `T` as a `U`.
///
/// Under [`CheckMode::Checked`] the sizes of the two types are compared
/// first, and a difference is reported. Under [`CheckMode::Unchecked`]
/// nothing is compared.
pub fn transmute_into<T, U>(value: Repr<T>, _bounds: TransmutableInto<T, U>, checks: CheckMode) -> (r:
    Result<Repr<U>, InvariantViolation>)
    requires
        checks == CheckMode::Unchecked ==> same_size::<T, U>(),
    ensures
        viewed(r) == transmute_into_result::<T, U>(value@, checks),
{
    checked_transmute(value, checks)
}

/// Reinterprets a borrowed `T` as a borrowed `U`.
///
/// Under [`CheckMode::Checked`] the alignments and the sizes of the two
/// types are compared first: it is reported where `T` is less aligned than
/// `U`, and else where the sizes differ. Under [`CheckMode::Unchecked`]
/// nothing is compared.
pub fn transmute_ref<'a, T, U>(
    value: ReprRef<'a, T>,
    _bounds: TransmutableInto<T, U>,
    checks: CheckMode,
) -> (r: Result<ReprRef<'a, U>, InvariantViolation>)
    requires
        checks == CheckMode::Unchecked ==> transmutable::<T, U>(),
    ensures
        viewed(r) == transmute_ref_result::<T, U>(value@, checks),
{
    checked_transmute_ref(value, checks)
}

/// Reinterprets a borrowed run of `T` as a run of as many `U`.
///
/// The checks are those of [`transmute_ref`].
pub fn transmute_slice<'a, T, U>(
    value: ReprSlice<'a, T>,
    _bounds: TransmutableInto<T, U>,
    checks: CheckMode,
) -> (r: Result<ReprSlice<'a, U>, InvariantViolation>)
    requires
        checks == CheckMode::Unchecked ==> transmutable::<T, U>(),
    ensures
        viewed(r) == transmute_slice_result::<T, U>(value@, checks),
{
    checked_transmute_slice(value, checks)
}

} // verus!
