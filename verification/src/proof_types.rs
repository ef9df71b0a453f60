//! The marker that a type wraps another transparently.
use crate::casts::check_outcome;
use crate::checks::{CheckMode, InvariantViolation};
use crate::panicking::{transmute_unequal_ptr_size_panic, transmute_unequal_ptr_size_text};
use core::marker::PhantomData;
use vstd::layout::size_of;
use vstd::prelude::*;

verus! {

/// Stands for the claim that `Outer` is a transparent wrapper around `Inner`.
///
/// Either type may be unsized. A reference to an unsized type carries more
/// than an address, so a cast between references to `Outer` and to `Inner`
/// is sound only where both references have the same size.
#[derive(Debug)]
pub struct TransparentWrapperProof<Outer: ?Sized, Inner: ?Sized> {
    _outer: PhantomData<Outer>,
    _inner: PhantomData<Inner>,
}

impl<Outer: ?Sized, Inner: ?Sized> Clone for TransparentWrapperProof<Outer, Inner> {
    fn clone(&self) -> (r: Self) {
        *self
    }
}

impl<Outer: ?Sized, Inner: ?Sized> Copy for TransparentWrapperProof<Outer, Inner> {

}

impl<Outer: ?Sized, Inner: ?Sized> TransparentWrapperProof<Outer, Inner> {
    /// Makes the marker without any check: that `Outer` wraps `Inner`
    /// transparently is the caller's claim.
    pub fn new_unchecked() -> (r: Self) {
        TransparentWrapperProof { _outer: PhantomData, _inner: PhantomData }
    }
}

/// The size of a reference to `T`.
pub open spec fn reference_size<'a, T: ?Sized + 'a>() -> nat {
    size_of::<&'a T>()
}

/// What the check of a cast from a reference to `From` into a reference to
/// `To` reports: under [`CheckMode::Checked`] a violation where the two
/// references differ in size, else nothing.
pub open spec fn reference_size_violation<'a, From: ?Sized + 'a, To: ?Sized + 'a>(
    checks: CheckMode,
) -> Option<InvariantViolation> {
    if checks == CheckMode::Checked && reference_size::<'a, From>() != reference_size::<'a, To>() {
        Some(
            InvariantViolation::TransmuteUnequalPtrSize {
                from: reference_size::<'a, From>() as usize,
                to: reference_size::<'a, To>() as usize,
            },
        )
    } else {
        None
    }
}

impl<'a, Outer: ?Sized + 'a, Inner: ?Sized + 'a> TransparentWrapperProof<Outer, Inner> {
    /// The check before a cast from a reference to `Outer` into a reference
    /// to `Inner`.
    pub fn check_peel(self, checks: CheckMode) -> (r: Result<(), InvariantViolation>)
        ensures
            r == check_outcome(reference_size_violation::<'a, Outer, Inner>(checks)),
    {
        if checks.is_checked() && self.is_not_same_size() {
            Err(
                InvariantViolation::TransmuteUnequalPtrSize {
                    from: core::mem::size_of::<&'a Outer>(),
                    to: core::mem::size_of::<&'a Inner>(),
                },
            )
        } else {
            Ok(())
        }
    }

    /// The check before a cast from a reference to `Inner` into a reference
    /// to `Outer`.
    pub fn check_wrap(self, checks: CheckMode) -> (r: Result<(), InvariantViolation>)
        ensures
            r == check_outcome(reference_size_violation::<'a, Inner, Outer>(checks)),
    {
        if checks.is_checked() && self.is_not_same_size() {
            Err(
                InvariantViolation::TransmuteUnequalPtrSize {
                    from: core::mem::size_of::<&'a Inner>(),
                    to: core::mem::size_of::<&'a Outer>(),
                },
            )
        } else {
            Ok(())
        }
    }

    /// Whether references to `Outer` and to `Inner` differ in size.
    pub fn is_not_same_size(self) -> (r: bool)
        ensures
            r == (reference_size::<'a, Outer>() != reference_size::<'a, Inner>()),
    {
        core::mem::size_of::<&'a Outer>() != core::mem::size_of::<&'a Inner>()
    }

    /// The message for a cast from a reference to `Outer` into one to
    /// `Inner`, where the two differ in size.
    pub fn panic_peel(self) -> (message: String)
        ensures
            message@ == transmute_unequal_ptr_size_text(
                reference_size::<'a, Outer>(),
                reference_size::<'a, Inner>(),
            ),
    {
        transmute_unequal_ptr_size_panic(
            core::mem::size_of::<&'a Outer>(),
            core::mem::size_of::<&'a Inner>(),
        )
    }

    /// The message for a cast from a reference to `Inner` into one to
    /// `Outer`, where the two differ in size.
    pub fn panic_wrap(self) -> (message: String)
        ensures
            message@ == transmute_unequal_ptr_size_text(
                reference_size::<'a, Inner>(),
                reference_size::<'a, Outer>(),
            ),
    {
        transmute_unequal_ptr_size_panic(
            core::mem::size_of::<&'a Inner>(),
            core::mem::size_of::<&'a Outer>(),
        )
    }
}

} // verus!
