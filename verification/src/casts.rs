//! The invariant checks, and the casts that the marker-gated functions
//! share: the checks of the mode, then the reinterpretation.
use crate::checks::{CheckMode, InvariantViolation};
use crate::layout::{at_least_as_aligned, same_size};
use crate::repr::{viewed, Repr, ReprRef, ReprSlice};
use vstd::layout::{align_of, size_of};
use vstd::prelude::*;

verus! {

/// What the size check of a cast from `From` into `To` reports: under
/// [`CheckMode::Checked`] a violation where the sizes differ, else nothing.
pub open spec fn size_violation<From, To>(checks: CheckMode) -> Option<InvariantViolation> {
    if checks == CheckMode::Checked && !same_size::<From, To>() {
        Some(
            InvariantViolation::TransmuteUnequalSize {
                from: size_of::<From>() as usize,
                to: size_of::<To>() as usize,
            },
        )
    } else {
        None
    }
}

/// What the alignment check of a cast behind a reference from `From` into
/// `To` reports: under [`CheckMode::Checked`] a violation where `From` is less
/// aligned than `To`, else nothing.
pub open spec fn align_violation<From, To>(checks: CheckMode) -> Option<InvariantViolation> {
    if checks == CheckMode::Checked && !at_least_as_aligned::<From, To>() {
        Some(
            InvariantViolation::TransmuteUnequalAlign {
                from: align_of::<From>() as usize,
                to: align_of::<To>() as usize,
            },
        )
    } else {
        None
    }
}

/// What the checks of a cast by value report: the size check.
pub open spec fn value_violation<From, To>(checks: CheckMode) -> Option<InvariantViolation> {
    size_violation::<From, To>(checks)
}

/// What the checks of a cast behind a reference or of a slice report: the
/// alignment check, and where that passes the size check.
pub open spec fn reference_violation<From, To>(checks: CheckMode) -> Option<InvariantViolation> {
    if align_violation::<From, To>(checks) is Some {
        align_violation::<From, To>(checks)
    } else {
        size_violation::<From, To>(checks)
    }
}

/// The outcome of a check that reported `violation`.
pub open spec fn check_outcome(violation: Option<InvariantViolation>) -> Result<
    (),
    InvariantViolation,
> {
    match violation {
        Some(found) => Err(found),
        None => Ok(()),
    }
}

/// The outcome of a cast on which the checks reported `violation`: the
/// violation, or else what was to be cast, unchanged.
pub open spec fn cast_outcome<V>(violation: Option<InvariantViolation>, subject: V) -> Result<
    V,
    InvariantViolation,
> {
    match violation {
        Some(found) => Err(found),
        None => Ok(subject),
    }
}

/// The size contract: under [`CheckMode::Checked`] every cast between types
/// of different sizes, by value, behind a reference or of a slice, reports a
/// violation, whatever the bytes are; a cast by value between types of the
/// same size reports none.
pub proof fn lemma_size_contract<From, To>()
    ensures
        !same_size::<From, To>() ==> value_violation::<From, To>(CheckMode::Checked) is Some
            && reference_violation::<From, To>(CheckMode::Checked) is Some,
        same_size::<From, To>() ==> value_violation::<From, To>(CheckMode::Checked) is None,
{
}

/// The alignment contract: under [`CheckMode::Checked`] a cast behind a
/// reference or of a slice reports the alignments where `From` is less
/// aligned than `To`. Where `From` is at least as aligned as `To` and as
/// large, it reports nothing: no address plays a part.
pub proof fn lemma_alignment_contract<From, To>()
    ensures
        !at_least_as_aligned::<From, To>() ==> reference_violation::<From, To>(CheckMode::Checked)
            == Some(
            InvariantViolation::TransmuteUnequalAlign {
                from: align_of::<From>() as usize,
                to: align_of::<To>() as usize,
            },
        ),
        at_least_as_aligned::<From, To>() && same_size::<From, To>() ==> reference_violation::<
            From,
            To,
        >(CheckMode::Checked) is None,
{
}

/// With the checks left out nothing is compared and nothing reported.
pub proof fn lemma_unchecked_reports_nothing<From, To>()
    ensures
        value_violation::<From, To>(CheckMode::Unchecked) is None,
        reference_violation::<From, To>(CheckMode::Unchecked) is None,
{
}

/// The size check of a cast from `From` into `To`.
pub fn check_size<From, To>(checks: CheckMode) -> (r: Result<(), InvariantViolation>)
    ensures
        r == check_outcome(size_violation::<From, To>(checks)),
{
    if checks.is_checked() && core::mem::size_of::<From>() != core::mem::size_of::<To>() {
        Err(
            InvariantViolation::TransmuteUnequalSize {
                from: core::mem::size_of::<From>(),
                to: core::mem::size_of::<To>(),
            },
        )
    } else {
        Ok(())
    }
}

/// The alignment check of a cast behind a reference from `From` into `To`.
pub fn check_alignment<From, To>(checks: CheckMode) -> (r: Result<(), InvariantViolation>)
    ensures
        r == check_outcome(align_violation::<From, To>(checks)),
{
    if checks.is_checked() && core::mem::align_of::<From>() < core::mem::align_of::<To>() {
        Err(
            InvariantViolation::TransmuteUnequalAlign {
                from: core::mem::align_of::<From>(),
                to: core::mem::align_of::<To>(),
            },
        )
    } else {
        Ok(())
    }
}

/// The checks before a cast by value from `From` into `To`.
pub fn check_value_cast<From, To>(checks: CheckMode) -> (r: Result<(), InvariantViolation>)
    ensures
        r == check_outcome(value_violation::<From, To>(checks)),
{
    check_size::<From, To>(checks)
}

/// The checks before a cast behind a reference, or of a slice, from `From`
/// into `To`.
pub fn check_reference_cast<From, To>(checks: CheckMode) -> (r: Result<(), InvariantViolation>)
    ensures
        r == check_outcome(reference_violation::<From, To>(checks)),
{
    match check_alignment::<From, To>(checks) {
        Ok(()) => check_size::<From, To>(checks),
        Err(found) => Err(found),
    }
}

/// Casts a value: the checks, then the reinterpretation.
pub(crate) fn checked_transmute<From, To>(value: Repr<From>, checks: CheckMode) -> (r: Result<
    Repr<To>,
    InvariantViolation,
>)
    requires
        checks == CheckMode::Unchecked ==> same_size::<From, To>(),
    ensures
        viewed(r) == cast_outcome(value_violation::<From, To>(checks), value@),
{
    match check_value_cast::<From, To>(checks) {
        Ok(()) => Ok(crate::utils::transmute(value)),
        Err(found) => Err(found),
    }
}

/// Casts behind a reference: the checks, then the reinterpretation.
pub(crate) fn checked_transmute_ref<'a, From, To>(value: ReprRef<'a, From>, checks: CheckMode) -> (r:
    Result<ReprRef<'a, To>, InvariantViolation>)
    requires
        checks == CheckMode::Unchecked ==> same_size::<From, To>() && at_least_as_aligned::<
            From,
            To,
        >(),
    ensures
        viewed(r) == cast_outcome(reference_violation::<From, To>(checks), value@),
{
    match check_reference_cast::<From, To>(checks) {
        Ok(()) => Ok(crate::utils::transmute_ref(value)),
        Err(found) => Err(found),
    }
}

/// Casts a slice, element for element: the checks, then the
/// reinterpretation.
pub(crate) fn checked_transmute_slice<'a, From, To>(
    value: ReprSlice<'a, From>,
    checks: CheckMode,
) -> (r: Result<ReprSlice<'a, To>, InvariantViolation>)
    requires
        checks == CheckMode::Unchecked ==> same_size::<From, To>() && at_least_as_aligned::<
            From,
            To,
        >(),
    ensures
        viewed(r) == cast_outcome(reference_violation::<From, To>(checks), value@),
{
    match check_reference_cast::<From, To>(checks) {
        Ok(()) => {
            let len = value.len();
            Ok(crate::utils::transmute_slice(value, len))
        },
        Err(found) => Err(found),
    }
}

} // verus!
