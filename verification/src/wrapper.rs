//! Wrapping a value in a transparent wrapper, and peeling the wrapper off.
use crate::checks::{CheckMode, InvariantViolation};
use crate::layout::same_size;
use crate::proof_types::TransparentWrapperProof;
use crate::repr::{viewed, Repr, ReprRef, ReprSlice, RunView};
use crate::transmutable::{
    transmutable, transmute_into, transmute_into_result, transmute_ref, transmute_ref_result,
    transmute_slice, transmute_slice_result, TransmutableInto,
};
use vstd::prelude::*;

verus! {

/// Stands for the claim that `Outer` is a transparent wrapper around
/// `Inner`: the two share one layout, so that either can be reinterpreted as
/// the other.
#[derive(Debug)]
pub struct IsTransparentWrapper<Outer: ?Sized, Inner: ?Sized> {
    /// For the cast from `Inner` into `Outer`.
    pub from_inner: TransmutableInto<Inner, Outer>,
    /// For the cast from `Outer` into `Inner`.
    pub into_inner: TransmutableInto<Outer, Inner>,
    /// For casts between references to unsized types.
    pub _transparent_wrapper_proof: TransparentWrapperProof<Outer, Inner>,
}

/// What an [`IsTransparentWrapper`] claims of the layouts: an `Inner` can
/// be reinterpreted as an `Outer` and an `Outer` as an `Inner`, so the two
/// types have the same size and the same alignment.
pub open spec fn transparent_wrapper<Outer, Inner>() -> bool {
    transmutable::<Inner, Outer>() && transmutable::<Outer, Inner>()
}

impl<Outer: ?Sized, Inner: ?Sized> Clone for IsTransparentWrapper<Outer, Inner> {
    fn clone(&self) -> (r: Self) {
        *self
    }
}

impl<Outer: ?Sized, Inner: ?Sized> Copy for IsTransparentWrapper<Outer, Inner> {

}

impl<T> IsTransparentWrapper<T, T> {
    /// The marker that a type wraps itself, with which a bare value passes
    /// for a wrapper around it.
    pub fn identity() -> (r: Self)
        ensures
            transparent_wrapper::<T, T>(),
    {
        IsTransparentWrapper::new_unchecked()
    }
}

impl<Outer: ?Sized, Inner: ?Sized> IsTransparentWrapper<Outer, Inner> {
    /// Makes the marker without any check: that `Outer` wraps `Inner`
    /// transparently is the caller's claim.
    pub fn new_unchecked() -> (r: Self) {
        IsTransparentWrapper {
            from_inner: TransmutableInto::new_unchecked(),
            into_inner: TransmutableInto::new_unchecked(),
            _transparent_wrapper_proof: TransparentWrapperProof::new_unchecked(),
        }
    }
}

impl<Outer, Inner> IsTransparentWrapper<Outer, Inner> {

    /// Makes the marker for two types that share one layout.
    pub fn new() -> (r: Self)
        requires
            transparent_wrapper::<Outer, Inner>(),
    {
        IsTransparentWrapper::new_unchecked()
    }

    /// Whether the layouts of `Outer` and `Inner` are as the marker claims.
    pub fn is_transparent_wrapper() -> (r: bool)
        ensures
            r == transparent_wrapper::<Outer, Inner>(),
    {
        TransmutableInto::<Inner, Outer>::is_transmutable() && TransmutableInto::<
            Outer,
            Inner,
        >::is_transmutable()
    }

    /// Makes the marker out of the markers of the two directions.
    pub fn from_ti(
        from_inner: TransmutableInto<Inner, Outer>,
        into_inner: TransmutableInto<Outer, Inner>,
    ) -> (r: Self)
        ensures
            r.from_inner == from_inner,
            r.into_inner == into_inner,
    {
        IsTransparentWrapper {
            from_inner,
            into_inner,
            _transparent_wrapper_proof: TransparentWrapperProof::new_unchecked(),
        }
    }

    /// Chains this marker with one for `Inner` around `Nested`: `Outer`
    /// wraps `Nested`, without passing through an `Inner`.
    ///
    /// What the two markers claim holds of the ends.
    pub fn join<Nested>(self, other: IsTransparentWrapper<Inner, Nested>) -> (r:
        IsTransparentWrapper<Outer, Nested>)
        ensures
            transparent_wrapper::<Outer, Inner>() && transparent_wrapper::<Inner, Nested>()
                ==> transparent_wrapper::<Outer, Nested>(),
    {
        IsTransparentWrapper {
            from_inner: other.from_inner.join(self.from_inner),
            into_inner: self.into_inner.join(other.into_inner),
            _transparent_wrapper_proof: TransparentWrapperProof::new_unchecked(),
        }
    }

    /// Lifts the marker to arrays of `LEN` elements.
    ///
    /// The layouts of the arrays agree where those of the elements do.
    pub fn array<const LEN: usize>(self) -> (r: IsTransparentWrapper<[Outer; LEN], [Inner; LEN]>)
        ensures
            transparent_wrapper::<Outer, Inner>() ==> transparent_wrapper::<
                [Outer; LEN],
                [Inner; LEN],
            >(),
    {
        IsTransparentWrapper {
            from_inner: self.from_inner.array::<LEN>(),
            into_inner: self.into_inner.array::<LEN>(),
            _transparent_wrapper_proof: TransparentWrapperProof::new_unchecked(),
        }
    }
}

/// The outcome of [`wrap`] on the bytes `val` of an `Inner`.
pub open spec fn wrap_result<Outer, Inner>(val: Seq<u8>, checks: CheckMode) -> Result<
    Seq<u8>,
    InvariantViolation,
> {
    transmute_into_result::<Inner, Outer>(val, checks)
}

/// The outcome of [`wrap_ref`] on the bytes `reff` of an `Inner`.
pub open spec fn wrap_ref_result<Outer, Inner>(reff: Seq<u8>, checks: CheckMode) -> Result<
    Seq<u8>,
    InvariantViolation,
> {
    transmute_ref_result::<Inner, Outer>(reff, checks)
}

/// The outcome of [`wrap_slice`] on the run `reff` of `Inner`.
pub open spec fn wrap_slice_result<Outer, Inner>(reff: RunView, checks: CheckMode) -> Result<
    RunView,
    InvariantViolation,
> {
    transmute_slice_result::<Inner, Outer>(reff, checks)
}

/// The outcome of [`peel`] on the bytes `val` of an `Outer`.
pub open spec fn peel_result<Outer, Inner>(val: Seq<u8>, checks: CheckMode) -> Result<
    Seq<u8>,
    InvariantViolation,
> {
    transmute_into_result::<Outer, Inner>(val, checks)
}

/// The outcome of [`peel_ref`] on the bytes `reff` of an `Outer`.
pub open spec fn peel_ref_result<Outer, Inner>(reff: Seq<u8>, checks: CheckMode) -> Result<
    Seq<u8>,
    InvariantViolation,
> {
    transmute_ref_result::<Outer, Inner>(reff, checks)
}

/// The outcome of [`peel_slice`] on the run `reff` of `Outer`.
pub open spec fn peel_slice_result<Outer, Inner>(reff: RunView, checks: CheckMode) -> Result<
    RunView,
    InvariantViolation,
> {
    transmute_slice_result::<Outer, Inner>(reff, checks)
}

/// Casts an `Inner` to an `Outer`.
pub fn wrap<Outer, Inner>(
    val: Repr<Inner>,
    bounds: IsTransparentWrapper<Outer, Inner>,
    checks: CheckMode,
) -> (r: Result<Repr<Outer>, InvariantViolation>)
    requires
        checks == CheckMode::Unchecked ==> same_size::<Inner, Outer>(),
    ensures
        viewed(r) == wrap_result::<Outer, Inner>(val@, checks),
{
    transmute_into(val, bounds.from_inner, checks)
}

/// Casts a borrowed `Inner` to a borrowed `Outer`.
pub fn wrap_ref<'a, Outer, Inner>(
    reff: ReprRef<'a, Inner>,
    bounds: IsTransparentWrapper<Outer, Inner>,
    checks: CheckMode,
) -> (r: Result<ReprRef<'a, Outer>, InvariantViolation>)
    requires
        checks == CheckMode::Unchecked ==> transmutable::<Inner, Outer>(),
    ensures
        viewed(r) == wrap_ref_result::<Outer, Inner>(reff@, checks),
{
    transmute_ref(reff, bounds.from_inner, checks)
}

/// Casts a borrowed run of `Inner` to a run of as many `Outer`.
pub fn wrap_slice<'a, Outer, Inner>(
    reff: ReprSlice<'a, Inner>,
    bounds: IsTransparentWrapper<Outer, Inner>,
    checks: CheckMode,
) -> (r: Result<ReprSlice<'a, Outer>, InvariantViolation>)
    requires
        checks == CheckMode::Unchecked ==> transmutable::<Inner, Outer>(),
    ensures
        viewed(r) == wrap_slice_result::<Outer, Inner>(reff@, checks),
{
    transmute_slice(reff, bounds.from_inner, checks)
}

/// Casts an `Outer` to an `Inner`.
pub fn peel<Outer, Inner>(
    val: Repr<Outer>,
    bounds: IsTransparentWrapper<Outer, Inner>,
    checks: CheckMode,
) -> (r: Result<Repr<Inner>, InvariantViolation>)
    requires
        checks == CheckMode::Unchecked ==> same_size::<Outer, Inner>(),
    ensures
        viewed(r) == peel_result::<Outer, Inner>(val@, checks),
{
    transmute_into(val, bounds.into_inner, checks)
}

/// Casts a borrowed `Outer` to a borrowed `Inner`.
pub fn peel_ref<'a, Outer, Inner>(
    reff: ReprRef<'a, Outer>,
    bounds: IsTransparentWrapper<Outer, Inner>,
    checks: CheckMode,
) -> (r: Result<ReprRef<'a, Inner>, InvariantViolation>)
    requires
        checks == CheckMode::Unchecked ==> transmutable::<Outer, Inner>(),
    ensures
        viewed(r) == peel_ref_result::<Outer, Inner>(reff@, checks),
{
    transmute_ref(reff, bounds.into_inner, checks)
}

/// Casts a borrowed run of `Outer` to a run of as many `Inner`.
pub fn peel_slice<'a, Outer, Inner>(
    reff: ReprSlice<'a, Outer>,
    bounds: IsTransparentWrapper<Outer, Inner>,
    checks: CheckMode,
) -> (r: Result<ReprSlice<'a, Inner>, InvariantViolation>)
    requires
        checks == CheckMode::Unchecked ==> transmutable::<Outer, Inner>(),
    ensures
        viewed(r) == peel_slice_result::<Outer, Inner>(reff@, checks),
{
    transmute_slice(reff, bounds.into_inner, checks)
}

/// Peeling undoes wrapping, and wrapping undoes peeling: where `Outer`
/// wraps `Inner` transparently, in either mode, by value, behind a reference
/// and for a slice, each cast succeeds and hands on what it was given, so
/// that one after the other gives back the first value.
pub proof fn lemma_wrap_peel_round_trip<Outer, Inner>(
    bytes: Seq<u8>,
    run: RunView,
    checks: CheckMode,
)
    requires
        transparent_wrapper::<Outer, Inner>(),
    ensures
        wrap_slice_result::<Outer, Inner>(run, checks) matches Ok(outer) && peel_slice_result::<
            Outer,
            Inner,
        >(outer, checks) == Ok::<RunView, InvariantViolation>(run),
        peel_slice_result::<Outer, Inner>(run, checks) matches Ok(inner) && wrap_slice_result::<
            Outer,
            Inner,
        >(inner, checks) == Ok::<RunView, InvariantViolation>(run),
        wrap_result::<Outer, Inner>(bytes, checks) matches Ok(outer) && peel_result::<Outer, Inner>(
            outer,
            checks,
        ) == Ok::<Seq<u8>, InvariantViolation>(bytes),
        peel_result::<Outer, Inner>(bytes, checks) matches Ok(inner) && wrap_result::<Outer, Inner>(
            inner,
            checks,
        ) == Ok::<Seq<u8>, InvariantViolation>(bytes),
        wrap_ref_result::<Outer, Inner>(bytes, checks) matches Ok(outer) && peel_ref_result::<
            Outer,
            Inner,
        >(outer, checks) == Ok::<Seq<u8>, InvariantViolation>(bytes),
        peel_ref_result::<Outer, Inner>(bytes, checks) matches Ok(inner) && wrap_ref_result::<
            Outer,
            Inner,
        >(inner, checks) == Ok::<Seq<u8>, InvariantViolation>(bytes),
{
}

/// The round trip of arrays: where the marker lifted to arrays of `LEN`
/// elements holds, as it does after [`IsTransparentWrapper::array`] on a
/// marker that holds, wrapping and peeling whole arrays undo each other.
pub proof fn lemma_wrap_peel_round_trip_array<Outer, Inner, const LEN: usize>(
    bytes: Seq<u8>,
    run: RunView,
    checks: CheckMode,
)
    requires
        transparent_wrapper::<[Outer; LEN], [Inner; LEN]>(),
    ensures
        wrap_slice_result::<[Outer; LEN], [Inner; LEN]>(run, checks) matches Ok(outer)
            && peel_slice_result::<[Outer; LEN], [Inner; LEN]>(outer, checks) == Ok::<
            RunView,
            InvariantViolation,
        >(run),
        peel_slice_result::<[Outer; LEN], [Inner; LEN]>(run, checks) matches Ok(inner)
            && wrap_slice_result::<[Outer; LEN], [Inner; LEN]>(inner, checks) == Ok::<
            RunView,
            InvariantViolation,
        >(run),
        wrap_result::<[Outer; LEN], [Inner; LEN]>(bytes, checks) matches Ok(outer) && peel_result::<
            [Outer; LEN],
            [Inner; LEN],
        >(outer, checks) == Ok::<Seq<u8>, InvariantViolation>(bytes),
        peel_result::<[Outer; LEN], [Inner; LEN]>(bytes, checks) matches Ok(inner) && wrap_result::<
            [Outer; LEN],
            [Inner; LEN],
        >(inner, checks) == Ok::<Seq<u8>, InvariantViolation>(bytes),
        wrap_ref_result::<[Outer; LEN], [Inner; LEN]>(bytes, checks) matches Ok(outer)
            && peel_ref_result::<[Outer; LEN], [Inner; LEN]>(outer, checks) == Ok::<
            Seq<u8>,
            InvariantViolation,
        >(bytes),
        peel_ref_result::<[Outer; LEN], [Inner; LEN]>(bytes, checks) matches Ok(inner)
            && wrap_ref_result::<[Outer; LEN], [Inner; LEN]>(inner, checks) == Ok::<
            Seq<u8>,
            InvariantViolation,
        >(bytes),
{
    lemma_wrap_peel_round_trip::<[Outer; LEN], [Inner; LEN]>(bytes, run, checks);
}

} // verus!
