//! Making marker values without naming their type.
use vstd::prelude::*;

verus! {

/// For constructing marker values, and tuples of them.
///
/// A type has one inferred value: every call of [`Infer::infer`] gives
/// [`Infer::inferred`].
pub trait Infer: Sized {
    /// The value that [`Infer::infer`] constructs.
    spec fn inferred() -> Self;

    /// Constructs this type.
    fn infer() -> (r: Self)
        ensures
            r == Self::inferred(),
    ;
}

impl Infer for () {
    open spec fn inferred() -> Self {
        ()
    }

    fn infer() -> (r: Self) {
        ()
    }
}

impl<A: Infer> Infer for (A,) {
    open spec fn inferred() -> Self {
        (A::inferred(),)
    }

    fn infer() -> (r: Self) {
        (A::infer(),)
    }
}

impl<A: Infer, B: Infer> Infer for (A, B) {
    open spec fn inferred() -> Self {
        (A::inferred(), B::inferred())
    }

    fn infer() -> (r: Self) {
        (A::infer(), B::infer())
    }
}

impl<A: Infer, B: Infer, C: Infer> Infer for (A, B, C) {
    open spec fn inferred() -> Self {
        (A::inferred(), B::inferred(), C::inferred())
    }

    fn infer() -> (r: Self) {
        (A::infer(), B::infer(), C::infer())
    }
}

impl<A: Infer, B: Infer, C: Infer, D: Infer> Infer for (A, B, C, D) {
    open spec fn inferred() -> Self {
        (A::inferred(), B::inferred(), C::inferred(), D::inferred())
    }

    fn infer() -> (r: Self) {
        (A::infer(), B::infer(), C::infer(), D::infer())
    }
}

impl<A: Infer, B: Infer, C: Infer, D: Infer, E: Infer> Infer for (A, B, C, D, E) {
    open spec fn inferred() -> Self {
        (A::inferred(), B::inferred(), C::inferred(), D::inferred(), E::inferred())
    }

    fn infer() -> (r: Self) {
        (A::infer(), B::infer(), C::infer(), D::infer(), E::infer())
    }
}

impl<A: Infer, B: Infer, C: Infer, D: Infer, E: Infer, F: Infer> Infer for (A, B, C, D, E, F) {
    open spec fn inferred() -> Self {
        (A::inferred(), B::inferred(), C::inferred(), D::inferred(), E::inferred(), F::inferred())
    }

    fn infer() -> (r: Self) {
        (A::infer(), B::infer(), C::infer(), D::infer(), E::infer(), F::infer())
    }
}

impl<A: Infer, B: Infer, C: Infer, D: Infer, E: Infer, F: Infer, G: Infer> Infer for (
    A,
    B,
    C,
    D,
    E,
    F,
    G,
) {
    open spec fn inferred() -> Self {
        (A::inferred(), B::inferred(), C::inferred(), D::inferred(), E::inferred(), F::inferred(), G::inferred())
    }

    fn infer() -> (r: Self) {
        (A::infer(), B::infer(), C::infer(), D::infer(), E::infer(), F::infer(), G::infer())
    }
}

impl<A: Infer, B: Infer, C: Infer, D: Infer, E: Infer, F: Infer, G: Infer, H: Infer> Infer for (
    A,
    B,
    C,
    D,
    E,
    F,
    G,
    H,
) {
    open spec fn inferred() -> Self {
        (
            A::inferred(),
            B::inferred(),
            C::inferred(),
            D::inferred(),
            E::inferred(),
            F::inferred(),
            G::inferred(),
            H::inferred(),
        )
    }

    fn infer() -> (r: Self) {
        (
            A::infer(),
            B::infer(),
            C::infer(),
            D::infer(),
            E::infer(),
            F::infer(),
            G::infer(),
            H::infer(),
        )
    }
}

} // verus!
