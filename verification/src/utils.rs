//! The reinterpretation itself: the same bytes under another subject type.
//!
//! Nothing is compared here. That the two types agree in size is the
//! caller's to show.
use crate::layout::same_size;
use crate::repr::{Repr, ReprRef, ReprSlice, RunView};
use vstd::layout::size_of;
use vstd::prelude::*;

verus! {

/// Hands the bytes of a `T` on as those of a `U`.
pub(crate) fn transmute<T, U>(from: Repr<T>) -> (to: Repr<U>)
    requires
        same_size::<T, U>(),
    ensures
        to@ == from@,
{
    Repr::from_sized(from.into_bytes())
}

/// Hands the borrowed bytes of a `T` on as those of a `U`.
pub(crate) fn transmute_ref<'a, T, U>(from: ReprRef<'a, T>) -> (to: ReprRef<'a, U>)
    requires
        same_size::<T, U>(),
    ensures
        to@ == from@,
{
    ReprRef::from_sized(from.as_bytes())
}

/// Hands the borrowed bytes of a run of `T` on as those of a run of `len`
/// values of `U`.
pub(crate) fn transmute_slice<'a, T, U>(from: ReprSlice<'a, T>, len: usize) -> (to: ReprSlice<
    'a,
    U,
>)
    requires
        from@.len * size_of::<T>() == len * size_of::<U>(),
    ensures
        to@ == (RunView { len: len as nat, bytes: from@.bytes }),
{
    ReprSlice::from_sized(from.as_bytes(), len)
}

} // verus!
