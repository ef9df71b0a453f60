//! Comparisons of the layouts of two types.
use vstd::layout::{align_of, size_of};
use vstd::prelude::*;

verus! {

/// `T` and `U` have the same size.
pub open spec fn same_size<T, U>() -> bool {
    size_of::<T>() == size_of::<U>()
}

/// `T` is at least as aligned as `U`, so that every address at which a `T`
/// can lie is one at which a `U` can lie.
pub open spec fn at_least_as_aligned<T, U>() -> bool {
    align_of::<T>() >= align_of::<U>()
}

/// Calls `core::mem::size_of` at the array type `[T; N]`. The result is the
/// size of the array, and it is `N` times the size of `T`: the documentation
/// of `size_of` says of every type `T` and length `n` that `[T; n]` has a size
/// of `n * size_of::<T>()`.
#[verifier::external_body]
pub(crate) fn size_of_array<T, const N: usize>() -> (size: usize)
    ensures
        size as nat == size_of::<[T; N]>(),
        size as nat == N * size_of::<T>(),
{
    core::mem::size_of::<[T; N]>()
}

/// Calls `core::mem::align_of` at the array type `[T; N]`. The result is the
/// alignment of the array, and it is that of `T`: an array is laid out as its
/// elements one after the other, with the alignment of the element type.
#[verifier::external_body]
pub(crate) fn align_of_array<T, const N: usize>() -> (align: usize)
    ensures
        align as nat == align_of::<[T; N]>(),
        align as nat == align_of::<T>(),
{
    core::mem::align_of::<[T; N]>()
}

/// The size of `LEN` buffers of `SIZE` bytes, one after the other.
pub(crate) fn size_of_buffers<const SIZE: usize, const LEN: usize>() -> (size: usize)
    ensures
        size == LEN * SIZE,
{
    broadcast use vstd::layout::layout_of_primitives;

    let _ = size_of_array::<u8, SIZE>();
    size_of_array::<[u8; SIZE], LEN>()
}

} // verus!
