//! Values made of zero bytes.
use crate::checks::{CheckMode, InvariantViolation};
use crate::layout::{size_of_array, size_of_buffers};
use crate::repr::{viewed, Repr};
use crate::type_size::{type_size, TypeSize};
use core::marker::PhantomData;
use vstd::layout::size_of;
use vstd::prelude::*;

verus! {

/// Stands for the claim that the bytes of a `T` may all be zero.
#[derive(Debug)]
pub struct IsZeroable<T> {
    _subject: PhantomData<T>,
}

impl<T> Clone for IsZeroable<T> {
    fn clone(&self) -> (r: Self) {
        *self
    }
}

impl<T> Copy for IsZeroable<T> {

}

impl<T> IsZeroable<T> {
    /// Makes the marker without any check: that the bytes of a `T` may all
    /// be zero is the caller's claim.
    pub fn new_unchecked() -> (r: Self) {
        IsZeroable { _subject: PhantomData }
    }

    /// Lifts the marker to arrays of `LEN` elements.
    pub fn array<const LEN: usize>(self) -> (r: IsZeroable<[T; LEN]>) {
        IsZeroable { _subject: PhantomData }
    }
}

/// The size of the largest buffer of [`zeroed`].
pub const ZEROED_MAX_SIZE: usize = 1048576;

/// `len` zero bytes.
pub open spec fn zero_bytes(len: nat) -> Seq<u8> {
    Seq::new(len, |i: int| 0u8)
}

/// The size of the buffer that [`zeroed`] takes the bytes of a type of `size`
/// bytes from: the smallest of the eight that is large enough, if one is.
pub open spec fn buffer_size_for(size: nat) -> Option<nat> {
    if size <= 64 {
        Some(64)
    } else if size <= 256 {
        Some(256)
    } else if size <= 1024 {
        Some(1024)
    } else if size <= 4096 {
        Some(4096)
    } else if size <= 16384 {
        Some(16384)
    } else if size <= 65536 {
        Some(65536)
    } else if size <= 262144 {
        Some(262144)
    } else if size <= 1048576 {
        Some(1048576)
    } else {
        None
    }
}

/// Whether `buffer_size` is the size of one of the eight buffers.
pub open spec fn is_buffer_size(buffer_size: nat) -> bool {
    buffer_size == 64 || buffer_size == 256 || buffer_size == 1024 || buffer_size == 4096
        || buffer_size == 16384 || buffer_size == 65536 || buffer_size == 262144 || buffer_size
        == 1048576
}

/// The buffer that is chosen for a size is one of the eight, holds the
/// size, and is the smallest of the eight that does; none is chosen exactly
/// for the sizes above [`ZEROED_MAX_SIZE`].
pub proof fn lemma_buffer_size_is_smallest(size: nat, other: nat)
    ensures
        buffer_size_for(size) is None <==> size > ZEROED_MAX_SIZE,
        buffer_size_for(size) matches Some(chosen) ==> is_buffer_size(chosen) && size <= chosen,
        buffer_size_for(size) matches Some(chosen) ==> (is_buffer_size(other) && size <= other
            ==> chosen <= other),
{
}

/// The outcome of [`zeroed`] for `T`.
pub open spec fn zeroed_result<T>() -> Result<Seq<u8>, InvariantViolation> {
    if buffer_size_for(size_of::<T>()) is Some {
        Ok(zero_bytes(size_of::<T>()))
    } else {
        Err(
            InvariantViolation::ZeroedTooLarge {
                max_size: ZEROED_MAX_SIZE,
                size: size_of::<T>() as usize,
            },
        )
    }
}

/// The outcome of [`zeroed_ts`] for a `T` that is claimed to be `size`
/// bytes large.
pub open spec fn zeroed_ts_result<T>(size: usize, checks: CheckMode) -> Result<
    Seq<u8>,
    InvariantViolation,
> {
    if checks == CheckMode::Checked && !type_size::<T>(size) {
        Err(InvariantViolation::TransmuteUnequalSize { from: size, to: size_of::<T>() as usize })
    } else {
        Ok(zero_bytes(size_of::<T>()))
    }
}

/// The outcome of [`zeroed_array_ts`] for an array of `len` elements of a
/// `T` that is claimed to be `size` bytes large.
pub open spec fn zeroed_array_ts_result<T>(size: usize, len: usize, checks: CheckMode) -> Result<
    Seq<u8>,
    InvariantViolation,
> {
    if checks == CheckMode::Checked && len * size != len * size_of::<T>() {
        Err(
            InvariantViolation::TransmuteUnequalSize {
                from: (len * size) as usize,
                to: (len * size_of::<T>()) as usize,
            },
        )
    } else {
        Ok(zero_bytes((len * size_of::<T>()) as nat))
    }
}

/// The size of the buffer for a type of `size` bytes: the smallest of the
/// eight buffer sizes that is not below `size`, or `None` where `size` is
/// above them all.
pub fn zeroed_buffer_size(size: usize) -> (r: Option<usize>)
    ensures
        buffer_size_for(size as nat) == (match r {
            Some(chosen) => Some(chosen as nat),
            None => None,
        }),
{
    if size <= 64 {
        Some(64)
    } else if size <= 256 {
        Some(256)
    } else if size <= 1024 {
        Some(1024)
    } else if size <= 4096 {
        Some(4096)
    } else if size <= 16384 {
        Some(16384)
    } else if size <= 65536 {
        Some(65536)
    } else if size <= 262144 {
        Some(262144)
    } else if size <= 1048576 {
        Some(1048576)
    } else {
        None
    }
}

/// Makes a `T` of zero bytes.
///
/// The bytes are taken from the smallest of eight buffers of fixed sizes
/// that holds a `T`. It is reported where `T` is larger than the largest of
/// them, which has [`ZEROED_MAX_SIZE`] bytes.
pub fn zeroed<T>(_bounds: IsZeroable<T>) -> (r: Result<Repr<T>, InvariantViolation>)
    ensures
        viewed(r) == zeroed_result::<T>(),
{
    let size = core::mem::size_of::<T>();
    match zeroed_buffer_size(size) {
        Some(buffer_size) => Ok(zeroed_with_size::<T>(buffer_size)),
        None => Err(InvariantViolation::ZeroedTooLarge { max_size: ZEROED_MAX_SIZE, size }),
    }
}

/// Takes the bytes of a `T` from the front of a buffer of `buffer_size`
/// zero bytes.
fn zeroed_with_size<T>(buffer_size: usize) -> (r: Repr<T>)
    requires
        size_of::<T>() <= buffer_size,
    ensures
        r@ == zero_bytes(size_of::<T>()),
{
    let mut buffer: Vec<u8> = vec![0u8; buffer_size];
    buffer.truncate(core::mem::size_of::<T>());
    assert(buffer@ =~= zero_bytes(size_of::<T>()));
    Repr::from_sized(buffer)
}

/// A zero-filled value is as long as its type and holds no byte but zero,
/// whichever buffer its bytes were taken from; and every type that is not
/// larger than [`ZEROED_MAX_SIZE`] bytes is zero-filled.
pub proof fn lemma_zeroed_is_all_zero<T>()
    ensures
        zeroed_result::<T>() is Ok <==> size_of::<T>() <= ZEROED_MAX_SIZE,
        zeroed_result::<T>() matches Ok(bytes) ==> bytes.len() == size_of::<T>() && forall|i: int|
            0 <= i < bytes.len() ==> bytes[i] == 0,
{
}

/// Makes a `T` of zero bytes, out of a buffer of `SIZE` zero bytes.
///
/// Under [`CheckMode::Checked`] it is reported where `T` is not `SIZE`
/// bytes large.
pub fn zeroed_ts<T, const SIZE: usize>(
    _bounds: TypeSize<T, IsZeroable<T>, SIZE>,
    checks: CheckMode,
) -> (r: Result<Repr<T>, InvariantViolation>)
    requires
        checks == CheckMode::Unchecked ==> type_size::<T>(SIZE),
    ensures
        viewed(r) == zeroed_ts_result::<T>(SIZE, checks),
{
    if checks.is_checked() && SIZE != core::mem::size_of::<T>() {
        Err(InvariantViolation::TransmuteUnequalSize { from: SIZE, to: core::mem::size_of::<T>() })
    } else {
        Ok(zeroed_with_size::<T>(SIZE))
    }
}

/// Makes an array of `LEN` values of `T` of zero bytes, out of `LEN`
/// buffers of `SIZE` zero bytes.
///
/// Under [`CheckMode::Checked`] it is reported where the `LEN` buffers are
/// not as large as the array.
pub fn zeroed_array_ts<T, const SIZE: usize, const LEN: usize>(
    _bounds: TypeSize<T, IsZeroable<T>, SIZE>,
    checks: CheckMode,
) -> (r: Result<Repr<[T; LEN]>, InvariantViolation>)
    requires
        checks == CheckMode::Unchecked ==> type_size::<T>(SIZE),
    ensures
        viewed(r) == zeroed_array_ts_result::<T>(SIZE, LEN, checks),
{
    let buffers_size = size_of_buffers::<SIZE, LEN>();
    let array_size = size_of_array::<T, LEN>();
    if checks.is_checked() && buffers_size != array_size {
        Err(InvariantViolation::TransmuteUnequalSize { from: buffers_size, to: array_size })
    } else {
        let array: Vec<u8> = vec![0u8; array_size];
        assert(array@ =~= zero_bytes((LEN * size_of::<T>()) as nat));
        Ok(Repr::from_sized(array))
    }
}

} // verus!
