//! Byte representations of values, tagged with the type of the value.
use core::marker::PhantomData;
use vstd::layout::size_of;
use vstd::prelude::*;
use vstd::slice::{slice_subrange, slice_to_vec};

verus! {

/// The outcome `r` with the view of what it holds in place of the value.
pub open spec fn viewed<R: View, E>(r: Result<R, E>) -> Result<R::V, E> {
    match r {
        Ok(value) => Ok(value@),
        Err(error) => Err(error),
    }
}

/// The bytes of one value of `T`, owned.
#[derive(Debug, PartialEq, Eq)]
pub struct Repr<T> {
    bytes: Vec<u8>,
    _subject: PhantomData<T>,
}

impl<T> View for Repr<T> {
    type V = Seq<u8>;

    closed spec fn view(&self) -> Seq<u8> {
        self.bytes@
    }
}

impl<T> Repr<T> {
    #[verifier::type_invariant]
    spec fn well_sized(self) -> bool {
        self.bytes@.len() == size_of::<T>()
    }

    /// Takes `bytes` as the representation of a `T`, if there are as many as
    /// a `T` has.
    pub fn new(bytes: Vec<u8>) -> (r: Option<Self>)
        ensures
            r is Some <==> bytes@.len() == size_of::<T>(),
            r matches Some(value) ==> value@ == bytes@,
    {
        if bytes.len() == core::mem::size_of::<T>() {
            Some(Repr { bytes, _subject: PhantomData })
        } else {
            None
        }
    }

    /// Takes `bytes`, which are as many as a `T` has, as the representation
    /// of a `T`.
    pub(crate) fn from_sized(bytes: Vec<u8>) -> (r: Self)
        requires
            bytes@.len() == size_of::<T>(),
        ensures
            r@ == bytes@,
    {
        Repr { bytes, _subject: PhantomData }
    }

    /// The bytes of the value.
    pub fn as_bytes(&self) -> (bytes: &[u8])
        ensures
            bytes@ == self@,
            bytes@.len() == size_of::<T>(),
    {
        proof {
            use_type_invariant(self);
        }
        self.bytes.as_slice()
    }

    /// Gives up the bytes of the value.
    pub fn into_bytes(self) -> (bytes: Vec<u8>)
        ensures
            bytes@ == self@,
            bytes@.len() == size_of::<T>(),
    {
        proof {
            use_type_invariant(&self);
        }
        self.bytes
    }

    /// Borrows the representation.
    pub fn as_repr_ref(&self) -> (r: ReprRef<'_, T>)
        ensures
            r@ == self@,
    {
        proof {
            use_type_invariant(self);
        }
        ReprRef { bytes: self.bytes.as_slice(), _subject: PhantomData }
    }
}

/// The bytes of one value of `T`, borrowed.
#[derive(Debug, PartialEq, Eq)]
pub struct ReprRef<'a, T> {
    bytes: &'a [u8],
    _subject: PhantomData<T>,
}

impl<'a, T> Clone for ReprRef<'a, T> {
    fn clone(&self) -> (r: Self)
        ensures
            r == *self,
    {
        *self
    }
}

impl<'a, T> Copy for ReprRef<'a, T> {

}

impl<'a, T> View for ReprRef<'a, T> {
    type V = Seq<u8>;

    closed spec fn view(&self) -> Seq<u8> {
        self.bytes@
    }
}

impl<'a, T> ReprRef<'a, T> {
    #[verifier::type_invariant]
    spec fn well_sized(self) -> bool {
        self.bytes@.len() == size_of::<T>()
    }

    /// Takes `bytes` as the representation of a `T`, if there are as many as
    /// a `T` has.
    pub fn new(bytes: &'a [u8]) -> (r: Option<Self>)
        ensures
            r is Some <==> bytes@.len() == size_of::<T>(),
            r matches Some(value) ==> value@ == bytes@,
    {
        if bytes.len() == core::mem::size_of::<T>() {
            Some(ReprRef { bytes, _subject: PhantomData })
        } else {
            None
        }
    }

    /// Takes `bytes`, which are as many as a `T` has, as the representation
    /// of a `T`.
    pub(crate) fn from_sized(bytes: &'a [u8]) -> (r: Self)
        requires
            bytes@.len() == size_of::<T>(),
        ensures
            r@ == bytes@,
    {
        ReprRef { bytes, _subject: PhantomData }
    }

    /// The bytes of the value.
    pub fn as_bytes(&self) -> (bytes: &'a [u8])
        ensures
            bytes@ == self@,
            bytes@.len() == size_of::<T>(),
    {
        proof {
            use_type_invariant(self);
        }
        self.bytes
    }

    /// Copies the bytes into a representation of their own.
    pub fn to_repr(&self) -> (r: Repr<T>)
        ensures
            r@ == self@,
    {
        proof {
            use_type_invariant(self);
        }
        Repr::from_sized(slice_to_vec(self.bytes))
    }
}

/// What a [`ReprSlice`] holds: the number of values and their bytes.
pub struct RunView {
    /// The number of values in the run.
    pub len: nat,
    /// The bytes of the values, one value after the other.
    pub bytes: Seq<u8>,
}

/// The bytes of a run of values of `T`, borrowed, with the number of values.
#[derive(Debug, PartialEq, Eq)]
pub struct ReprSlice<'a, T> {
    len: usize,
    bytes: &'a [u8],
    _subject: PhantomData<T>,
}

impl<'a, T> Clone for ReprSlice<'a, T> {
    fn clone(&self) -> (r: Self)
        ensures
            r == *self,
    {
        *self
    }
}

impl<'a, T> Copy for ReprSlice<'a, T> {

}

impl<'a, T> View for ReprSlice<'a, T> {
    type V = RunView;

    closed spec fn view(&self) -> RunView {
        RunView { len: self.len as nat, bytes: self.bytes@ }
    }
}

impl<'a, T> ReprSlice<'a, T> {
    #[verifier::type_invariant]
    spec fn well_sized(self) -> bool {
        self.bytes@.len() == self.len * size_of::<T>()
    }

    /// Takes `bytes` as the representation of `len` values of `T`, if there
    /// are as many as `len` values have.
    pub fn new(bytes: &'a [u8], len: usize) -> (r: Option<Self>)
        ensures
            r is Some <==> bytes@.len() == len * size_of::<T>(),
            r matches Some(run) ==> run@ == (RunView { len: len as nat, bytes: bytes@ }),
    {
        let given = bytes.len();
        match len.checked_mul(core::mem::size_of::<T>()) {
            Some(byte_len) => {
                if given == byte_len {
                    Some(ReprSlice { len, bytes, _subject: PhantomData })
                } else {
                    None
                }
            },
            None => None,
        }
    }

    /// Takes `bytes`, which are as many as `len` values of `T` have, as their
    /// representation.
    pub(crate) fn from_sized(bytes: &'a [u8], len: usize) -> (r: Self)
        requires
            bytes@.len() == len * size_of::<T>(),
        ensures
            r@ == (RunView { len: len as nat, bytes: bytes@ }),
    {
        ReprSlice { len, bytes, _subject: PhantomData }
    }

    /// The number of values in the run.
    pub fn len(&self) -> (len: usize)
        ensures
            len as nat == self@.len,
            self@.bytes.len() == len * size_of::<T>(),
            len * size_of::<T>() <= usize::MAX,
    {
        proof {
            use_type_invariant(self);
        }
        let _ = self.bytes.len();
        self.len
    }

    /// The bytes of the run.
    pub fn as_bytes(&self) -> (bytes: &'a [u8])
        ensures
            bytes@ == self@.bytes,
            bytes@.len() == self@.len * size_of::<T>(),
    {
        proof {
            use_type_invariant(self);
        }
        self.bytes
    }

    /// The value at `index`, if the run has that many values.
    pub fn get(&self, index: usize) -> (r: Option<ReprRef<'a, T>>)
        ensures
            r is Some <==> index < self@.len,
            r matches Some(value) ==> value@ == self@.element::<T>(index as nat),
    {
        proof {
            use_type_invariant(self);
        }
        if index < self.len {
            let size = core::mem::size_of::<T>();
            let ghost total = self.bytes@.len();
            assert(index * size + size <= total) by (nonlinear_arith)
                requires
                    index < self.len,
                    total == self.len * size,
            ;
            assert((index + 1) * size == index * size + size) by (nonlinear_arith);
            let _ = self.bytes.len();
            let start = index * size;
            Some(ReprRef::from_sized(slice_subrange(self.bytes, start, start + size)))
        } else {
            None
        }
    }
}

impl RunView {
    /// The bytes of the value at `index` in a run of values of `T`.
    pub open spec fn element<T>(self, index: nat) -> Seq<u8> {
        self.bytes.subrange(
            (index * size_of::<T>()) as int,
            ((index + 1) * size_of::<T>()) as int,
        )
    }
}

} // verus!
