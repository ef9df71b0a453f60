use bytemuck::{AnyBitPattern, NoUninit, Pod};
use constmuck::transmutable::{transmute_into, transmute_ref, transmute_slice};
use constmuck::wrapper::{peel, peel_ref, peel_slice, wrap, wrap_ref, wrap_slice};
use constmuck::{
    CheckMode, InvariantViolation, IsPod, IsTransparentWrapper as ITW, Repr, ReprRef, ReprSlice,
    TransmutableInto as TI, TransparentWrapperProof,
};
use std::num::Wrapping as Wrap;

pub struct Unsized<T: ?Sized>(pub T);

const CHECKED: CheckMode = CheckMode::Checked;

fn repr<T: NoUninit>(value: T) -> Repr<T> {
    Repr::new(bytemuck::bytes_of(&value).to_vec()).unwrap()
}

fn reff<T: NoUninit>(value: &T) -> ReprRef<'_, T> {
    ReprRef::new(bytemuck::bytes_of(value)).unwrap()
}

fn run<T: NoUninit>(values: &[T]) -> ReprSlice<'_, T> {
    ReprSlice::new(bytemuck::cast_slice(values), values.len()).unwrap()
}

fn read<T: AnyBitPattern>(bytes: &[u8]) -> T {
    bytemuck::pod_read_unaligned(bytes)
}

fn value<T: AnyBitPattern>(cast: Result<Repr<T>, InvariantViolation>) -> T {
    read(cast.unwrap().as_bytes())
}

fn pointee<T: AnyBitPattern>(cast: Result<ReprRef<'_, T>, InvariantViolation>) -> T {
    read(cast.unwrap().as_bytes())
}

fn values<T: AnyBitPattern>(cast: Result<ReprSlice<'_, T>, InvariantViolation>) -> Vec<T> {
    let run = cast.unwrap();
    (0..run.len()).map(|i| read(run.get(i).unwrap().as_bytes())).collect()
}

fn is_tw<Outer, Inner>() -> ITW<Outer, Inner> {
    assert!(ITW::<Outer, Inner>::is_transparent_wrapper());
    ITW::new_unchecked()
}

fn pod<Fro: Pod, To: Pod>() -> TI<Fro, To> {
    assert!(TI::<Fro, To>::is_transmutable());
    TI::pod((IsPod::new_unchecked(), IsPod::new_unchecked()))
}

#[test]
fn transmuteinto_pod_test() {
    // broadening alignment
    assert!(!TI::<[u8; 4], u32>::is_transmutable());

    // equal alignment
    drop(pod::<u32, i32>());

    // narrowing alignment
    drop(pod::<u32, [u8; 4]>());

    // different size
    assert!(!TI::<u32, u64>::is_transmutable());
}

#[test]
fn transmuteinto_new_unchecked_test() {
    assert_eq!(value(transmute_into(repr(127u8), TI::<u8, i8>::new_unchecked(), CHECKED)), 127);
    assert_eq!(value(transmute_into(repr(128u8), TI::<u8, i8>::new_unchecked(), CHECKED)), -128);
}

#[test]
fn transmuteinto_join_test() {
    let ti = pod::<u16, i16>().join(pod::<i16, [u8; 2]>());

    assert_eq!(value(transmute_into(repr(127u16), ti, CHECKED)), 127u16.to_ne_bytes());
    assert_eq!(value(transmute_into(repr(128u16), ti, CHECKED)), 128u16.to_ne_bytes());
    assert_eq!(value(transmute_into(repr(2001u16), ti, CHECKED)), 2001u16.to_ne_bytes());
    assert_eq!(value(transmute_into(repr(2511u16), ti, CHECKED)), 2511u16.to_ne_bytes());

    assert_eq!(pointee(transmute_ref(reff(&127u16), ti, CHECKED)), 127u16.to_ne_bytes());
    assert_eq!(pointee(transmute_ref(reff(&128u16), ti, CHECKED)), 128u16.to_ne_bytes());
    assert_eq!(pointee(transmute_ref(reff(&2001u16), ti, CHECKED)), 2001u16.to_ne_bytes());
    assert_eq!(pointee(transmute_ref(reff(&2511u16), ti, CHECKED)), 2511u16.to_ne_bytes());

    let input = [127u16, 128, 2001, 2511];
    assert_eq!(values(transmute_slice(run(&input), ti, CHECKED)), input.map(|x| x.to_ne_bytes()));
}

#[test]
fn transparent_wrapper_new_unchecked_test() {
    assert_eq!(
        value(wrap(repr(127u8), ITW::<Wrap<u8>, u8>::new_unchecked(), CHECKED)),
        Wrap(127u8)
    );
    assert_eq!(
        value(wrap(repr(128u8), ITW::<Wrap<u8>, u8>::new_unchecked(), CHECKED)),
        Wrap(128u8)
    );

    assert_eq!(value(peel(repr(Wrap(21u8)), ITW::<Wrap<u8>, u8>::new_unchecked(), CHECKED)), 21u8);
    assert_eq!(value(peel(repr(Wrap(37u8)), ITW::<Wrap<u8>, u8>::new_unchecked(), CHECKED)), 37u8);
}

#[test]
fn transmute_into_test() {
    assert_eq!(value(transmute_into(repr(0u16), pod::<u16, [u8; 2]>(), CHECKED)), [0, 0]);
    assert_eq!(
        value(transmute_into(repr(12345u16), pod::<u16, [u8; 2]>(), CHECKED)),
        12345u16.to_ne_bytes()
    );
    assert_eq!(
        value(transmute_into(repr(u16::MAX), pod::<u16, [u8; 2]>(), CHECKED)),
        u16::MAX.to_ne_bytes()
    );

    assert_eq!(value(transmute_into(repr(usize::MAX), pod::<usize, isize>(), CHECKED)), -1);
    assert_eq!(value(transmute_into(repr(0), pod::<usize, isize>(), CHECKED)), 0);
    assert_eq!(value(transmute_into(repr(2), pod::<usize, isize>(), CHECKED)), 2);

    assert_eq!(
        value(transmute_into(repr(9), is_tw::<Wrap<i32>, _>().from_inner, CHECKED)),
        Wrap(9)
    );
    assert_eq!(value(transmute_into(repr(Wrap(9)), is_tw::<_, i32>().into_inner, CHECKED)), 9);

    assert_eq!(
        value(transmute_into(repr([u8::MAX, 0, 1, 2]), pod::<[u8; 4], [i8; 4]>(), CHECKED)),
        [-1i8, 0, 1, 2]
    );
    assert_eq!(
        value(transmute_into(repr([u8::MAX, 0, 1, 2]), pod::<u8, i8>().array(), CHECKED)),
        [-1i8, 0, 1, 2]
    );

    assert_eq!(
        value(transmute_into(
            repr([u8::MAX, 0, 1, 2]),
            is_tw::<Wrap<u8>, _>().from_inner.array(),
            CHECKED
        )),
        [u8::MAX, 0, 1, 2].map(Wrap),
    );
    assert_eq!(
        value(transmute_into(
            repr([u8::MAX, 0, 1, 2].map(Wrap)),
            is_tw::<Wrap<u8>, u8>().into_inner.array(),
            CHECKED
        )),
        [u8::MAX, 0, 1, 2],
    );

    assert_eq!(
        transmute_into(repr(128u8), TI::<u8, u64>::new_unchecked(), CHECKED),
        Err(InvariantViolation::TransmuteUnequalSize { from: 1, to: 8 })
    );
}

#[test]
fn transmute_ref_test() {
    assert_eq!(
        pointee(transmute_ref(reff(&u16::MAX), pod::<u16, [u8; 2]>(), CHECKED)),
        u16::MAX.to_ne_bytes()
    );
    assert_eq!(pointee(transmute_ref(reff(&0), pod::<u16, [u8; 2]>(), CHECKED)), [0, 0]);
    assert_eq!(
        pointee(transmute_ref(reff(&2), pod::<u16, [u8; 2]>(), CHECKED)),
        2u16.to_ne_bytes()
    );

    assert_eq!(pointee(transmute_ref(reff(&usize::MAX), pod::<usize, isize>(), CHECKED)), -1);
    assert_eq!(pointee(transmute_ref(reff(&0), pod::<usize, isize>(), CHECKED)), 0);
    assert_eq!(pointee(transmute_ref(reff(&2), pod::<usize, isize>(), CHECKED)), 2);

    assert_eq!(
        pointee(transmute_ref(reff(&9), is_tw::<Wrap<i32>, _>().from_inner, CHECKED)),
        Wrap(9)
    );
    assert_eq!(pointee(transmute_ref(reff(&Wrap(9)), is_tw::<_, i32>().into_inner, CHECKED)), 9);

    assert_eq!(
        pointee(transmute_ref(reff(&[u8::MAX, 0, 1, 2]), pod::<[u8; 4], [i8; 4]>(), CHECKED)),
        [-1i8, 0, 1, 2]
    );
    assert_eq!(
        pointee(transmute_ref(reff(&[u8::MAX, 0, 1, 2]), pod::<u8, i8>().array(), CHECKED)),
        [-1i8, 0, 1, 2]
    );

    assert_eq!(
        pointee(transmute_ref(
            reff(&[u8::MAX, 0, 1, 2]),
            is_tw::<Wrap<u8>, _>().from_inner.array(),
            CHECKED
        )),
        [u8::MAX, 0, 1, 2].map(Wrap),
    );
    assert_eq!(
        pointee(transmute_ref(
            reff(&[u8::MAX, 0, 1, 2].map(Wrap)),
            is_tw::<Wrap<u8>, u8>().into_inner.array(),
            CHECKED
        )),
        [u8::MAX, 0, 1, 2],
    );

    assert_eq!(
        transmute_ref(reff(&128u8), TI::<u8, u64>::new_unchecked(), CHECKED),
        Err(InvariantViolation::TransmuteUnequalAlign { from: 1, to: std::mem::align_of::<u64>() })
    );
    assert_eq!(
        transmute_ref(reff(&128u8), TI::<u8, [u8; 8]>::new_unchecked(), CHECKED),
        Err(InvariantViolation::TransmuteUnequalSize { from: 1, to: 8 })
    );
    // different pointer sizes
    assert_eq!(
        TI::<str, ()>::new_unchecked().check_reference_size(CHECKED),
        Err(InvariantViolation::TransmuteUnequalPtrSize {
            from: std::mem::size_of::<&str>(),
            to: std::mem::size_of::<&()>(),
        })
    );
    assert_eq!(TI::<str, [u8]>::new_unchecked().check_reference_size(CHECKED), Ok(()));
    assert_eq!(
        TI::<str, ()>::new_unchecked().check_reference_size(CheckMode::Unchecked),
        Ok(())
    );
}

#[test]
fn transmute_slice_test() {
    assert_eq!(
        values(transmute_slice(run(&[u8::MAX, 0, 1, 2]), pod::<u8, i8>(), CHECKED)),
        [-1i8, 0, 1, 2]
    );

    assert_eq!(
        values(transmute_slice(
            run(&[u16::MAX, 0, 1, 2, 12345]),
            pod::<u16, [u8; 2]>(),
            CHECKED
        )),
        [u16::MAX, 0, 1, 2, 12345].map(|x| x.to_ne_bytes())
    );

    assert_eq!(
        values(transmute_slice(
            run(&[u8::MAX, 0, 1, 2]),
            is_tw::<Wrap<u8>, u8>().from_inner,
            CHECKED
        )),
        [Wrap(u8::MAX), Wrap(0), Wrap(1), Wrap(2)]
    );
    assert_eq!(
        values(transmute_slice(
            run(&[Wrap(u8::MAX), Wrap(0), Wrap(1), Wrap(2)]),
            is_tw::<Wrap<u8>, u8>().into_inner,
            CHECKED
        )),
        [u8::MAX, 0, 1, 2]
    );

    assert_eq!(
        transmute_slice(run(&[128u8]), TI::<u8, [u8; 8]>::new_unchecked(), CHECKED),
        Err(InvariantViolation::TransmuteUnequalSize { from: 1, to: 8 })
    );
}

#[test]
fn wrapper_from_ti_test() {
    let itw: ITW<u8, i8> = ITW::from_ti(pod(), pod());

    assert_eq!(value(wrap(repr(-1), itw, CHECKED)), 255);
    assert_eq!(pointee(wrap_ref(reff(&-2), itw, CHECKED)), 254);
    assert_eq!(values(wrap_slice(run(&[-3, 3]), itw, CHECKED)), [253, 3]);
    assert_eq!(value(peel(repr(128), itw, CHECKED)), -128);
    assert_eq!(pointee(peel_ref(reff(&129), itw, CHECKED)), -127);
    assert_eq!(values(peel_slice(run(&[254, 1]), itw, CHECKED)), [-2, 1]);
}

#[test]
fn wrapper_join_test() {
    let itw: ITW<Wrap<Wrap<u32>>, u32> =
        is_tw::<Wrap<Wrap<u32>>, Wrap<u32>>().join(is_tw::<Wrap<u32>, u32>());

    assert_eq!(value(wrap(repr(3), itw, CHECKED)), Wrap(Wrap(3)));
    assert_eq!(pointee(wrap_ref(reff(&5), itw, CHECKED)), Wrap(Wrap(5)));
    assert_eq!(values(wrap_slice(run(&[8, 13]), itw, CHECKED)), [Wrap(Wrap(8)), Wrap(Wrap(13))]);
    assert_eq!(value(peel(repr(Wrap(Wrap(21))), itw, CHECKED)), 21);
    assert_eq!(pointee(peel_ref(reff(&Wrap(Wrap(34))), itw, CHECKED)), 34);
    assert_eq!(values(peel_slice(run(&[Wrap(Wrap(55)), Wrap(Wrap(89))]), itw, CHECKED)), [55, 89]);
}

#[test]
fn transmute_and_wrapper_peel_test() {
    assert_eq!(value::<[u8; 5]>(peel(repr(Wrap(*b"hello")), is_tw(), CHECKED)), *b"hello");
    assert_eq!(
        value::<[u8; 5]>(peel(repr(Wrap(*b"hello")), ITW::new_unchecked(), CHECKED)),
        *b"hello"
    );
    assert_eq!(value::<[u8; 3]>(peel(repr(Wrap(*b"foo")), is_tw(), CHECKED)), *b"foo");
    assert_eq!(
        value::<u8>(peel(repr(Wrap(false as u8)), is_tw::<Wrap<_>, _>(), CHECKED)),
        false as u8
    );
    assert_eq!(
        value::<u32>(peel(repr(Wrap('A' as u32)), is_tw::<Wrap<_>, _>(), CHECKED)),
        'A' as u32
    );
    assert_eq!(value::<[u8; 3]>(peel(repr(Wrap(*b"baz")), is_tw::<Wrap<_>, _>(), CHECKED)), *b"baz");
    assert_eq!(value::<[u8; 3]>(peel(repr(Wrap(*b"baz")), is_tw::<Wrap<_>, _>(), CHECKED)), *b"baz");

    assert_eq!(
        value::<[[u8; 5]; 2]>(peel(repr(Wrap([*b"hello", *b"world"])), is_tw(), CHECKED)),
        [*b"hello", *b"world"]
    );
    assert_eq!(
        value::<[[u8; 5]; 2]>(peel(
            repr([*b"hello", *b"world"].map(Wrap)),
            is_tw::<Wrap<[u8; 5]>, [u8; 5]>().array(),
            CHECKED
        )),
        [*b"hello", *b"world"]
    );

    assert_eq!(
        peel(repr(Wrap(*b"baz")), ITW::<_, u8>::new_unchecked(), CHECKED),
        Err(InvariantViolation::TransmuteUnequalSize { from: 3, to: 1 })
    );
}

#[test]
fn transmute_and_wrapper_peel_ref_test() {
    assert_eq!(pointee::<u8>(peel_ref(reff(&Wrap(true as u8)), is_tw(), CHECKED)), true as u8);
    assert_eq!(pointee::<i32>(peel_ref(reff(&Wrap(100)), is_tw(), CHECKED)), 100);

    assert_eq!(pointee::<[i32; 2]>(peel_ref(reff(&Wrap([100, 200])), is_tw(), CHECKED)), [100, 200]);
    assert_eq!(
        pointee::<[i32; 2]>(peel_ref(
            reff(&[100, 200].map(Wrap)),
            is_tw::<Wrap<i32>, i32>().array(),
            CHECKED
        )),
        [100, 200]
    );

    assert_eq!(
        peel_ref(reff(&Wrap(*b"baz")), ITW::<_, u8>::new_unchecked(), CHECKED),
        Err(InvariantViolation::TransmuteUnequalSize { from: 3, to: 1 })
    );
    // different pointer sizes
    assert_eq!(
        TransparentWrapperProof::<Unsized<[u8]>, ()>::new_unchecked().check_peel(CHECKED),
        Err(InvariantViolation::TransmuteUnequalPtrSize {
            from: std::mem::size_of::<&[u8]>(),
            to: std::mem::size_of::<&()>(),
        })
    );
}

#[test]
fn transmute_and_wrapper_peel_slice_test() {
    assert_eq!(
        values::<u8>(peel_slice(run(&[true as u8, false as u8].map(Wrap)), is_tw(), CHECKED)),
        [true as u8, false as u8]
    );
    assert_eq!(
        values::<i32>(peel_slice(run(&[123, 456].map(Wrap)), is_tw(), CHECKED)),
        [123, 456]
    );

    assert_eq!(
        peel_slice(run(&[Wrap(*b"baz")]), ITW::<_, u8>::new_unchecked(), CHECKED),
        Err(InvariantViolation::TransmuteUnequalSize { from: 3, to: 1 })
    );
}

#[test]
fn transmute_and_wrapper_wrap_test() {
    assert_eq!(value(wrap(repr(*b"hello"), is_tw::<Wrap<_>, _>(), CHECKED)), Wrap(*b"hello"));
    assert_eq!(
        value(wrap(repr([*b"hello", *b"world"]), is_tw::<Wrap<_>, _>(), CHECKED)),
        Wrap([*b"hello", *b"world"])
    );
    assert_eq!(
        value(wrap(repr([*b"hello", *b"world"]), is_tw::<Wrap<_>, _>().array(), CHECKED)),
        [*b"hello", *b"world"].map(Wrap)
    );

    assert_eq!(
        wrap(repr(10), ITW::<Wrap<u8>, u16>::new_unchecked(), CHECKED),
        Err(InvariantViolation::TransmuteUnequalSize { from: 2, to: 1 })
    );
}

#[test]
fn transmute_and_wrapper_wrap_ref_test() {
    assert_eq!(
        pointee(wrap_ref(reff(&(true as u8)), is_tw::<Wrap<_>, _>(), CHECKED)),
        Wrap(true as u8)
    );
    assert_eq!(pointee(wrap_ref(reff(&100), is_tw::<Wrap<_>, _>(), CHECKED)), Wrap(100));

    assert_eq!(
        pointee(wrap_ref(reff(&[100, 200]), is_tw::<Wrap<_>, _>(), CHECKED)),
        Wrap([100, 200])
    );
    assert_eq!(
        pointee(wrap_ref(reff(&[100, 200]), is_tw::<Wrap<_>, _>().array(), CHECKED)),
        [100, 200].map(Wrap)
    );

    assert_eq!(
        wrap_ref(reff(&10), ITW::<Wrap<u8>, u16>::new_unchecked(), CHECKED),
        Err(InvariantViolation::TransmuteUnequalSize { from: 2, to: 1 })
    );

    // different pointer sizes
    assert_eq!(
        TransparentWrapperProof::<Wrap<u8>, [u8]>::new_unchecked().check_wrap(CHECKED),
        Err(InvariantViolation::TransmuteUnequalPtrSize {
            from: std::mem::size_of::<&[u8]>(),
            to: std::mem::size_of::<&Wrap<u8>>(),
        })
    );
}

#[test]
fn transmute_and_wrapper_wrap_slice_test() {
    assert_eq!(
        values(wrap_slice(run(&[true as u8, false as u8]), is_tw::<Wrap<_>, _>(), CHECKED)),
        [true as u8, false as u8].map(Wrap)
    );
    assert_eq!(
        values(wrap_slice(run(&[123, 456]), is_tw::<Wrap<_>, _>(), CHECKED)),
        [123, 456].map(Wrap)
    );

    assert_eq!(
        wrap_slice(run(&[10]), ITW::<Wrap<u8>, u16>::new_unchecked(), CHECKED),
        Err(InvariantViolation::TransmuteUnequalSize { from: 2, to: 1 })
    );
}
