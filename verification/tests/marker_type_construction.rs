use std::num::Wrapping;

use constmuck::contiguous::IsContiguous;
use constmuck::{
    Infer, IsCopy, IsPod, IsTransparentWrapper, IsZeroable, TransmutableInto, TypeSize,
};

struct NoTraits;

struct Unit;

// what `new` names for a type that the constructor of the marker does not take
trait New {
    fn new() -> Unit {
        Unit
    }
}

impl<T> New for T {}

#[test]
fn is_contiguous_construction() {
    let _: IsContiguous<u32, u32> = IsContiguous::new_unchecked(0, u32::MAX);
    let _: IsContiguous<NoTraits, u8> = IsContiguous::new_unchecked(0, 0);

    let bounds = IsContiguous::<u32, u32>::new_unchecked(3, 5);
    assert_eq!(bounds.min_value(), 3);
    assert_eq!(bounds.max_value(), 5);
}

#[test]
fn is_copy_construction() {
    let _: IsCopy<u32> = IsCopy::<u32>::new();
    let _: Unit = IsCopy::<NoTraits>::new();
    let _: IsCopy<NoTraits> = IsCopy::<NoTraits>::new_unchecked();

    let _: IsCopy<u32> = Infer::infer();
    let _: (IsCopy<u32>, IsCopy<u8>) = Infer::infer();
    let _: () = Infer::infer();
}

#[test]
fn is_pod_construction() {
    let _: IsPod<u32> = IsPod::new_unchecked();
    let _: IsPod<NoTraits> = IsPod::new_unchecked();

    let pod: IsPod<u32> = IsPod::new_unchecked();
    let _: IsCopy<u32> = pod.is_copy;
    let _: IsZeroable<u32> = pod.is_zeroable;
}

#[test]
fn is_transparent_wrapper_construction() {
    let _: IsTransparentWrapper<Wrapping<u32>, u32> = IsTransparentWrapper::new_unchecked();
    let _: IsTransparentWrapper<u32, u32> = IsTransparentWrapper::identity();
    let _: IsTransparentWrapper<NoTraits, NoTraits> = IsTransparentWrapper::identity();

    assert!(IsTransparentWrapper::<Wrapping<u32>, u32>::is_transparent_wrapper());
    assert!(!IsTransparentWrapper::<Wrapping<u32>, u64>::is_transparent_wrapper());
    assert!(IsTransparentWrapper::<NoTraits, NoTraits>::is_transparent_wrapper());

    assert!(TransmutableInto::<Wrapping<u32>, u32>::is_transmutable());
    assert!(TransmutableInto::<u32, Wrapping<u32>>::is_transmutable());
}

#[test]
fn is_zeroable_construction() {
    let _: IsZeroable<u32> = IsZeroable::new_unchecked();
    let _: IsZeroable<NoTraits> = IsZeroable::new_unchecked();
    let _: IsZeroable<[u32; 3]> = IsZeroable::<u32>::new_unchecked().array();
}

#[test]
fn type_size_construction() {
    let _: TypeSize<u32, (), 4> = TypeSize::new_panicking();
    let _: TypeSize<u32, (), 4> = TypeSize::new_unchecked();
    let _: Unit = TypeSize::<u32, (), 4>::new();

    assert!(TypeSize::<u32, (), 4>::is_type_size());
    assert!(!TypeSize::<u32, (), 8>::is_type_size());
}
