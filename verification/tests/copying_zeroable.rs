use bytemuck::{AnyBitPattern, NoUninit};
use constmuck::copying::{copy_ts, repeat_ts};
use constmuck::{
    zeroed_array_ts, zeroed_ts, CheckMode, Infer, InvariantViolation, IsCopy, IsZeroable, Repr,
    ReprRef, TypeSize,
};

const CHECKED: CheckMode = CheckMode::Checked;

const PTR_SIZE: usize = std::mem::size_of::<usize>();

fn reff<T: NoUninit>(value: &T) -> ReprRef<'_, T> {
    ReprRef::new(bytemuck::bytes_of(value)).unwrap()
}

fn value<T: AnyBitPattern>(made: Result<Repr<T>, InvariantViolation>) -> T {
    bytemuck::pod_read_unaligned(made.unwrap().as_bytes())
}

fn copy_u32() -> TypeSize<u32, IsCopy<u32>, 4> {
    TypeSize::new_panicking().with_bounds(IsCopy::new())
}

fn zeroable_u32() -> TypeSize<u32, IsZeroable<u32>, 4> {
    TypeSize::new_panicking().with_bounds(IsZeroable::new_unchecked())
}

fn zeroable_ptr<'a>() -> TypeSize<Option<&'a u32>, IsZeroable<Option<&'a u32>>, PTR_SIZE> {
    TypeSize::new_panicking().with_bounds(IsZeroable::new_unchecked())
}

#[test]
fn test_copy() {
    assert_eq!(
        copy_ts(
            reff(&100u64),
            TypeSize::<u64, _, 1>::new_unchecked().with_bounds(Infer::infer()),
            CHECKED
        ),
        Err(InvariantViolation::TransmuteUnequalSize { from: 1, to: 8 })
    );

    assert_eq!(value(copy_ts(reff(&10), copy_u32(), CHECKED)), 10);
}

#[test]
fn test_repeat() {
    assert_eq!(
        repeat_ts::<_, 1, 2>(
            reff(&0u64),
            TypeSize::<u64, _, 1>::new_unchecked().with_bounds(Infer::infer()),
            CHECKED
        ),
        Err(InvariantViolation::TransmuteUnequalSize { from: 2, to: 16 })
    );

    {
        let x: [_; 0] = value(repeat_ts(reff(&10), copy_u32(), CHECKED));
        assert_eq!(x, [10; 0]);
    }
    {
        let x: [_; 1] = value(repeat_ts(reff(&10), copy_u32(), CHECKED));
        assert_eq!(x, [10; 1]);
    }
    {
        let x: [_; 2] = value(repeat_ts(reff(&10), copy_u32(), CHECKED));
        assert_eq!(x, [10; 2]);
    }
    {
        let x: [_; 3] = value(repeat_ts(reff(&10), copy_u32(), CHECKED));
        assert_eq!(x, [10; 3]);
    }
    {
        let x: [_; 3] = value(copy_u32().repeat(reff(&10), CHECKED));
        assert_eq!(x, [10; 3]);
    }
}

#[test]
fn copying_zeroable_zeroable_test() {
    {
        assert_eq!(value(zeroed_ts(zeroable_u32(), CHECKED)), 0u32);
    }
    {
        let arr: [u32; 0] = value(zeroed_array_ts(zeroable_u32(), CHECKED));
        assert_eq!(arr, [0u32; 0]);
    }
    {
        let arr: [u32; 1] = value(zeroed_array_ts(zeroable_u32(), CHECKED));
        assert_eq!(arr, [0u32; 1]);
    }
    {
        let arr: [u32; 2] = value(zeroed_array_ts(zeroable_u32(), CHECKED));
        assert_eq!(arr, [0u32; 2]);
    }
    {
        let arr: [u32; 3] = value(zeroed_array_ts(zeroable_u32(), CHECKED));
        assert_eq!(arr, [0u32; 3]);
    }

    {
        assert_eq!(zeroed_ts(zeroable_ptr(), CHECKED).unwrap().as_bytes(), [0u8; PTR_SIZE]);
    }
    {
        let arr = zeroed_array_ts::<_, PTR_SIZE, 0>(zeroable_ptr(), CHECKED).unwrap();
        assert_eq!(arr.as_bytes(), [0u8; 0]);
    }
    {
        let arr = zeroed_array_ts::<_, PTR_SIZE, 1>(zeroable_ptr(), CHECKED).unwrap();
        assert_eq!(arr.as_bytes(), vec![0u8; PTR_SIZE]);
    }
    {
        let arr = zeroed_array_ts::<_, PTR_SIZE, 2>(zeroable_ptr(), CHECKED).unwrap();
        assert_eq!(arr.as_bytes(), vec![0u8; 2 * PTR_SIZE]);
    }
    {
        let arr = zeroed_array_ts::<_, PTR_SIZE, 3>(zeroable_ptr(), CHECKED).unwrap();
        assert_eq!(arr.as_bytes(), vec![0u8; 3 * PTR_SIZE]);
    }

    assert_eq!(
        zeroed_ts(
            TypeSize::<u64, _, 1>::new_unchecked().with_bounds(IsZeroable::new_unchecked()),
            CHECKED
        ),
        Err(InvariantViolation::TransmuteUnequalSize { from: 1, to: 8 })
    );

    assert_eq!(
        zeroed_array_ts::<u64, 1, 2>(
            TypeSize::<u64, _, 1>::new_unchecked().with_bounds(IsZeroable::new_unchecked()),
            CHECKED
        ),
        Err(InvariantViolation::TransmuteUnequalSize { from: 2, to: 16 })
    );
}
