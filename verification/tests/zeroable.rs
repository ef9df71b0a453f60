use bytemuck::AnyBitPattern;
use constmuck::zeroable::ZEROED_MAX_SIZE;
use constmuck::{zeroed, zeroed_buffer_size, InvariantViolation, IsZeroable, Repr};

fn value<T: AnyBitPattern>(made: Result<Repr<T>, InvariantViolation>) -> T {
    bytemuck::pod_read_unaligned(made.unwrap().as_bytes())
}

fn zero<T: AnyBitPattern>() -> T {
    value(zeroed(IsZeroable::<T>::new_unchecked()))
}

fn zero_bytes_of<T>() -> Vec<u8> {
    zeroed(IsZeroable::<T>::new_unchecked()).unwrap().into_bytes()
}

fn check_i8() {
    assert_eq!(zero::<i8>(), 0);
    assert_eq!(zero::<[i8; 3]>(), [0; 3]);
    assert_eq!(zero::<[i8; 5]>(), [0; 5]);
    assert_eq!(zero::<[i8; 8]>(), [0; 8]);
    assert_eq!(zero::<[i8; 13]>(), [0; 13]);
    assert_eq!(zero::<[i8; 21]>(), [0; 21]);
    assert_eq!(zero::<[i8; 34]>(), [0; 34]);
    assert_eq!(zero::<[i8; 55]>(), [0; 55]);
    assert_eq!(zero::<[i8; 89]>(), [0; 89]);
    assert_eq!(zero::<[i8; 144]>(), [0; 144]);
    assert_eq!(zero::<[i8; 233]>(), [0; 233]);
    assert_eq!(zero::<[i8; 377]>(), [0; 377]);
}

fn check_char() {
    assert_eq!(char::from_u32(zero::<u32>()), Some('\0'));
    assert_eq!(zero_bytes_of::<[char; 3]>(), [0u8; 3 * 4]);
    assert_eq!(zero_bytes_of::<[char; 5]>(), [0u8; 5 * 4]);
    assert_eq!(zero_bytes_of::<[char; 8]>(), [0u8; 8 * 4]);
    assert_eq!(zero_bytes_of::<[char; 13]>(), [0u8; 13 * 4]);
    assert_eq!(zero_bytes_of::<[char; 21]>(), [0u8; 21 * 4]);
    assert_eq!(zero_bytes_of::<[char; 34]>(), [0u8; 34 * 4]);
    assert_eq!(zero_bytes_of::<[char; 55]>(), [0u8; 55 * 4]);
    assert_eq!(zero_bytes_of::<[char; 89]>(), [0u8; 89 * 4]);
    assert_eq!(zero_bytes_of::<[char; 144]>(), [0u8; 144 * 4]);
    assert_eq!(zero_bytes_of::<[char; 233]>(), [0u8; 233 * 4]);
    assert_eq!(zero_bytes_of::<[char; 377]>(), [0u8; 377 * 4]);
}

fn check_u32() {
    assert_eq!(zero::<u32>(), 0);
    assert_eq!(zero::<[u32; 3]>(), [0; 3]);
    assert_eq!(zero::<[u32; 5]>(), [0; 5]);
    assert_eq!(zero::<[u32; 8]>(), [0; 8]);
    assert_eq!(zero::<[u32; 13]>(), [0; 13]);
    assert_eq!(zero::<[u32; 21]>(), [0; 21]);
    assert_eq!(zero::<[u32; 34]>(), [0; 34]);
    assert_eq!(zero::<[u32; 55]>(), [0; 55]);
    assert_eq!(zero::<[u32; 89]>(), [0; 89]);
    assert_eq!(zero::<[u32; 144]>(), [0; 144]);
    assert_eq!(zero::<[u32; 233]>(), [0; 233]);
    assert_eq!(zero::<[u32; 377]>(), [0; 377]);
}

fn check_reference() {
    const SIZE: usize = std::mem::size_of::<Option<&u32>>();

    assert_eq!(zero_bytes_of::<Option<&u32>>(), [0u8; SIZE]);
    assert_eq!(zero_bytes_of::<[Option<&u32>; 3]>(), vec![0u8; 3 * SIZE]);
    assert_eq!(zero_bytes_of::<[Option<&u32>; 5]>(), vec![0u8; 5 * SIZE]);
    assert_eq!(zero_bytes_of::<[Option<&u32>; 8]>(), vec![0u8; 8 * SIZE]);
    assert_eq!(zero_bytes_of::<[Option<&u32>; 13]>(), vec![0u8; 13 * SIZE]);
    assert_eq!(zero_bytes_of::<[Option<&u32>; 21]>(), vec![0u8; 21 * SIZE]);
    assert_eq!(zero_bytes_of::<[Option<&u32>; 34]>(), vec![0u8; 34 * SIZE]);
    assert_eq!(zero_bytes_of::<[Option<&u32>; 55]>(), vec![0u8; 55 * SIZE]);
    assert_eq!(zero_bytes_of::<[Option<&u32>; 89]>(), vec![0u8; 89 * SIZE]);
    assert_eq!(zero_bytes_of::<[Option<&u32>; 144]>(), vec![0u8; 144 * SIZE]);
    assert_eq!(zero_bytes_of::<[Option<&u32>; 233]>(), vec![0u8; 233 * SIZE]);
    assert_eq!(zero_bytes_of::<[Option<&u32>; 377]>(), vec![0u8; 377 * SIZE]);
}

#[test]
fn zeroable_zeroable_test() {
    check_i8();
    check_char();
    check_u32();
    check_reference();
}

#[test]
fn zeroed_of_large_type() {
    assert_eq!(
        zeroed(IsZeroable::<[u8; 1_048_577]>::new_unchecked()),
        Err(InvariantViolation::ZeroedTooLarge { max_size: 1_048_576, size: 1_048_577 })
    );
    assert_eq!(ZEROED_MAX_SIZE, 1_048_576);
}

fn at_edge<const SIZE: usize>() {
    let made = zeroed(IsZeroable::<[u8; SIZE]>::new_unchecked()).unwrap();
    assert_eq!(made.as_bytes(), vec![0u8; SIZE]);
}

#[test]
fn zeroed_at_the_edges_of_the_buffers() {
    at_edge::<0>();
    at_edge::<1>();
    at_edge::<63>();
    at_edge::<64>();
    at_edge::<65>();
    at_edge::<255>();
    at_edge::<256>();
    at_edge::<257>();
    at_edge::<1023>();
    at_edge::<1024>();
    at_edge::<1025>();
    at_edge::<4095>();
    at_edge::<4096>();
    at_edge::<4097>();
    at_edge::<16383>();
    at_edge::<16384>();
    at_edge::<16385>();
    at_edge::<65535>();
    at_edge::<65536>();
    at_edge::<65537>();
    at_edge::<262143>();
    at_edge::<262144>();
    at_edge::<262145>();
    at_edge::<1048575>();
    at_edge::<1048576>();
}

#[test]
fn the_smallest_buffer_that_is_large_enough() {
    assert_eq!(zeroed_buffer_size(0), Some(64));
    assert_eq!(zeroed_buffer_size(63), Some(64));
    assert_eq!(zeroed_buffer_size(64), Some(64));
    assert_eq!(zeroed_buffer_size(65), Some(256));
    assert_eq!(zeroed_buffer_size(255), Some(256));
    assert_eq!(zeroed_buffer_size(256), Some(256));
    assert_eq!(zeroed_buffer_size(257), Some(1024));
    assert_eq!(zeroed_buffer_size(1023), Some(1024));
    assert_eq!(zeroed_buffer_size(1024), Some(1024));
    assert_eq!(zeroed_buffer_size(1025), Some(4096));
    assert_eq!(zeroed_buffer_size(4095), Some(4096));
    assert_eq!(zeroed_buffer_size(4096), Some(4096));
    assert_eq!(zeroed_buffer_size(4097), Some(16384));
    assert_eq!(zeroed_buffer_size(16383), Some(16384));
    assert_eq!(zeroed_buffer_size(16384), Some(16384));
    assert_eq!(zeroed_buffer_size(16385), Some(65536));
    assert_eq!(zeroed_buffer_size(65535), Some(65536));
    assert_eq!(zeroed_buffer_size(65536), Some(65536));
    assert_eq!(zeroed_buffer_size(65537), Some(262144));
    assert_eq!(zeroed_buffer_size(262143), Some(262144));
    assert_eq!(zeroed_buffer_size(262144), Some(262144));
    assert_eq!(zeroed_buffer_size(262145), Some(1048576));
    assert_eq!(zeroed_buffer_size(1048575), Some(1048576));
    assert_eq!(zeroed_buffer_size(1048576), Some(1048576));
    assert_eq!(zeroed_buffer_size(1048577), None);
    assert_eq!(zeroed_buffer_size(usize::MAX), None);
}
