use std::sync::atomic::Ordering;

use synchrony::atomic::{
    AtomicI16, AtomicI32, AtomicI64, AtomicI8, AtomicIsize, AtomicU16, AtomicU32, AtomicU64,
    AtomicU8, AtomicUsize,
};

#[test]
fn atomic_u8_fetch_add_wraps() {
    let mut a = AtomicU8::new(250);
    assert_eq!(a.fetch_add(10, Ordering::SeqCst), 250);
    assert_eq!(a.load(Ordering::SeqCst), 4);
}

#[test]
fn atomic_u16_fetch_sub_wraps() {
    let mut a = AtomicU16::new(3);
    assert_eq!(a.fetch_sub(5, Ordering::SeqCst), 3);
    assert_eq!(a.load(Ordering::SeqCst), u16::MAX - 1);
}

#[test]
fn atomic_i8_add_and_sub_wrap() {
    let mut a = AtomicI8::new(i8::MAX);
    assert_eq!(a.fetch_add(1, Ordering::SeqCst), i8::MAX);
    assert_eq!(a.load(Ordering::SeqCst), i8::MIN);
    assert_eq!(a.fetch_sub(1, Ordering::SeqCst), i8::MIN);
    assert_eq!(a.load(Ordering::SeqCst), i8::MAX);
}

#[test]
fn atomic_u32_bitwise() {
    let mut a = AtomicU32::new(0b1100);
    assert_eq!(a.fetch_and(0b1010, Ordering::SeqCst), 0b1100);
    assert_eq!(a.load(Ordering::SeqCst), 0b1000);
    assert_eq!(a.fetch_or(0b0011, Ordering::SeqCst), 0b1000);
    assert_eq!(a.load(Ordering::SeqCst), 0b1011);
    assert_eq!(a.fetch_xor(0b0110, Ordering::SeqCst), 0b1011);
    assert_eq!(a.load(Ordering::SeqCst), 0b1101);
    assert_eq!(a.fetch_nand(0b0101, Ordering::SeqCst), 0b1101);
    assert_eq!(a.load(Ordering::SeqCst), !0b0101u32);
}

#[test]
fn atomic_i32_max_min() {
    let mut a = AtomicI32::new(-4);
    assert_eq!(a.fetch_max(7, Ordering::SeqCst), -4);
    assert_eq!(a.load(Ordering::SeqCst), 7);
    assert_eq!(a.fetch_max(2, Ordering::SeqCst), 7);
    assert_eq!(a.load(Ordering::SeqCst), 7);
    assert_eq!(a.fetch_min(-9, Ordering::SeqCst), 7);
    assert_eq!(a.load(Ordering::SeqCst), -9);
    assert_eq!(a.fetch_min(0, Ordering::SeqCst), -9);
    assert_eq!(a.load(Ordering::SeqCst), -9);
}

#[test]
fn atomic_u64_compare_exchange() {
    let mut a = AtomicU64::new(5);
    assert_eq!(a.compare_exchange(5, 6, Ordering::AcqRel, Ordering::Acquire), Ok(5));
    assert_eq!(a.compare_exchange(5, 7, Ordering::AcqRel, Ordering::Acquire), Err(6));
    assert_eq!(a.compare_exchange_weak(6, 8, Ordering::AcqRel, Ordering::Acquire), Ok(6));
    assert_eq!(a.load(Ordering::SeqCst), 8);
}

#[test]
fn atomic_usize_store_swap_get_mut() {
    let mut a = AtomicUsize::new(1);
    a.store(2, Ordering::SeqCst);
    assert_eq!(a.swap(3, Ordering::SeqCst), 2);
    *a.get_mut() += 10;
    assert_eq!(a.load(Ordering::SeqCst), 13);
}

#[test]
fn atomic_i16_i64_isize_from_and_default() {
    assert_eq!(AtomicI16::from(-3).load(Ordering::SeqCst), -3);
    assert_eq!(AtomicI64::default().load(Ordering::SeqCst), 0);
    let mut a = AtomicIsize::from(isize::MIN);
    assert_eq!(a.fetch_sub(1, Ordering::SeqCst), isize::MIN);
    assert_eq!(a.load(Ordering::SeqCst), isize::MAX);
}
