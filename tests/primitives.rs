use std::sync::atomic::Ordering;
use std::sync::atomic::AtomicUsize;
use std::sync::Arc;
use std::task::{Wake, Waker};

use synchrony::atomic::AtomicBool;
use synchrony::flag::Flag;
use synchrony::shared::Shared;
use synchrony::waker_slot::WakerSlot;

struct Counter(AtomicUsize);

impl Wake for Counter {
    fn wake(self: Arc<Self>) {
        self.0.fetch_add(1, Ordering::SeqCst);
    }
}

fn counting_waker() -> (Arc<Counter>, Waker) {
    let c = Arc::new(Counter(AtomicUsize::new(0)));
    let w = Waker::from(c.clone());
    (c, w)
}

fn count(c: &Arc<Counter>) -> usize {
    c.0.load(Ordering::SeqCst)
}

#[test]
fn atomic_bool_load_store_swap() {
    let mut a = AtomicBool::new(false);
    assert!(!a.load(Ordering::SeqCst));
    a.store(true, Ordering::SeqCst);
    assert!(a.load(Ordering::SeqCst));
    assert!(a.swap(false, Ordering::SeqCst));
    assert!(!a.load(Ordering::SeqCst));
}

#[test]
fn atomic_bool_get_mut() {
    let mut a = AtomicBool::new(true);
    *a.get_mut() = false;
    assert!(!a.load(Ordering::Relaxed));
}

#[test]
fn atomic_bool_compare_exchange() {
    let mut a = AtomicBool::new(true);
    assert_eq!(a.compare_exchange(true, false, Ordering::AcqRel, Ordering::Acquire), Ok(true));
    assert!(!a.load(Ordering::Relaxed));
    assert_eq!(a.compare_exchange(true, true, Ordering::AcqRel, Ordering::Acquire), Err(false));
    assert!(!a.load(Ordering::Relaxed));
    assert_eq!(a.compare_exchange_weak(false, true, Ordering::AcqRel, Ordering::Acquire), Ok(false));
    assert!(a.load(Ordering::Relaxed));
    assert_eq!(a.compare_exchange_weak(false, false, Ordering::AcqRel, Ordering::Acquire), Err(true));
}

#[test]
fn atomic_bool_fetch_ops() {
    let mut a = AtomicBool::new(true);
    assert!(a.fetch_and(false, Ordering::SeqCst));
    assert!(!a.load(Ordering::SeqCst));
    assert!(!a.fetch_or(true, Ordering::SeqCst));
    assert!(a.load(Ordering::SeqCst));
    assert!(a.fetch_xor(true, Ordering::SeqCst));
    assert!(!a.load(Ordering::SeqCst));
    assert!(!a.fetch_nand(true, Ordering::SeqCst));
    assert!(a.load(Ordering::SeqCst));
    assert!(a.fetch_nand(true, Ordering::SeqCst));
    assert!(!a.load(Ordering::SeqCst));
    assert!(!a.fetch_not(Ordering::SeqCst));
    assert!(a.load(Ordering::SeqCst));
}

#[test]
fn atomic_bool_from_and_default() {
    let a = AtomicBool::from(true);
    assert!(a.load(Ordering::SeqCst));
    let d = AtomicBool::default();
    assert!(!d.load(Ordering::SeqCst));
}

#[test]
fn flag_get_and_swap() {
    let mut f = Flag::new(false);
    assert!(!f.get());
    assert!(!f.swap(true));
    assert!(f.get());
    assert!(f.swap(true));
    assert!(f.swap(false));
    assert!(!f.get());
}

#[test]
fn flag_flips_alternate() {
    let mut f = Flag::new(true);
    let got: Vec<bool> = (0..6).map(|_| f.flip()).collect();
    assert_eq!(got, vec![false, true, false, true, false, true]);
    assert!(f.get());
}

#[test]
fn waker_slot_wake_fires_once() {
    let (c, w) = counting_waker();
    let mut slot = WakerSlot::new();
    slot.register(&w);
    slot.wake();
    assert_eq!(count(&c), 1);
    slot.wake();
    assert_eq!(count(&c), 1);
}

#[test]
fn waker_slot_wake_on_empty_is_noop() {
    let mut slot = WakerSlot::default();
    slot.wake();
    assert!(slot.take().is_none());
}

#[test]
fn waker_slot_register_replaces_other_task() {
    let (c1, w1) = counting_waker();
    let (c2, w2) = counting_waker();
    let mut slot = WakerSlot::new();
    slot.register(&w1);
    slot.register(&w2);
    slot.wake();
    assert_eq!(count(&c1), 0);
    assert_eq!(count(&c2), 1);
}

#[test]
fn waker_slot_register_same_task_twice() {
    let (c, w) = counting_waker();
    let mut slot = WakerSlot::new();
    slot.register(&w);
    slot.register(&w.clone());
    slot.wake();
    slot.wake();
    assert_eq!(count(&c), 1);
}

#[test]
fn waker_slot_take_empties() {
    let (c, w) = counting_waker();
    let mut slot = WakerSlot::new();
    slot.register(&w);
    let taken = slot.take();
    assert!(taken.is_some());
    assert!(slot.take().is_none());
    slot.wake();
    assert_eq!(count(&c), 0);
    taken.unwrap().wake();
    assert_eq!(count(&c), 1);
}

#[test]
fn shared_clone_is_ptr_eq() {
    let a = Shared::new(7u32);
    let b = a.clone();
    assert!(Shared::ptr_eq(&a, &b));
    assert_eq!(*b.get(), 7);
    assert_eq!(*a, 7);
}

#[test]
fn shared_independent_cells_differ() {
    let a = Shared::new(7u32);
    let b = Shared::new(7u32);
    assert!(!Shared::ptr_eq(&a, &b));
}

#[test]
fn shared_try_unwrap_with_two_handles_fails() {
    let a = Shared::new(String::from("x"));
    let b = a.clone();
    let back = match Shared::try_unwrap(a) {
        Ok(_) => panic!("reclaimed while another handle lives"),
        Err(h) => h,
    };
    assert!(Shared::ptr_eq(&back, &b));
    drop(b);
    assert_eq!(Shared::try_unwrap(back).ok(), Some(String::from("x")));
}

#[test]
fn shared_try_unwrap_last_handle() {
    let a = Shared::new(vec![1u8, 2, 3]);
    assert_eq!(Shared::try_unwrap(a).ok(), Some(vec![1u8, 2, 3]));
}

#[test]
fn atomic_bool_from_false() {
    let a = AtomicBool::from(false);
    assert!(!a.load(Ordering::SeqCst));
}

#[test]
fn waker_slot_store_unless_same_keeps_when_same() {
    let (c1, w1) = counting_waker();
    let (c2, w2) = counting_waker();
    let mut slot = WakerSlot::new();
    slot.register(&w1);
    slot.store_unless_same(&w2, true);
    slot.wake();
    assert_eq!(count(&c1), 1);
    assert_eq!(count(&c2), 0);
}

#[test]
fn waker_slot_store_unless_same_replaces_otherwise() {
    let (c1, w1) = counting_waker();
    let (c2, w2) = counting_waker();
    let mut slot = WakerSlot::new();
    slot.register(&w1);
    slot.store_unless_same(&w2, false);
    slot.wake();
    assert_eq!(count(&c1), 0);
    assert_eq!(count(&c2), 1);
}

#[test]
fn waker_slot_store_unless_same_on_empty_stores() {
    let (c, w) = counting_waker();
    let mut slot = WakerSlot::new();
    slot.store_unless_same(&w, true);
    slot.wake();
    assert_eq!(count(&c), 1);
}
