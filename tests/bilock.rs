use std::sync::atomic::{AtomicUsize, Ordering};
use std::sync::Arc;
use std::task::{Wake, Waker};

use synchrony::bilock::{BiLock, LockState};
use synchrony::flag::Flag;
use synchrony::waker_slot::WakerSlot;

struct Counter(AtomicUsize);

impl Wake for Counter {
    fn wake(self: Arc<Self>) {
        self.0.fetch_add(1, Ordering::SeqCst);
    }
}

fn counting_waker() -> (Arc<Counter>, Waker) {
    let c = Arc::new(Counter(AtomicUsize::new(0)));
    let w = Waker::from(c.clone());
    (c, w)
}

#[test]
fn bilock_contended_acquire_waits_for_release() {
    let (a, b) = BiLock::new(0u32);
    let (_ca, wa) = counting_waker();
    let (cb, wb) = counting_waker();
    let mut acq_a = a.lock();
    let guard = acq_a.poll(&wa).expect("uncontended lock completes at once");
    assert_eq!(*guard.get(), 0);
    let mut acq_b = b.lock();
    assert!(acq_b.poll(&wb).is_none());
    assert!(acq_b.poll(&wb).is_none());
    assert_eq!(cb.0.load(Ordering::SeqCst), 0);
    guard.release();
    assert_eq!(cb.0.load(Ordering::SeqCst), 1);
    let guard_b = acq_b.poll(&wb).expect("lock is free after release");
    assert_eq!(*guard_b.get(), 0);
    guard_b.release();
    assert_eq!(cb.0.load(Ordering::SeqCst), 1);
}

#[test]
fn bilock_sees_value_written_by_other_handle() {
    let (a, b) = BiLock::new(0i32);
    let (_c, w) = counting_waker();
    let mut guard = a.lock().poll(&w).unwrap();
    *guard = 5;
    guard.release();
    let guard_b = b.lock().poll(&w).unwrap();
    assert_eq!(*guard_b, 5);
    guard_b.release();
}

#[test]
fn bilock_try_join_fresh_pair() {
    let (a, b) = BiLock::new(String::from("payload"));
    assert_eq!(a.try_join(b), Some(String::from("payload")));
}

#[test]
fn bilock_try_join_after_use() {
    let (a, b) = BiLock::new(vec![1u8]);
    let (_c, w) = counting_waker();
    let mut g = b.lock().poll(&w).unwrap();
    g.get_mut().push(2);
    g.release();
    assert_eq!(b.try_join(a), Some(vec![1u8, 2]));
}

#[test]
fn bilock_try_join_unrelated_pairs() {
    let (a1, b1) = BiLock::new(1u8);
    let (a2, b2) = BiLock::new(1u8);
    assert_eq!(a1.try_join(b2), None);
    assert_eq!(a2.try_join(b1), None);
}

#[test]
fn bilock_release_without_waiter_wakes_nobody() {
    let (a, _b) = BiLock::new(3u64);
    let (c, w) = counting_waker();
    let g = a.lock().poll(&w).unwrap();
    g.release();
    let g = a.lock().poll(&w).unwrap();
    assert_eq!(*g.get(), 3);
    g.release();
    assert_eq!(c.0.load(Ordering::SeqCst), 0);
}

#[test]
fn lock_state_acquire_free_then_contended() {
    let (c, w) = counting_waker();
    let mut st = LockState { locked: Flag::new(false), waiter: WakerSlot::new(), data: Some(9u8) };
    assert_eq!(st.acquire(&w), Some(9));
    assert!(st.locked.get());
    assert!(st.data.is_none());
    assert_eq!(st.acquire(&w), None);
    let woken = st.release(10);
    assert!(!st.locked.get());
    assert_eq!(st.data, Some(10));
    woken.expect("the contended poll registered its waker").wake();
    assert_eq!(c.0.load(Ordering::SeqCst), 1);
    assert!(st.waiter.take().is_none());
}

#[test]
fn lock_state_held_is_locked_and_empty() {
    let st = LockState::<u8>::held();
    assert!(st.locked.get());
    assert!(st.data.is_none());
}
