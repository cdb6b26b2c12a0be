//! A lock shared by exactly two handles, acquired by polling.
//!
//! The lock bit, the waiting task's waker and the protected value live
//! together in one cell whose invariant ties them: the lock is held exactly
//! when the value has been handed out to a guard.
use std::task::Waker;
use vstd::cell::invcell::InvCell;
use vstd::predicate::Predicate;
use vstd::prelude::*;

use crate::flag::Flag;
use crate::shared::Shared;
use crate::waker_slot::WakerSlot;

verus! {

/// What the two handles of a [`BiLock`] share, outside of any guard.
pub struct LockState<T> {
    /// Whether a guard holds the lock.
    pub locked: Flag,
    /// The task waiting for the lock, if any.
    pub waiter: WakerSlot,
    /// The value, while no guard holds it.
    pub data: Option<T>,
}

impl<T> LockState<T> {
    /// The state while the value is out with a guard and nobody waits.
    pub fn held() -> (r: Self)
        ensures
            r.locked@,
            r.waiter@ is None,
            r.data is None,
    {
        LockState { locked: Flag::new(true), waiter: WakerSlot::new(), data: None }
    }

    /// One poll of an acquisition: takes the value if the lock was free,
    /// and otherwise registers `waker` to be woken by the next release.
    pub fn acquire(&mut self, waker: &Waker) -> (r: Option<T>)
        ensures
            final(self).locked@,
            !old(self).locked@ ==> r == old(self).data && final(self).data is None
                && final(self).waiter@ == old(self).waiter@,
            old(self).locked@ ==> r is None && final(self).data == old(self).data
                && final(self).waiter@ is Some,
    {
        if self.locked.swap(true) {
            self.waiter.register(waker);
            None
        } else {
            self.data.take()
        }
    }

    /// A release: puts the value back, clears the lock bit, and hands out
    /// the waiting task's waker, which the caller wakes once the state is
    /// stored again.
    pub fn release(&mut self, data: T) -> (r: Option<Waker>)
        ensures
            !final(self).locked@,
            final(self).data == Some(data),
            r == old(self).waiter@,
            final(self).waiter@ is None,
    {
        self.data = Some(data);
        self.locked.swap(false);
        self.waiter.take()
    }
}

/// The invariant of the shared state: locked exactly when the value is out.
struct HeldIffTaken;

impl<T> Predicate<LockState<T>> for HeldIffTaken {
    closed spec fn predicate(&self, s: LockState<T>) -> bool {
        s.locked@ <==> s.data is None
    }
}

/// The state shared by the two handles of a [`BiLock`].
pub struct Inner<T> {
    state: InvCell<LockState<T>, HeldIffTaken>,
}

impl<T> Inner<T> {
    #[verifier::type_invariant]
    spec fn wf(&self) -> bool {
        self.state.predicate() == HeldIffTaken
    }
}

/// One of the two handles of a lock shared by two parties.
pub struct BiLock<T>(Shared<Inner<T>>);

impl<T> View for BiLock<T> {
    type V = Inner<T>;

    /// The shared state that this handle refers to.
    closed spec fn view(&self) -> Inner<T> {
        self.0@
    }
}

impl<T> BiLock<T> {
    /// Creates an unlocked lock around `data` and returns its two handles.
    pub fn new(data: T) -> (r: (Self, Self))
        ensures
            r.0@ == r.1@,
    {
        let state = LockState { locked: Flag::new(false), waiter: WakerSlot::new(), data: Some(data) };
        let inner = Shared::new(Inner { state: InvCell::new(state, Ghost(HeldIffTaken)) });
        (BiLock(inner.clone()), BiLock(inner))
    }

    /// Starts an acquisition of the lock; poll it to obtain a guard.
    pub fn lock(&self) -> (r: BiLockAcquire<'_, T>)
        ensures
            r.shared() == self@,
    {
        BiLockAcquire { inner: self.0.get() }
    }

    /// Joins the two handles of one lock back into the value.
    ///
    /// Returns `None` when the handles belong to different locks, and when
    /// a guard of the lock was dropped without being released.
    pub fn try_join(self, other: Self) -> (r: Option<T>)
        ensures
            self@ != other@ ==> r is None,
    {
        if Shared::ptr_eq(&self.0, &other.0) {
            {
                // the other handle goes first, so that `self` is the last one
                let _other = other;
            }
            match Shared::try_unwrap(self.0) {
                Ok(inner) => {
                    let Inner { state } = inner;
                    state.into_inner().data
                },
                // a pair has no third handle, so `self` is the last one
                Err(_) => None,
            }
        } else {
            None
        }
    }
}

/// A pending acquisition of a [`BiLock`].
pub struct BiLockAcquire<'a, T> {
    inner: &'a Inner<T>,
}

impl<'a, T> BiLockAcquire<'a, T> {
    /// The shared state of the lock being acquired.
    pub closed spec fn shared(&self) -> Inner<T> {
        *self.inner
    }

    /// Tries to take the lock.
    ///
    /// Returns a guard when the lock was free. When the other handle holds
    /// it, registers `waker`, which its release wakes, and returns `None`.
    pub fn poll(&mut self, waker: &Waker) -> (r: Option<BiLockGuard<'a, T>>)
        ensures
            final(self).shared() == old(self).shared(),
            r matches Some(g) ==> g.shared() == old(self).shared(),
    {
        let inner = self.inner;
        proof {
            use_type_invariant(inner);
        }
        let mut st = inner.state.replace(LockState::held());
        let taken = st.acquire(waker);
        inner.state.replace(st);
        match taken {
            Some(data) => Some(BiLockGuard { inner, data }),
            None => None,
        }
    }
}

/// Exclusive access to the value of a [`BiLock`], until [`release`].
///
/// The guard holds the value itself while the lock is held, so at most one
/// guard of a lock exists at a time. The lock is given back by [`release`]
/// alone: a guard dropped without it keeps the lock held and the value.
///
/// [`release`]: BiLockGuard::release
pub struct BiLockGuard<'a, T> {
    inner: &'a Inner<T>,
    data: T,
}

impl<'a, T> BiLockGuard<'a, T> {
    /// The guarded value.
    pub fn get(&self) -> (r: &T)
        ensures
            *r == self.data(),
    {
        &self.data
    }

    /// The guarded value, for change.
    pub fn get_mut(&mut self) -> (r: &mut T)
        ensures
            *r == old(self).data(),
            final(self).data() == *final(r),
            final(self).shared() == old(self).shared(),
    {
        &mut self.data
    }

    /// The shared state of the lock that the guard holds.
    pub closed spec fn shared(&self) -> Inner<T> {
        *self.inner
    }

    /// The value that the guard holds.
    pub closed spec fn data(&self) -> T {
        self.data
    }

    /// Gives the lock back: stores the value, clears the lock bit and then
    /// wakes the task waiting on the other handle, if any.
    pub fn release(self) {
        let BiLockGuard { inner, data } = self;
        proof {
            use_type_invariant(inner);
        }
        let mut st = inner.state.replace(LockState::held());
        let waiter = st.release(data);
        inner.state.replace(st);
        if let Some(w) = waiter {
            w.wake();
        }
    }
}

impl<'a, T> std::ops::Deref for BiLockGuard<'a, T> {
    type Target = T;

    fn deref(&self) -> (r: &T)
        ensures
            *r == self.data(),
    {
        &self.data
    }
}

impl<'a, T> std::ops::DerefMut for BiLockGuard<'a, T> {
    fn deref_mut(&mut self) -> (r: &mut T)
        ensures
            *r == old(self).data(),
            final(self).data() == *final(r),
            final(self).shared() == old(self).shared(),
    {
        &mut self.data
    }
}

} // verus!
