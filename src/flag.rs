//! A boolean flag with swap and flip operations.
use std::sync::atomic::Ordering;
use vstd::prelude::*;

use crate::atomic::AtomicBool;

verus! {

/// A boolean flag.
pub struct Flag(AtomicBool);

impl View for Flag {
    type V = bool;

    closed spec fn view(&self) -> bool {
        self.0@
    }
}

impl Flag {
    /// Creates a flag holding `val`.
    pub fn new(val: bool) -> (r: Self)
        ensures
            r@ == val,
    {
        Flag(AtomicBool::new(val))
    }

    /// Returns the current value.
    pub fn get(&self) -> (r: bool)
        ensures
            r == self@,
    {
        self.0.load(Ordering::Acquire)
    }

    /// Stores `val` and returns the value it replaced.
    pub fn swap(&mut self, val: bool) -> (r: bool)
        ensures
            r == old(self)@,
            final(self)@ == val,
    {
        self.0.swap(val, Ordering::AcqRel)
    }

    /// Negates the value and returns the value installed.
    ///
    /// The negation is installed by compare-and-swap against the value last
    /// read; a failed exchange retries with the value it observed.
    pub fn flip(&mut self) -> (r: bool)
        ensures
            r == !old(self)@,
            final(self)@ == r,
    {
        let mut current = self.get();
        loop
            invariant
                self@ == old(self)@,
            decreases
                if current == self@ {
                    0int
                } else {
                    1int
                },
        {
            let new = !current;
            match self.0.compare_exchange_weak(current, new, Ordering::AcqRel, Ordering::Acquire) {
                Ok(_) => {
                    return new;
                },
                Err(previous) => {
                    current = previous;
                },
            }
        }
    }
}

/// A run of flips: `states[0]` is the starting value, and the `i`-th flip
/// returned `results[i]` and left `states[i + 1]`, as [`Flag::flip`]
/// promises.
pub open spec fn is_flip_run(states: Seq<bool>, results: Seq<bool>) -> bool {
    &&& states.len() == results.len() + 1
    &&& forall|i: int|
        0 <= i < results.len() ==> #[trigger] results[i] == !states[i] && states[i + 1]
            == results[i]
}

/// Flips completed one after another return alternating values, starting
/// from the negation of the starting value.
pub proof fn lemma_flips_alternate(states: Seq<bool>, results: Seq<bool>)
    requires
        is_flip_run(states, results),
    ensures
        forall|i: int| 0 <= i < results.len() ==> #[trigger] results[i] == ((i % 2 == 0) != states[0]),
        forall|i: int| 0 <= i < results.len() - 1 ==> #[trigger] results[i + 1] != results[i],
    decreases results.len(),
{
    if results.len() > 0 {
        let n = results.len() - 1;
        let s = states.take(n + 1);
        let r = results.take(n);
        assert forall|i: int| 0 <= i < r.len() implies #[trigger] r[i] == !s[i] && s[i + 1] == r[i] by {
            assert(results[i] == !states[i] && states[i + 1] == results[i]);
        }
        lemma_flips_alternate(s, r);
        assert forall|i: int| 0 <= i < results.len() implies #[trigger] results[i] == ((i % 2 == 0)
            != states[0]) by {
            if i < n {
                assert(r[i] == results[i]);
            } else if n > 0 {
                assert(r[n - 1] == results[n - 1]);
                assert(results[n - 1] == !states[n - 1] && states[n] == results[n - 1]);
                assert(results[n] == !states[n]);
            } else {
                assert(results[0] == !states[0]);
            }
        }
        assert forall|i: int| 0 <= i < results.len() - 1 implies #[trigger] results[i + 1]
            != results[i] by {
            assert(results[i] == ((i % 2 == 0) != states[0]));
            assert(results[i + 1] == (((i + 1) % 2 == 0) != states[0]));
        }
    }
}

} // verus!
