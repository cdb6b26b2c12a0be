//! A slot that holds up to one waker for task wakeup.
use std::task::Waker;
use vstd::prelude::*;

verus! {

#[verifier::external_type_specification]
#[verifier::external_body]
pub struct ExWaker(Waker);

/// Relies on `Waker::will_wake`, which reports whether two wakers wake the
/// same task; it may answer `false` for equivalent wakers, so nothing is
/// stated of its result.
pub assume_specification[ Waker::will_wake ](this: &Waker, other: &Waker) -> (r: bool);

/// Relies on `Waker::clone`, which makes a new handle to the same task.
pub assume_specification[ <Waker as Clone>::clone ](this: &Waker) -> (r: Waker);

/// Relies on `Waker::wake`, which consumes the waker and wakes its task.
pub assume_specification[ Waker::wake ](this: Waker);

/// A registry holding up to one waker.
pub struct WakerSlot {
    waker: Option<Waker>,
}

impl View for WakerSlot {
    type V = Option<Waker>;

    closed spec fn view(&self) -> Option<Waker> {
        self.waker
    }
}

impl WakerSlot {
    /// Creates an empty slot.
    pub fn new() -> (r: Self)
        ensures
            r@ is None,
    {
        WakerSlot { waker: None }
    }

    /// Registers `waker`, replacing the stored waker unless the stored one
    /// already wakes the same task.
    pub fn register(&mut self, waker: &Waker)
        ensures
            final(self)@ is Some,
            old(self)@ is None ==> cloned(*waker, final(self)@->Some_0),
            final(self)@ == old(self)@ || cloned(*waker, final(self)@->Some_0),
    {
        let same = match &self.waker {
            Some(stored) => stored.will_wake(waker),
            None => false,
        };
        self.store_unless_same(waker, same);
    }

    /// The step of [`WakerSlot::register`] after the stored waker was
    /// compared with `waker`: `same` tells whether the stored waker wakes
    /// the same task. The stored waker stays if so; otherwise a clone of
    /// `waker` takes its place.
    pub fn store_unless_same(&mut self, waker: &Waker, same: bool)
        ensures
            same && old(self)@ is Some ==> final(self)@ == old(self)@,
            !(same && old(self)@ is Some) ==> final(self)@ is Some && cloned(
                *waker,
                final(self)@->Some_0,
            ),
    {
        if same && self.waker.is_some() {
            return ;
        }
        self.waker = Some(waker.clone());
    }

    /// Removes and returns the stored waker, if any.
    pub fn take(&mut self) -> (r: Option<Waker>)
        ensures
            r == old(self)@,
            final(self)@ is None,
    {
        self.waker.take()
    }

    /// Wakes the stored waker, if any, and empties the slot.
    ///
    /// The waker is moved out of the slot before it is woken, so it is
    /// woken once; on an empty slot this does nothing.
    pub fn wake(&mut self)
        ensures
            final(self)@ is None,
            old(self)@ matches Some(w) ==> call_ensures(Waker::wake, (w,), ()),
    {
        if let Some(waker) = self.take() {
            waker.wake();
        }
    }
}

impl Default for WakerSlot {
    fn default() -> (r: Self)
        ensures
            r@ is None,
    {
        WakerSlot::new()
    }
}

/// An operation on a waker slot, seen through the wakers that it moves.
pub enum SlotOp<W> {
    /// A registration of `waker`; `kept` when the stored waker wakes the
    /// same task, so that it stays in the slot.
    Register { waker: W, kept: bool },
    /// A wakeup.
    Wake,
}

/// The waker that `op` registers, if it is a registration.
pub open spec fn registered_waker<W>(op: SlotOp<W>) -> Option<W> {
    match op {
        SlotOp::Register { waker, .. } => Some(waker),
        SlotOp::Wake => None,
    }
}

/// A model of a slot: its contents, and the wakers woken in order, after
/// `ops` ran on an empty slot. A registration stores the registered waker
/// itself, where [`WakerSlot::store_unless_same`] stores a clone of it; a
/// `kept` registration is one whose stored waker wakes the same task, and
/// a wakeup empties the slot and wakes what it held, as
/// [`WakerSlot::wake`] does.
pub open spec fn slot_run<W>(ops: Seq<SlotOp<W>>) -> (Option<W>, Seq<W>)
    decreases ops.len(),
{
    if ops.len() == 0 {
        (None, Seq::empty())
    } else {
        let (slot, woken) = slot_run(ops.drop_last());
        match ops.last() {
            SlotOp::Register { waker, kept } => {
                if kept && slot is Some {
                    (slot, woken)
                } else {
                    (Some(waker), woken)
                }
            },
            SlotOp::Wake => match slot {
                Some(w) => (None, woken.push(w)),
                None => (None, woken),
            },
        }
    }
}

/// Whether some operation of `ops` registers `w`.
pub open spec fn is_registered<W>(ops: Seq<SlotOp<W>>, w: W) -> bool {
    exists|i: int| 0 <= i < ops.len() && #[trigger] registered_waker(ops[i]) == Some(w)
}

/// Whether no waker is registered twice in `ops`.
pub open spec fn registrations_distinct<W>(ops: Seq<SlotOp<W>>) -> bool {
    forall|i: int, j: int|
        0 <= i < j < ops.len() && (#[trigger] registered_waker(ops[i])) is Some ==> registered_waker(
            ops[i],
        ) != #[trigger] registered_waker(ops[j])
}

proof fn lemma_slot_run_inv<W>(ops: Seq<SlotOp<W>>)
    requires
        registrations_distinct(ops),
    ensures
        slot_run(ops).1.no_duplicates(),
        forall|k: int| 0 <= k < slot_run(ops).1.len() ==> is_registered(ops, #[trigger] slot_run(ops).1[k]),
        slot_run(ops).0 matches Some(w) ==> is_registered(ops, w) && !slot_run(ops).1.contains(w),
    decreases ops.len(),
{
    if ops.len() > 0 {
        let pre = ops.drop_last();
        let n = ops.len() - 1;
        assert forall|i: int, j: int|
            0 <= i < j < pre.len() && (#[trigger] registered_waker(pre[i])) is Some implies registered_waker(
                pre[i],
            ) != #[trigger] registered_waker(pre[j]) by {
            assert(pre[i] == ops[i] && pre[j] == ops[j]);
        }
        lemma_slot_run_inv(pre);
        let (slot, woken) = slot_run(pre);
        assert forall|w: W| is_registered(pre, w) implies is_registered(ops, w) by {
            let i = choose|i: int| 0 <= i < pre.len() && #[trigger] registered_waker(pre[i]) == Some(w);
            assert(ops[i] == pre[i]);
        }
        match ops.last() {
            SlotOp::Register { waker, kept } => {
                assert(registered_waker(ops[n]) == Some(waker));
                if !(kept && slot is Some) {
                    assert forall|k: int| 0 <= k < woken.len() implies woken[k] != waker by {
                        assert(is_registered(pre, woken[k]));
                        let i = choose|i: int|
                            0 <= i < pre.len() && #[trigger] registered_waker(pre[i]) == Some(woken[k]);
                        assert(ops[i] == pre[i]);
                    }
                }
            },
            SlotOp::Wake => {
                if let Some(w) = slot {
                    let f = woken.push(w);
                    assert forall|a: int, b: int| 0 <= a < f.len() && 0 <= b < f.len() && a != b implies f[a]
                        != f[b] by {
                        if a < woken.len() && b < woken.len() {
                        } else if a == woken.len() {
                            assert(woken.contains(woken[b]));
                        } else {
                            assert(woken.contains(woken[a]));
                        }
                    }
                    assert forall|k: int| 0 <= k < f.len() implies is_registered(ops, #[trigger] f[k]) by {
                        if k < woken.len() {
                            assert(f[k] == woken[k]);
                        }
                    }
                }
            },
        }
    }
}

/// Each registered waker is woken at most once: over any run of
/// registrations of distinct wakers and wakeups, no waker is woken twice,
/// and every waker woken was registered.
pub proof fn lemma_woken_at_most_once<W>(ops: Seq<SlotOp<W>>)
    requires
        registrations_distinct(ops),
    ensures
        slot_run(ops).1.no_duplicates(),
        forall|k: int| 0 <= k < slot_run(ops).1.len() ==> is_registered(ops, #[trigger] slot_run(ops).1[k]),
{
    lemma_slot_run_inv(ops);
}

/// A wakeup of an empty slot does nothing: without registrations the slot
/// stays empty and no waker is woken.
pub proof fn lemma_wake_without_register<W>(ops: Seq<SlotOp<W>>)
    requires
        forall|i: int| 0 <= i < ops.len() ==> #[trigger] ops[i] == SlotOp::<W>::Wake,
    ensures
        slot_run(ops) == (None::<W>, Seq::<W>::empty()),
    decreases ops.len(),
{
    if ops.len() > 0 {
        let pre = ops.drop_last();
        assert forall|i: int| 0 <= i < pre.len() implies #[trigger] pre[i] == SlotOp::<W>::Wake by {
            assert(pre[i] == ops[i]);
        }
        lemma_wake_without_register(pre);
        assert(ops[ops.len() - 1] == SlotOp::<W>::Wake);
    }
}

} // verus!
