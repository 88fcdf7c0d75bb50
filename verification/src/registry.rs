//! The registry of non-owning observer handles, and the broadcast itself.
//!
//! `notify_slots` and `notify_log` give the broadcast a functional model:
//! visiting the registered handles in order, delivering an event through
//! each handle that resolves to a live observer and skipping the rest. The
//! executable `ObserverRegistry::notify` is proved equal to that model.

use vstd::prelude::*;

use crate::arena::{slot_live, slot_observer, ObserverArena, ObserverHandle, Slot};
use crate::laws::{
    lemma_after_events_counter, lemma_after_events_stateless, lemma_hit_count_prefix,
    lemma_notify_counter, lemma_notify_preserves_liveness, lemma_notify_preserves_shape,
};
use crate::observer::{after_events, events_ok, Observer, Output};

verus! {

/// One delivery made during a broadcast: the handle that resolved, and the
/// output its observer produced.
#[derive(Clone, Copy, PartialEq, Eq, Structural, Debug)]
pub struct Delivery {
    pub handle: ObserverHandle,
    pub output: Output,
}

/// The slot table after one event is delivered through the live handle `h`:
/// that slot's observer advances by one event under an unchanged stamp.
pub open spec fn deliver_step(slots: Seq<Slot>, h: ObserverHandle) -> Seq<Slot>
    recommends
        slot_live(slots, h),
{
    slots.update(
        h.index as int,
        Slot { generation: h.generation, observer: Some(slot_observer(slots, h).after_event()) },
    )
}

/// The slot table after the handles in `entries` are visited in order, an
/// event delivered through each one that resolves and the rest skipped.
pub open spec fn notify_slots(slots: Seq<Slot>, entries: Seq<ObserverHandle>) -> Seq<Slot>
    decreases entries.len(),
{
    if entries.len() == 0 {
        slots
    } else {
        let prev = notify_slots(slots, entries.drop_last());
        let h = entries.last();
        if slot_live(prev, h) {
            deliver_step(prev, h)
        } else {
            prev
        }
    }
}

/// The deliveries such a visit produces, in visiting order: one per handle
/// that resolves, none for a stale handle.
pub open spec fn notify_log(slots: Seq<Slot>, entries: Seq<ObserverHandle>) -> Seq<Delivery>
    decreases entries.len(),
{
    if entries.len() == 0 {
        Seq::empty()
    } else {
        let prev = notify_slots(slots, entries.drop_last());
        let log = notify_log(slots, entries.drop_last());
        let h = entries.last();
        if slot_live(prev, h) {
            log.push(Delivery { handle: h, output: slot_observer(prev, h).event_output() })
        } else {
            log
        }
    }
}

/// The subsequence of `entries` whose handles resolve in `slots`, in their
/// original order.
pub open spec fn live_entries(slots: Seq<Slot>, entries: Seq<ObserverHandle>) -> Seq<
    ObserverHandle,
>
    decreases entries.len(),
{
    if entries.len() == 0 {
        Seq::empty()
    } else {
        let rest = live_entries(slots, entries.drop_last());
        if slot_live(slots, entries.last()) {
            rest.push(entries.last())
        } else {
            rest
        }
    }
}

/// How many of the handles in `entries` resolve (in `slots`) to slot `i`.
pub open spec fn hit_count(slots: Seq<Slot>, entries: Seq<ObserverHandle>, i: int) -> nat
    decreases entries.len(),
{
    if entries.len() == 0 {
        0
    } else {
        hit_count(slots, entries.drop_last(), i) + (
        if slot_live(slots, entries.last()) && entries.last().index == i {
            1nat
        } else {
            0nat
        })
    }
}

/// No occupied slot's observer can overflow its counter during one visit of
/// `entries`: each can take as many events as resolve to its slot.
pub open spec fn notify_ok(slots: Seq<Slot>, entries: Seq<ObserverHandle>) -> bool {
    forall|i: int|
        0 <= i < slots.len() && slots[i].observer is Some ==> events_ok(
            #[trigger] slots[i].observer->Some_0,
            hit_count(slots, entries, i),
        )
}

/// The ordered collection of non-owning observer handles.
pub struct ObserverRegistry {
    pub observers: Vec<ObserverHandle>,
}

impl View for ObserverRegistry {
    type V = Seq<ObserverHandle>;

    open spec fn view(&self) -> Seq<ObserverHandle> {
        self.observers@
    }
}

impl ObserverRegistry {
    /// An empty registry: nothing is registered yet.
    pub fn new() -> (r: ObserverRegistry)
        ensures
            r@.len() == 0,
    {
        ObserverRegistry { observers: Vec::new() }
    }

    /// Append a handle to the registration order. Registration always
    /// succeeds and never disturbs the handles already registered.
    pub fn register(&mut self, observer: ObserverHandle)
        ensures
            final(self)@ == old(self)@.push(observer),
    {
        self.observers.push(observer);
    }

    /// Broadcast one event: visit the registered handles in registration
    /// order, deliver to each one that still resolves to a live observer,
    /// and silently skip the stale ones. The arena ends in the state the
    /// functional model prescribes, and the deliveries made come back in
    /// visiting order.
    pub fn notify(&self, arena: &mut ObserverArena) -> (log: Vec<Delivery>)
        requires
            notify_ok(old(arena)@, self@),
        ensures
            final(arena)@ == notify_slots(old(arena)@, self@),
            log@ == notify_log(old(arena)@, self@),
    {
        let ghost slots0 = arena@;
        let mut log: Vec<Delivery> = Vec::new();
        let n = self.observers.len();
        let mut k: usize = 0;
        while k < n
            invariant
                n == self@.len(),
                k <= n,
                notify_ok(slots0, self@),
                slots0 == old(arena)@,
                arena@ == notify_slots(slots0, self@.take(k as int)),
                log@ == notify_log(slots0, self@.take(k as int)),
            decreases n - k,
        {
            let h = self.observers[k];
            proof {
                assert(self@.take(k as int + 1).drop_last() =~= self@.take(k as int));
                assert(self@.take(k as int + 1).last() == h);
            }
            if arena.is_live(h) {
                proof {
                    let taken = self@.take(k as int);
                    lemma_notify_preserves_liveness(slots0, taken, h);
                    lemma_notify_preserves_shape(slots0, taken);
                    lemma_notify_counter(slots0, taken);
                    let i = h.index as int;
                    let orig = slots0[i].observer->Some_0;
                    let k_prev = hit_count(slots0, taken, i);
                    assert(hit_count(slots0, self@.take(k as int + 1), i) == k_prev + 1);
                    lemma_hit_count_prefix(slots0, self@, k as int + 1, i);
                    assert(events_ok(orig, hit_count(slots0, self@, i)));
                    match orig {
                        Observer::A(a) => {
                            lemma_after_events_stateless(a, k_prev);
                        },
                        Observer::B(b) => {
                            lemma_after_events_counter(b, k_prev);
                        },
                    }
                    assert(slot_observer(arena@, h) == after_events(orig, k_prev));
                    assert(slot_observer(arena@, h).event_ok());
                }
                let out = arena.deliver(h);
                log.push(Delivery { handle: h, output: out });
            } else {
                proof {
                    lemma_notify_preserves_liveness(slots0, self@.take(k as int), h);
                }
            }
            k = k + 1;
        }
        proof {
            assert(self@.take(n as int) =~= self@);
        }
        log
    }
}

} // verus!
