//! Proved laws of the broadcast model.
//!
//! These lemmas state the guarantees of the registry as a whole: a
//! broadcast touches no slot's stamp or occupancy, visits exactly the live
//! handles in registration order, advances each observer by exactly the
//! number of deliveries its slot received, leaves unresolved slots alone,
//! and skips a stale handle on this and on every later broadcast.

use vstd::prelude::*;

use crate::arena::{slot_live, slot_observer, ObserverHandle, Slot};
use crate::observer::{after_events, events_ok, EventConsumerA, EventConsumerB, Observer, Output};
use crate::registry::{
    hit_count, live_entries, notify_log, notify_ok, notify_slots, Delivery,
};

verus! {

/// An event never changes which variant an observer is.
pub proof fn lemma_after_events_variant(o: Observer, k: nat)
    ensures
        after_events(o, k) is A <==> o is A,
    decreases k,
{
    if k > 0 {
        lemma_after_events_variant(o, (k - 1) as nat);
    }
}

/// The stateless observer is left exactly as it was by any number of events.
pub proof fn lemma_after_events_stateless(a: EventConsumerA, k: nat)
    ensures
        after_events(Observer::A(a), k) == Observer::A(a),
    decreases k,
{
    if k > 0 {
        lemma_after_events_stateless(a, (k - 1) as nat);
    }
}

/// Counter correctness for one observer: `k` events advance the counter by
/// exactly `k`, as long as it fits.
pub proof fn lemma_after_events_counter(b: EventConsumerB, k: nat)
    requires
        b.counter + k <= usize::MAX,
    ensures
        after_events(Observer::B(b), k) == Observer::B(
            EventConsumerB { counter: (b.counter + k) as usize },
        ),
    decreases k,
{
    if k > 0 {
        lemma_after_events_counter(b, (k - 1) as nat);
    }
}

/// A broadcast changes no slot's generation stamp or occupancy: it only
/// advances the state of observers that are already there.
pub proof fn lemma_notify_preserves_shape(slots: Seq<Slot>, entries: Seq<ObserverHandle>)
    ensures
        notify_slots(slots, entries).len() == slots.len(),
        forall|i: int|
            0 <= i < slots.len() ==> (#[trigger] notify_slots(slots, entries)[i]).generation
                == slots[i].generation,
        forall|i: int|
            0 <= i < slots.len() ==> ((#[trigger] notify_slots(slots, entries)[i]).observer
                is Some <==> slots[i].observer is Some),
    decreases entries.len(),
{
    if entries.len() > 0 {
        lemma_notify_preserves_shape(slots, entries.drop_last());
    }
}

/// A handle live before a broadcast is live after it, and a stale one stays
/// stale: broadcasting neither destroys nor resurrects an observer.
pub proof fn lemma_notify_preserves_liveness(
    slots: Seq<Slot>,
    entries: Seq<ObserverHandle>,
    h: ObserverHandle,
)
    ensures
        slot_live(notify_slots(slots, entries), h) == slot_live(slots, h),
{
    lemma_notify_preserves_shape(slots, entries);
}

/// Visiting a prefix of the entries resolves to a slot at most as often as
/// visiting them all.
pub proof fn lemma_hit_count_prefix(
    slots: Seq<Slot>,
    entries: Seq<ObserverHandle>,
    j: int,
    i: int,
)
    requires
        0 <= j <= entries.len(),
    ensures
        hit_count(slots, entries.take(j), i) <= hit_count(slots, entries, i),
    decreases entries.len() - j,
{
    if j == entries.len() {
        assert(entries.take(j) =~= entries);
    } else {
        assert(entries.take(j) =~= entries.drop_last().take(j));
        lemma_hit_count_prefix(slots, entries.drop_last(), j, i);
    }
}

/// Counter correctness over one broadcast: each occupied slot's observer
/// ends the broadcast advanced by exactly the number of registered handles
/// that resolve to that slot.
pub proof fn lemma_notify_counter(slots: Seq<Slot>, entries: Seq<ObserverHandle>)
    ensures
        forall|i: int|
            0 <= i < slots.len() && slots[i].observer is Some ==> (#[trigger] notify_slots(
                slots,
                entries,
            )[i]).observer == Some(
                after_events(slots[i].observer->Some_0, hit_count(slots, entries, i)),
            ),
    decreases entries.len(),
{
    if entries.len() > 0 {
        let prev = notify_slots(slots, entries.drop_last());
        let h = entries.last();
        lemma_notify_counter(slots, entries.drop_last());
        lemma_notify_preserves_shape(slots, entries.drop_last());
        if slot_live(prev, h) {
            let i = h.index as int;
            let orig = slots[i].observer->Some_0;
            let k_prev = hit_count(slots, entries.drop_last(), i);
            assert(slot_observer(prev, h) == after_events(orig, k_prev));
            assert(after_events(orig, k_prev + 1) == after_events(orig, k_prev).after_event());
        }
    }
}

/// A slot receives at most one delivery per registered handle.
pub proof fn lemma_hit_count_le_len(slots: Seq<Slot>, entries: Seq<ObserverHandle>, i: int)
    ensures
        hit_count(slots, entries, i) <= entries.len(),
    decreases entries.len(),
{
    if entries.len() > 0 {
        lemma_hit_count_le_len(slots, entries.drop_last(), i);
    }
}

/// Headroom suffices: when every stored observer can take as many events as
/// there are registered handles, no counter can overflow during the
/// broadcast.
pub proof fn lemma_notify_ok_from_headroom(slots: Seq<Slot>, entries: Seq<ObserverHandle>)
    requires
        forall|i: int|
            0 <= i < slots.len() && slots[i].observer is Some ==> events_ok(
                #[trigger] slots[i].observer->Some_0,
                entries.len(),
            ),
    ensures
        notify_ok(slots, entries),
{
    assert forall|i: int|
        0 <= i < slots.len() && slots[i].observer is Some implies events_ok(
        #[trigger] slots[i].observer->Some_0,
        hit_count(slots, entries, i),
    ) by {
        lemma_hit_count_le_len(slots, entries, i);
    }
}

/// Order preservation: one broadcast delivers to exactly the registered
/// handles that resolve, in their registration order.
pub proof fn lemma_notify_order(slots: Seq<Slot>, entries: Seq<ObserverHandle>)
    ensures
        notify_log(slots, entries).map_values(|d: Delivery| d.handle) == live_entries(
            slots,
            entries,
        ),
    decreases entries.len(),
{
    if entries.len() == 0 {
        assert(notify_log(slots, entries).map_values(|d: Delivery| d.handle) =~= live_entries(
            slots,
            entries,
        ));
    } else {
        let dl = entries.drop_last();
        let h = entries.last();
        lemma_notify_order(slots, dl);
        lemma_notify_preserves_liveness(slots, dl, h);
        assert(notify_log(slots, entries).map_values(|d: Delivery| d.handle) =~= live_entries(
            slots,
            entries,
        ));
    }
}

/// A broadcast over an empty registry is a no-op: no deliveries are made and
/// no slot changes.
pub proof fn lemma_notify_empty(slots: Seq<Slot>)
    ensures
        notify_slots(slots, Seq::<ObserverHandle>::empty()) == slots,
        notify_log(slots, Seq::<ObserverHandle>::empty()) == Seq::<Delivery>::empty(),
{
}

/// A stale handle is skipped, and not only once: no delivery goes through
/// it, and it is still stale after the broadcast, so every later broadcast
/// skips it again.
pub proof fn lemma_dead_stays_dead(
    slots: Seq<Slot>,
    entries: Seq<ObserverHandle>,
    h: ObserverHandle,
)
    requires
        !slot_live(slots, h),
    ensures
        !slot_live(notify_slots(slots, entries), h),
        forall|m: int|
            0 <= m < notify_log(slots, entries).len() ==> (#[trigger] notify_log(
                slots,
                entries,
            )[m]).handle != h,
    decreases entries.len(),
{
    lemma_notify_preserves_liveness(slots, entries, h);
    if entries.len() > 0 {
        lemma_dead_stays_dead(slots, entries.drop_last(), h);
        lemma_notify_preserves_liveness(slots, entries.drop_last(), entries.last());
    }
}

/// Independence of observers, state side: a slot to which no registered
/// handle resolves is left exactly as it was, so one observer's
/// notification never mutates another's state.
pub proof fn lemma_unhit_slot_unchanged(
    slots: Seq<Slot>,
    entries: Seq<ObserverHandle>,
    i: int,
)
    requires
        0 <= i < slots.len(),
        hit_count(slots, entries, i) == 0,
    ensures
        notify_slots(slots, entries)[i] == slots[i],
{
    lemma_notify_preserves_shape(slots, entries);
    if slots[i].observer is Some {
        lemma_notify_counter(slots, entries);
    } else {
        assert(notify_slots(slots, entries)[i].observer is None);
    }
}

/// Whether an output is of the kind its observer produces: the stateless
/// observer acknowledges, the counting observer reports a count.
pub open spec fn output_matches(o: Observer, out: Output) -> bool {
    match o {
        Observer::A(_) => out is Plain,
        Observer::B(_) => out is Count,
    }
}

/// Independence of observers, output side: every delivery goes through a
/// handle that resolved before the broadcast, and carries the output kind
/// of that handle's own observer.
pub proof fn lemma_delivery_outputs(slots: Seq<Slot>, entries: Seq<ObserverHandle>)
    ensures
        forall|m: int|
            0 <= m < notify_log(slots, entries).len() ==> slot_live(
                slots,
                (#[trigger] notify_log(slots, entries)[m]).handle,
            ),
        forall|m: int|
            0 <= m < notify_log(slots, entries).len() ==> output_matches(
                slot_observer(slots, (#[trigger] notify_log(slots, entries)[m]).handle),
                notify_log(slots, entries)[m].output,
            ),
    decreases entries.len(),
{
    if entries.len() > 0 {
        let dl = entries.drop_last();
        let h = entries.last();
        lemma_delivery_outputs(slots, dl);
        lemma_notify_preserves_liveness(slots, dl, h);
        if slot_live(slots, h) {
            lemma_notify_counter(slots, dl);
            lemma_after_events_variant(
                slot_observer(slots, h),
                hit_count(slots, dl, h.index as int),
            );
        }
    }
}

/// Fail-soft on destruction: a handle that still resolves receives its
/// delivery, however many of the other registered handles have gone stale.
pub proof fn lemma_live_entry_delivered(
    slots: Seq<Slot>,
    entries: Seq<ObserverHandle>,
    j: int,
)
    requires
        0 <= j < entries.len(),
        slot_live(slots, entries[j]),
    ensures
        exists|m: int|
            0 <= m < notify_log(slots, entries).len() && (#[trigger] notify_log(
                slots,
                entries,
            )[m]).handle == entries[j],
    decreases entries.len(),
{
    let dl = entries.drop_last();
    let h = entries.last();
    lemma_notify_preserves_liveness(slots, dl, h);
    if j == entries.len() - 1 {
        let m = notify_log(slots, dl).len() as int;
        assert(notify_log(slots, entries)[m].handle == entries[j]);
    } else {
        assert(dl[j] == entries[j]);
        lemma_live_entry_delivered(slots, dl, j);
        let m = choose|m: int|
            0 <= m < notify_log(slots, dl).len() && (#[trigger] notify_log(slots, dl)[m]).handle
                == dl[j];
        assert(notify_log(slots, entries)[m].handle == entries[j]);
    }
}

} // verus!
