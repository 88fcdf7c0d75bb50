//! The slot table that owns the observers, and the non-owning handles
//! through which a registry refers to them.
//!
//! A handle is an index stamped with the generation its slot carried when
//! the observer was stored. Destroying an observer empties the slot but
//! keeps the stamp; storing a new observer in a reused slot advances the
//! stamp. A stale handle therefore never resolves again, neither to the
//! destroyed observer nor to a later tenant of the same slot.

use vstd::prelude::*;

use crate::observer::{Observer, Output};

verus! {

/// A non-owning reference to an observer: a slot index plus the generation
/// stamp under which the observer was stored.
#[derive(Clone, Copy, PartialEq, Eq, Structural, Debug)]
pub struct ObserverHandle {
    pub index: usize,
    pub generation: u64,
}

/// One slot of the arena: its current generation stamp and the observer it
/// holds, if any.
#[derive(Clone, Copy, Debug)]
pub struct Slot {
    pub generation: u64,
    pub observer: Option<Observer>,
}

/// Whether `h` resolves to a live observer in the slot table `slots`: the
/// index is in range, the generation stamps agree, and the slot is occupied.
pub open spec fn slot_live(slots: Seq<Slot>, h: ObserverHandle) -> bool {
    &&& h.index < slots.len()
    &&& slots[h.index as int].generation == h.generation
    &&& slots[h.index as int].observer is Some
}

/// The observer `h` resolves to; meaningful only when `slot_live` holds.
pub open spec fn slot_observer(slots: Seq<Slot>, h: ObserverHandle) -> Observer
    recommends
        slot_live(slots, h),
{
    slots[h.index as int].observer->Some_0
}

/// The arena: owner of every observer, addressed through handles.
pub struct ObserverArena {
    pub slots: Vec<Slot>,
}

impl View for ObserverArena {
    type V = Seq<Slot>;

    open spec fn view(&self) -> Seq<Slot> {
        self.slots@
    }
}

impl ObserverArena {
    /// An empty arena: no slots, so no handle resolves.
    pub fn new() -> (r: ObserverArena)
        ensures
            r@.len() == 0,
    {
        ObserverArena { slots: Vec::new() }
    }

    /// Store an observer and hand back a handle that resolves to it.
    ///
    /// Every other handle keeps its status: one live before stays live and
    /// still resolves to the same observer, and one stale before stays
    /// stale. The returned handle itself resolved to nothing before the
    /// call, so no caller can have held it.
    pub fn insert(&mut self, o: Observer) -> (h: ObserverHandle)
        ensures
            slot_live(final(self)@, h),
            slot_observer(final(self)@, h) == o,
            !slot_live(old(self)@, h),
            forall|h2: ObserverHandle|
                h2 != h ==> (slot_live(final(self)@, h2) <==> slot_live(old(self)@, h2)),
            forall|h2: ObserverHandle|
                h2 != h && slot_live(old(self)@, h2) ==> slot_observer(final(self)@, h2)
                    == slot_observer(old(self)@, h2),
    {
        let n = self.slots.len();
        let mut i: usize = 0;
        while i < n
            invariant
                n == self@.len(),
                i <= n,
                self@ == old(self)@,
            decreases n - i,
        {
            let vacant = self.slots[i].observer.is_none();
            let stamp = self.slots[i].generation;
            if vacant && stamp < u64::MAX {
                self.slots[i] = Slot { generation: stamp + 1, observer: Some(o) };
                return ObserverHandle { index: i, generation: stamp + 1 };
            }
            i = i + 1;
        }
        self.slots.push(Slot { generation: 0, observer: Some(o) });
        ObserverHandle { index: n, generation: 0 }
    }

    /// Destroy the observer `h` refers to, leaving the slot vacant under the
    /// same stamp; a no-op when `h` is already stale. Every other handle
    /// keeps its status and target.
    pub fn destroy(&mut self, h: ObserverHandle)
        ensures
            !slot_live(final(self)@, h),
            forall|h2: ObserverHandle|
                h2 != h ==> (slot_live(final(self)@, h2) <==> slot_live(old(self)@, h2)),
            forall|h2: ObserverHandle|
                h2 != h && slot_live(old(self)@, h2) ==> slot_observer(final(self)@, h2)
                    == slot_observer(old(self)@, h2),
    {
        if h.index < self.slots.len() {
            if self.slots[h.index].generation == h.generation {
                self.slots[h.index] = Slot { generation: h.generation, observer: None };
            }
        }
    }

    /// Attempt to resolve `h`: does it still refer to a live observer?
    pub fn is_live(&self, h: ObserverHandle) -> (r: bool)
        ensures
            r == slot_live(self@, h),
    {
        h.index < self.slots.len() && self.slots[h.index].generation == h.generation
            && self.slots[h.index].observer.is_some()
    }

    /// Resolve `h` to a copy of its observer's current state, or `None`
    /// when `h` is stale.
    pub fn get(&self, h: ObserverHandle) -> (r: Option<Observer>)
        ensures
            r == if slot_live(self@, h) {
                Some(slot_observer(self@, h))
            } else {
                None::<Observer>
            },
    {
        if self.is_live(h) {
            self.slots[h.index].observer
        } else {
            None
        }
    }

    /// Deliver one event to the observer `h` resolves to: that slot's
    /// observer advances by one event under an unchanged stamp, every other
    /// slot is untouched, and the observer's output comes back.
    pub fn deliver(&mut self, h: ObserverHandle) -> (r: Output)
        requires
            slot_live(old(self)@, h),
            slot_observer(old(self)@, h).event_ok(),
        ensures
            final(self)@ == old(self)@.update(
                h.index as int,
                Slot {
                    generation: h.generation,
                    observer: Some(slot_observer(old(self)@, h).after_event()),
                },
            ),
            r == slot_observer(old(self)@, h).event_output(),
    {
        let mut obs = match self.slots[h.index].observer {
            Some(o) => o,
            None => unreached(),
        };
        let out = obs.event_occurred();
        self.slots[h.index] = Slot { generation: h.generation, observer: Some(obs) };
        out
    }
}

} // verus!
