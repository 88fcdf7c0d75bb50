//! The event generator (publisher): the subject that owns the registry and
//! triggers broadcasts.

use vstd::prelude::*;

use crate::arena::{ObserverArena, ObserverHandle};
use crate::registry::{notify_log, notify_ok, notify_slots, Delivery, ObserverRegistry};

verus! {

/// The publisher: it owns its registry for its whole lifetime and fires a
/// broadcast each time it does its unit of work.
pub struct EventGenerator {
    pub observers: ObserverRegistry,
}

impl EventGenerator {
    /// A fresh publisher with an empty registry.
    pub fn new() -> (r: EventGenerator)
        ensures
            r.observers@.len() == 0,
    {
        EventGenerator { observers: ObserverRegistry::new() }
    }

    /// Forward a registration to the owned registry: the handle is appended
    /// to the registration order.
    pub fn register(&mut self, observer: ObserverHandle)
        ensures
            final(self).observers@ == old(self).observers@.push(observer),
    {
        self.observers.register(observer);
    }

    /// Do one unit of work: exactly one broadcast through the owned
    /// registry. The registry itself is unchanged, and the deliveries made
    /// come back in visiting order.
    pub fn do_something(&mut self, arena: &mut ObserverArena) -> (log: Vec<Delivery>)
        requires
            notify_ok(old(arena)@, old(self).observers@),
        ensures
            *final(self) == *old(self),
            final(arena)@ == notify_slots(old(arena)@, old(self).observers@),
            log@ == notify_log(old(arena)@, old(self).observers@),
    {
        self.observers.notify(arena)
    }
}

} // verus!
