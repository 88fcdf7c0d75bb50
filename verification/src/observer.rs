//! Observer variants and their reaction to an event.
//!
//! Two concrete observers exist: a stateless one, whose reaction never
//! changes, and a counting one, which advances an internal counter by
//! exactly one per delivered event. `Observer` is the tagged union the
//! registry machinery dispatches over.

use vstd::prelude::*;

verus! {

/// The visible effect one observer produces when an event reaches it:
/// either a fixed acknowledgement, or the counting observer's new total.
#[derive(Clone, Copy, PartialEq, Eq, Structural, Debug)]
pub enum Output {
    Plain,
    Count(usize),
}

/// The stateless observer: it reacts to every event in the same way and
/// keeps no state.
#[derive(Clone, Copy, PartialEq, Eq, Structural, Debug)]
pub struct EventConsumerA;

/// The counting observer: it tallies how many events have reached it.
#[derive(Clone, Copy, PartialEq, Eq, Structural, Debug)]
pub struct EventConsumerB {
    pub counter: usize,
}

impl EventConsumerA {
    /// The stateless reaction: a fixed acknowledgement, no state change.
    pub fn handle_event_which_occurred(&self) -> (r: Output)
        ensures
            r == Output::Plain,
    {
        Output::Plain
    }

    pub fn event_occurred(&mut self) -> (r: Output)
        ensures
            *final(self) == *old(self),
            r == Output::Plain,
    {
        self.handle_event_which_occurred()
    }
}

impl EventConsumerB {
    /// A fresh counting observer; its counter starts at zero.
    pub fn new() -> (r: EventConsumerB)
        ensures
            r.counter == 0,
    {
        EventConsumerB { counter: 0 }
    }

    /// The counting reaction: the counter advances by exactly one and the
    /// new total is reported back.
    pub fn handle_event_which_occurred(&mut self) -> (r: Output)
        requires
            old(self).counter < usize::MAX,
        ensures
            final(self).counter == old(self).counter + 1,
            r == Output::Count(final(self).counter),
    {
        self.counter = self.counter + 1;
        Output::Count(self.counter)
    }

    /// Read the current total without changing it.
    pub fn report(&self) -> (r: usize)
        ensures
            r == self.counter,
    {
        self.counter
    }

    pub fn event_occurred(&mut self) -> (r: Output)
        requires
            old(self).counter < usize::MAX,
        ensures
            final(self).counter == old(self).counter + 1,
            r == Output::Count(final(self).counter),
    {
        self.handle_event_which_occurred()
    }
}

/// Any object able to react to an event: the tagged union over the two
/// concrete observer variants.
#[derive(Clone, Copy, PartialEq, Eq, Structural, Debug)]
pub enum Observer {
    A(EventConsumerA),
    B(EventConsumerB),
}

impl Observer {
    /// Whether one more event can reach this observer without its counter
    /// overflowing.
    pub open spec fn event_ok(self) -> bool {
        match self {
            Observer::A(_) => true,
            Observer::B(b) => b.counter < usize::MAX,
        }
    }

    /// The observer's state after one event has reached it.
    pub open spec fn after_event(self) -> Observer {
        match self {
            Observer::A(a) => Observer::A(a),
            Observer::B(b) => Observer::B(EventConsumerB { counter: (b.counter + 1) as usize }),
        }
    }

    /// The output the observer produces when one event reaches it.
    pub open spec fn event_output(self) -> Output {
        match self {
            Observer::A(_) => Output::Plain,
            Observer::B(b) => Output::Count((b.counter + 1) as usize),
        }
    }

    /// React to one event: the state advances by one event and the matching
    /// output comes back.
    pub fn event_occurred(&mut self) -> (r: Output)
        requires
            old(self).event_ok(),
        ensures
            *final(self) == old(self).after_event(),
            r == old(self).event_output(),
    {
        match self {
            Observer::A(a) => a.event_occurred(),
            Observer::B(b) => b.event_occurred(),
        }
    }
}

/// The observer's state after `k` events have reached it, one at a time.
pub open spec fn after_events(o: Observer, k: nat) -> Observer
    decreases k,
{
    if k == 0 {
        o
    } else {
        after_events(o, (k - 1) as nat).after_event()
    }
}

/// Whether `k` events can reach `o` without its counter overflowing.
pub open spec fn events_ok(o: Observer, k: nat) -> bool {
    match o {
        Observer::A(_) => true,
        Observer::B(b) => b.counter + k <= usize::MAX,
    }
}

} // verus!
