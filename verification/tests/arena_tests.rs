use observer_registry::arena::ObserverArena;
use observer_registry::observer::{EventConsumerA, EventConsumerB, Observer, Output};
use observer_registry::registry::ObserverRegistry;

#[test]
fn insert_then_resolve() {
    let mut arena = ObserverArena::new();
    let h = arena.insert(Observer::B(EventConsumerB::new()));
    assert!(arena.is_live(h));
    assert_eq!(
        arena.get(h),
        Some(Observer::B(EventConsumerB { counter: 0 }))
    );
}

#[test]
fn destroy_makes_handle_stale() {
    let mut arena = ObserverArena::new();
    let h = arena.insert(Observer::A(EventConsumerA));
    arena.destroy(h);
    assert!(!arena.is_live(h));
    assert_eq!(arena.get(h), None);
    // Staleness is permanent, not a one-shot answer.
    assert_eq!(arena.get(h), None);
}

#[test]
fn destroy_is_a_noop_on_a_stale_handle() {
    let mut arena = ObserverArena::new();
    let ha = arena.insert(Observer::A(EventConsumerA));
    let hb = arena.insert(Observer::B(EventConsumerB::new()));
    arena.destroy(ha);
    arena.destroy(ha);
    assert!(!arena.is_live(ha));
    assert!(arena.is_live(hb));
}

#[test]
fn destroy_leaves_other_observers_alone() {
    let mut arena = ObserverArena::new();
    let ha = arena.insert(Observer::A(EventConsumerA));
    let hb = arena.insert(Observer::B(EventConsumerB::new()));
    arena.destroy(ha);
    assert_eq!(arena.get(ha), None);
    assert_eq!(
        arena.get(hb),
        Some(Observer::B(EventConsumerB { counter: 0 }))
    );
}

#[test]
fn reused_slot_does_not_resurrect_stale_handle() {
    let mut arena = ObserverArena::new();
    let old = arena.insert(Observer::B(EventConsumerB::new()));
    arena.destroy(old);
    // The vacated slot is reused under a fresh generation stamp.
    let new = arena.insert(Observer::A(EventConsumerA));
    assert_eq!(new.index, old.index);
    assert_ne!(new, old);
    assert_eq!(arena.get(old), None);
    assert_eq!(arena.get(new), Some(Observer::A(EventConsumerA)));
    // A broadcast through the stale handle still skips it.
    let mut reg = ObserverRegistry::new();
    reg.register(old);
    let log = reg.notify(&mut arena);
    assert!(log.is_empty());
}

#[test]
fn stateless_observer_reaction() {
    let a = EventConsumerA;
    assert_eq!(a.handle_event_which_occurred(), Output::Plain);
}

#[test]
fn counting_observer_reaction() {
    let mut b = EventConsumerB::new();
    assert_eq!(b.report(), 0);
    assert_eq!(b.handle_event_which_occurred(), Output::Count(1));
    assert_eq!(b.handle_event_which_occurred(), Output::Count(2));
    assert_eq!(b.report(), 2);
    // Reading the counter does not move it.
    assert_eq!(b.report(), 2);
}

#[test]
fn observer_dispatch_matches_variant() {
    let mut a = Observer::A(EventConsumerA);
    let mut b = Observer::B(EventConsumerB::new());
    assert_eq!(a.event_occurred(), Output::Plain);
    assert_eq!(b.event_occurred(), Output::Count(1));
    assert_eq!(a, Observer::A(EventConsumerA));
    assert_eq!(b, Observer::B(EventConsumerB { counter: 1 }));
}
