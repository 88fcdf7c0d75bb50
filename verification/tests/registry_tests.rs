use observer_registry::arena::ObserverArena;
use observer_registry::generator::EventGenerator;
use observer_registry::observer::{EventConsumerA, EventConsumerB, Observer, Output};
use observer_registry::registry::{Delivery, ObserverRegistry};

#[test]
fn order_preservation() {
    let mut arena = ObserverArena::new();
    let mut reg = ObserverRegistry::new();
    let h1 = arena.insert(Observer::A(EventConsumerA));
    let h2 = arena.insert(Observer::B(EventConsumerB::new()));
    let h3 = arena.insert(Observer::A(EventConsumerA));
    reg.register(h1);
    reg.register(h2);
    reg.register(h3);
    let log = reg.notify(&mut arena);
    let handles: Vec<_> = log.iter().map(|d| d.handle).collect();
    assert_eq!(handles, vec![h1, h2, h3]);
}

#[test]
fn order_kept_on_every_call() {
    let mut arena = ObserverArena::new();
    let mut reg = ObserverRegistry::new();
    let h1 = arena.insert(Observer::B(EventConsumerB::new()));
    let h2 = arena.insert(Observer::B(EventConsumerB::new()));
    reg.register(h1);
    reg.register(h2);
    let first: Vec<_> = reg.notify(&mut arena).iter().map(|d| d.handle).collect();
    let second: Vec<_> = reg.notify(&mut arena).iter().map(|d| d.handle).collect();
    assert_eq!(first, vec![h1, h2]);
    assert_eq!(second, vec![h1, h2]);
}

#[test]
fn fail_soft_on_destruction() {
    let mut arena = ObserverArena::new();
    let mut reg = ObserverRegistry::new();
    let ha = arena.insert(Observer::A(EventConsumerA));
    let hb = arena.insert(Observer::B(EventConsumerB::new()));
    reg.register(ha);
    reg.register(hb);
    arena.destroy(ha);
    let log = reg.notify(&mut arena);
    assert_eq!(
        log,
        vec![Delivery { handle: hb, output: Output::Count(1) }]
    );
    assert_eq!(
        arena.get(hb),
        Some(Observer::B(EventConsumerB { counter: 1 }))
    );
}

#[test]
fn counter_correctness() {
    let mut arena = ObserverArena::new();
    let mut gen = EventGenerator::new();
    let hb = arena.insert(Observer::B(EventConsumerB::new()));
    gen.register(hb);
    gen.do_something(&mut arena);
    gen.do_something(&mut arena);
    gen.do_something(&mut arena);
    match arena.get(hb) {
        Some(Observer::B(b)) => assert_eq!(b.report(), 3),
        other => panic!("counting observer vanished: {:?}", other),
    }
}

#[test]
fn empty_registry_noop() {
    let mut arena = ObserverArena::new();
    let reg = ObserverRegistry::new();
    let log = reg.notify(&mut arena);
    assert!(log.is_empty());
}

#[test]
fn empty_registry_leaves_observers_alone() {
    let mut arena = ObserverArena::new();
    let hb = arena.insert(Observer::B(EventConsumerB::new()));
    let reg = ObserverRegistry::new();
    let log = reg.notify(&mut arena);
    assert!(log.is_empty());
    assert_eq!(
        arena.get(hb),
        Some(Observer::B(EventConsumerB { counter: 0 }))
    );
}

#[test]
fn idempotent_resolution() {
    let mut arena = ObserverArena::new();
    let mut reg = ObserverRegistry::new();
    let ha = arena.insert(Observer::A(EventConsumerA));
    let hb = arena.insert(Observer::B(EventConsumerB::new()));
    reg.register(ha);
    reg.register(hb);
    arena.destroy(ha);
    for round in 1..=3usize {
        let log = reg.notify(&mut arena);
        assert_eq!(
            log,
            vec![Delivery { handle: hb, output: Output::Count(round) }]
        );
        assert_eq!(arena.get(ha), None);
    }
}

#[test]
fn independence_of_observers() {
    let mut arena = ObserverArena::new();
    let mut reg = ObserverRegistry::new();
    let ha = arena.insert(Observer::A(EventConsumerA));
    let hb = arena.insert(Observer::B(EventConsumerB::new()));
    reg.register(ha);
    reg.register(hb);
    let log = reg.notify(&mut arena);
    assert_eq!(
        log,
        vec![
            Delivery { handle: ha, output: Output::Plain },
            Delivery { handle: hb, output: Output::Count(1) },
        ]
    );
    // The stateless observer is exactly as it was stored; only the counting
    // observer's own state moved, and only by its own deliveries.
    assert_eq!(arena.get(ha), Some(Observer::A(EventConsumerA)));
    assert_eq!(
        arena.get(hb),
        Some(Observer::B(EventConsumerB { counter: 1 }))
    );
}

#[test]
fn duplicate_registration_delivers_twice() {
    let mut arena = ObserverArena::new();
    let mut reg = ObserverRegistry::new();
    let hb = arena.insert(Observer::B(EventConsumerB::new()));
    reg.register(hb);
    reg.register(hb);
    let log = reg.notify(&mut arena);
    assert_eq!(
        log,
        vec![
            Delivery { handle: hb, output: Output::Count(1) },
            Delivery { handle: hb, output: Output::Count(2) },
        ]
    );
    assert_eq!(
        arena.get(hb),
        Some(Observer::B(EventConsumerB { counter: 2 }))
    );
}

#[test]
fn registration_after_broadcast_extends_order() {
    let mut arena = ObserverArena::new();
    let mut gen = EventGenerator::new();
    let h1 = arena.insert(Observer::B(EventConsumerB::new()));
    gen.register(h1);
    let first = gen.do_something(&mut arena);
    assert_eq!(first.len(), 1);
    let h2 = arena.insert(Observer::A(EventConsumerA));
    gen.register(h2);
    let second = gen.do_something(&mut arena);
    let handles: Vec<_> = second.iter().map(|d| d.handle).collect();
    assert_eq!(handles, vec![h1, h2]);
}

#[test]
fn generator_forwards_registration() {
    let mut arena = ObserverArena::new();
    let mut gen = EventGenerator::new();
    let hb = arena.insert(Observer::B(EventConsumerB::new()));
    gen.register(hb);
    let log = gen.do_something(&mut arena);
    assert_eq!(
        log,
        vec![Delivery { handle: hb, output: Output::Count(1) }]
    );
}
