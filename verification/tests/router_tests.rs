use stop_cross::config::{create_crosswalk_fsm, CrosswalkState};
use stop_cross::event::Event;
use stop_cross::router::Router;

/// Per-producer, per-target FIFO: two events routed to the same target
/// come back out in send order.
#[test]
fn route_preserves_fifo_order() {
    let mut router = Router::new();
    router.register("Crosswalk".to_owned());
    let target = "Crosswalk".to_owned();
    router.route(&target, Event::Walk);
    router.route(&target, Event::Blinking);
    assert_eq!(router.take_event(&target), Some(Event::Walk));
    assert_eq!(router.take_event(&target), Some(Event::Blinking));
    assert_eq!(router.take_event(&target), None);
}

/// FIFO order observed through a table whose transitions are only
/// reachable in one order: `Walk` then `Blinking` reaches `Blinking`;
/// the reversed order would stop at `Walk`.
#[test]
fn order_dependent_transitions_processed_in_send_order() {
    let mut router = Router::new();
    router.register("Crosswalk".to_owned());
    let target = "Crosswalk".to_owned();
    let mut fsm = create_crosswalk_fsm();
    fsm.process_event(Event::Start);

    router.route(&target, Event::Walk);
    router.route(&target, Event::Blinking);
    while let Some(e) = router.take_event(&target) {
        fsm.process_event(e);
    }
    assert_eq!(fsm.current_state, CrosswalkState::Blinking);
}

/// The reversed delivery order reaches a different state, showing that
/// the order in the previous test was really observed.
#[test]
fn reversed_order_reaches_a_different_state() {
    let mut router = Router::new();
    router.register("Crosswalk".to_owned());
    let target = "Crosswalk".to_owned();
    let mut fsm = create_crosswalk_fsm();
    fsm.process_event(Event::Start);

    router.route(&target, Event::Blinking);
    router.route(&target, Event::Walk);
    while let Some(e) = router.take_event(&target) {
        fsm.process_event(e);
    }
    assert_eq!(fsm.current_state, CrosswalkState::Walk);
}

/// An unknown target name drops the event silently and changes nothing.
#[test]
fn unknown_target_is_dropped() {
    let mut router = Router::new();
    router.register("Crosswalk".to_owned());
    router.route(&"Subway".to_owned(), Event::Start);
    assert_eq!(router.take_event(&"Subway".to_owned()), None);
    assert_eq!(router.take_event(&"Crosswalk".to_owned()), None);
}

/// Registering a name twice keeps the first registration: events routed
/// to the name land in one queue.
#[test]
fn duplicate_registration_is_ignored() {
    let mut router = Router::new();
    router.register("Crosswalk".to_owned());
    router.register("Crosswalk".to_owned());
    assert_eq!(router.inboxes.len(), 1);
    let target = "Crosswalk".to_owned();
    router.route(&target, Event::Walk);
    assert_eq!(router.take_event(&target), Some(Event::Walk));
    assert_eq!(router.take_event(&target), None);
}

/// Routing to one engine leaves every other engine's queue unchanged.
#[test]
fn routing_is_per_target() {
    let mut router = Router::new();
    router.register("Stoplight".to_owned());
    router.register("Crosswalk".to_owned());
    router.route(&"Stoplight".to_owned(), Event::Exit);
    assert_eq!(router.take_event(&"Crosswalk".to_owned()), None);
    assert_eq!(router.take_event(&"Stoplight".to_owned()), Some(Event::Exit));
}
