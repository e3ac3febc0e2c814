use stop_cross::action::{AddressedEvent, Emission};
use stop_cross::config::{create_crosswalk_fsm, create_stoplight_fsm, CrosswalkState, StoplightState};
use stop_cross::dispatch::dispatch_emissions;
use stop_cross::engine::Outcome;
use stop_cross::event::Event;
use stop_cross::router::Router;
use stop_cross::timer::DeferredQueue;

fn msg(target: &str, event: Event) -> AddressedEvent {
    AddressedEvent { target: target.to_owned(), event }
}

/// Dispatching a report's emissions delivers the immediate ones to the
/// router now and schedules the delayed ones as one-shot tasks.
#[test]
fn dispatch_splits_immediate_and_deferred() {
    let mut router = Router::new();
    router.register("Crosswalk".to_owned());
    let mut deferred = DeferredQueue::new();
    let emissions = vec![
        Emission { delay_secs: 0, msg: msg("Crosswalk", Event::Walk) },
        Emission { delay_secs: 6, msg: msg("Crosswalk", Event::Blinking) },
    ];
    dispatch_emissions(&mut router, &mut deferred, 0, &emissions);

    let target = "Crosswalk".to_owned();
    assert_eq!(router.take_event(&target), Some(Event::Walk));
    assert_eq!(router.take_event(&target), None);
    assert_eq!(deferred.pending.len(), 1);
    assert_eq!(deferred.pending[0].due, 6);

    let fired = deferred.fire_due(6);
    assert_eq!(fired.len(), 1);
    assert_eq!(fired[0].event, Event::Blinking);
    assert_eq!(deferred.pending.len(), 0);
}

/// An emission addressed to an unregistered name is dropped silently;
/// the rest of the list is still dispatched.
#[test]
fn dispatch_drops_unknown_targets() {
    let mut router = Router::new();
    router.register("Stoplight".to_owned());
    let mut deferred = DeferredQueue::new();
    let emissions = vec![
        Emission { delay_secs: 0, msg: msg("Subway", Event::Start) },
        Emission { delay_secs: 0, msg: msg("Stoplight", Event::Timer) },
    ];
    dispatch_emissions(&mut router, &mut deferred, 0, &emissions);

    assert_eq!(router.take_event(&"Stoplight".to_owned()), Some(Event::Timer));
    assert_eq!(router.take_event(&"Stoplight".to_owned()), None);
    assert_eq!(deferred.pending.len(), 0);
}

/// The whole flow of one `Start` command, at logical time: the
/// stoplight turns red and its entry hook tells the crosswalk to walk
/// now and to start blinking six seconds later; the crosswalk follows.
#[test]
fn start_command_end_to_end() {
    let mut stoplight = create_stoplight_fsm();
    let mut crosswalk = create_crosswalk_fsm();
    let mut router = Router::new();
    router.register("Stoplight".to_owned());
    router.register("Crosswalk".to_owned());
    let mut deferred = DeferredQueue::new();
    let crosswalk_name = "Crosswalk".to_owned();

    crosswalk.process_event(Event::Start);
    let rep = match stoplight.process_event(Event::Start) {
        Outcome::Transitioned(rep) => rep,
        _ => panic!("expected a transition"),
    };
    assert_eq!(stoplight.current_state, StoplightState::Red);
    dispatch_emissions(&mut router, &mut deferred, 0, &rep.emissions);

    // The immediate emission reaches the crosswalk now:
    let e = router.take_event(&crosswalk_name).expect("an event is queued");
    crosswalk.process_event(e);
    assert_eq!(crosswalk.current_state, CrosswalkState::Walk);

    // Nothing more is due before six seconds have passed:
    for m in deferred.fire_due(5) {
        router.route(&m.target, m.event);
    }
    assert_eq!(router.take_event(&crosswalk_name), None);

    // At six seconds the one-shot fires, exactly once:
    for m in deferred.fire_due(6) {
        router.route(&m.target, m.event);
    }
    let e = router.take_event(&crosswalk_name).expect("the one-shot fired");
    crosswalk.process_event(e);
    assert_eq!(crosswalk.current_state, CrosswalkState::Blinking);
    assert_eq!(router.take_event(&crosswalk_name), None);
    assert_eq!(deferred.pending.len(), 0);
}
