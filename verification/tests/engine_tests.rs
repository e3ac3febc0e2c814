use stop_cross::config::{create_crosswalk_fsm, create_stoplight_fsm, CrosswalkState, StoplightState};
use stop_cross::engine::{fsm_thread, Outcome, FSM, Transition};
use stop_cross::event::Event;
use stop_cross::router::Router;

/// Scenario: a fresh stoplight receives `Start` and transitions from
/// `Init` to its configured post-`Init` state, emitting the declared
/// addressed side effects of the entry hook.
#[test]
fn scenario_start_transitions_to_red() {
    let mut fsm = create_stoplight_fsm();
    assert_eq!(fsm.current_state, StoplightState::Init);
    let o = fsm.process_event(Event::Start);
    assert_eq!(fsm.current_state, StoplightState::Red);
    match o {
        Outcome::Transitioned(rep) => {
            assert_eq!(rep.log.fsm_name, "Stoplight");
            assert_eq!(rep.log.description, "Transition to RED");
            assert_eq!(rep.emissions.len(), 2);
            assert_eq!(rep.emissions[0].delay_secs, 0);
            assert_eq!(rep.emissions[0].msg.target, "Crosswalk");
            assert_eq!(rep.emissions[0].msg.event, Event::Walk);
            assert_eq!(rep.emissions[1].delay_secs, 6);
            assert_eq!(rep.emissions[1].msg.target, "Crosswalk");
            assert_eq!(rep.emissions[1].msg.event, Event::Blinking);
        }
        _ => panic!("expected a transition"),
    }
}

/// Scenario: an engine in a state with no row for `Blinking` receives
/// `Blinking`: the event is discarded, the state is unchanged.
#[test]
fn scenario_unmatched_blinking_is_discarded() {
    let mut fsm = create_crosswalk_fsm();
    let o = fsm.process_event(Event::Start);
    assert!(matches!(o, Outcome::Transitioned(_)));
    assert_eq!(fsm.current_state, CrosswalkState::DontWalk);
    let o = fsm.process_event(Event::Blinking);
    assert!(matches!(o, Outcome::Discarded));
    assert_eq!(fsm.current_state, CrosswalkState::DontWalk);
}

/// Determinism: two engines with the same table, state and last event,
/// given the same event, agree on the next state and the outcome.
#[test]
fn determinism_same_inputs_same_outcome() {
    let mut a = create_stoplight_fsm();
    let mut b = create_stoplight_fsm();
    for e in [Event::Start, Event::Timer, Event::Button, Event::Walk] {
        let oa = a.process_event(e);
        let ob = b.process_event(e);
        assert_eq!(a.current_state, b.current_state);
        assert_eq!(a.last_event, b.last_event);
        match (oa, ob) {
            (Outcome::Transitioned(ra), Outcome::Transitioned(rb)) => {
                assert_eq!(ra.log.description, rb.log.description);
                assert_eq!(ra.emissions.len(), rb.emissions.len());
            }
            (Outcome::Discarded, Outcome::Discarded) => {}
            (Outcome::ExitLoop, Outcome::ExitLoop) => {}
            (Outcome::Displayed(_), Outcome::Displayed(_)) => {}
            _ => panic!("outcomes disagree"),
        }
    }
}

/// Discard idempotence: the same unmatched event, sent repeatedly,
/// never changes the state and never fires a transition.
#[test]
fn discard_idempotence() {
    let mut fsm = create_crosswalk_fsm();
    for _ in 0..3 {
        let o = fsm.process_event(Event::Button);
        assert!(matches!(o, Outcome::Discarded));
        assert_eq!(fsm.current_state, CrosswalkState::Init);
    }
}

/// Control-event priority: `Exit` terminates the processing loop
/// whatever the current state; later events are not processed.
#[test]
fn exit_terminates_loop_first() {
    let mut fsm = create_stoplight_fsm();
    let events = vec![Event::Exit, Event::Start, Event::Timer];
    let run = fsm_thread(&mut fsm, &events);
    assert!(run.exited);
    assert_eq!(run.outcomes.len(), 1);
    assert!(matches!(run.outcomes[0], Outcome::ExitLoop));
    assert_eq!(fsm.current_state, StoplightState::Init);
}

/// Control-event priority: `Exit` also terminates mid-run, after the
/// earlier events were processed normally.
#[test]
fn exit_terminates_loop_mid_run() {
    let mut fsm = create_stoplight_fsm();
    let events = vec![Event::Start, Event::Exit, Event::Timer];
    let run = fsm_thread(&mut fsm, &events);
    assert!(run.exited);
    assert_eq!(run.outcomes.len(), 2);
    assert!(matches!(run.outcomes[0], Outcome::Transitioned(_)));
    assert!(matches!(run.outcomes[1], Outcome::ExitLoop));
    assert_eq!(fsm.current_state, StoplightState::Red);
}

/// Control-event priority: `Display` never mutates the state or the
/// last event; it reports them as they are, without a table lookup.
#[test]
fn display_never_mutates() {
    let mut fsm = create_stoplight_fsm();
    let o = fsm.process_event(Event::Display);
    match o {
        Outcome::Displayed(rec) => {
            assert_eq!(rec.engine_name, "Stoplight");
            assert_eq!(rec.current_state, StoplightState::Init);
            assert_eq!(rec.last_event, None);
        }
        _ => panic!("expected an introspection record"),
    }
    assert_eq!(fsm.current_state, StoplightState::Init);
    assert_eq!(fsm.last_event, None);

    fsm.process_event(Event::Start);
    let o = fsm.process_event(Event::Display);
    match o {
        Outcome::Displayed(rec) => {
            assert_eq!(rec.current_state, StoplightState::Red);
            assert_eq!(rec.last_event, Some(Event::Start));
        }
        _ => panic!("expected an introspection record"),
    }
    assert_eq!(fsm.current_state, StoplightState::Red);
}

/// Scenario: engine `A`'s entry hook emits an event addressed to engine
/// `B`; `B` receives and processes it, and `A`'s state commit is
/// already visible before `B`'s processing runs.
#[test]
fn scenario_cross_engine_emission() {
    let mut stoplight = create_stoplight_fsm();
    let mut crosswalk = create_crosswalk_fsm();
    let mut router = Router::new();
    router.register("Stoplight".to_owned());
    router.register("Crosswalk".to_owned());

    crosswalk.process_event(Event::Start);
    assert_eq!(crosswalk.current_state, CrosswalkState::DontWalk);

    let o = stoplight.process_event(Event::Start);
    // A's commit is visible as soon as its processing step returns,
    // before any emission is delivered:
    assert_eq!(stoplight.current_state, StoplightState::Red);
    let rep = match o {
        Outcome::Transitioned(rep) => rep,
        _ => panic!("expected a transition"),
    };
    for em in &rep.emissions {
        if em.delay_secs == 0 {
            router.route(&em.msg.target, em.msg.event);
        }
    }
    let delivered = router.take_event(&"Crosswalk".to_owned());
    assert_eq!(delivered, Some(Event::Walk));
    let o = crosswalk.process_event(Event::Walk);
    assert!(matches!(o, Outcome::Transitioned(_)));
    assert_eq!(crosswalk.current_state, CrosswalkState::Walk);
}

/// Scenario: `Exit` sent to one engine terminates only that engine's
/// loop; the other engine keeps processing.
#[test]
fn scenario_exit_is_per_engine() {
    let mut stoplight = create_stoplight_fsm();
    let mut crosswalk = create_crosswalk_fsm();

    let run = fsm_thread(&mut stoplight, &vec![Event::Exit]);
    assert!(run.exited);

    let run = fsm_thread(&mut crosswalk, &vec![Event::Start, Event::Walk]);
    assert!(!run.exited);
    assert_eq!(run.outcomes.len(), 2);
    assert_eq!(crosswalk.current_state, CrosswalkState::Walk);
}

/// A full run through the stoplight's cycle: red, green, yellow, and
/// back to red, with the timer and the button.
#[test]
fn stoplight_cycle() {
    let mut fsm = create_stoplight_fsm();
    let events = vec![Event::Start, Event::Timer, Event::Button, Event::Timer];
    let run = fsm_thread(&mut fsm, &events);
    assert!(!run.exited);
    assert_eq!(run.outcomes.len(), 4);
    assert!(run.outcomes.iter().all(|o| matches!(o, Outcome::Transitioned(_))));
    assert_eq!(fsm.current_state, StoplightState::Red);
    assert_eq!(fsm.last_event, Some(Event::Timer));
}

/// When a table is authored with duplicate `(state, event)` rows, the
/// first-declared row wins.
#[test]
fn first_declared_duplicate_row_wins() {
    let transitions = vec![
        Transition {
            from_state: CrosswalkState::Init,
            event: Event::Start,
            exit_action: None,
            to_state: CrosswalkState::Walk,
            entry_action: None,
            description: "first".to_owned(),
        },
        Transition {
            from_state: CrosswalkState::Init,
            event: Event::Start,
            exit_action: None,
            to_state: CrosswalkState::Blinking,
            entry_action: None,
            description: "second".to_owned(),
        },
    ];
    let mut fsm = FSM::new("Duplicated".to_owned(), transitions);
    let o = fsm.process_event(Event::Start);
    assert_eq!(fsm.current_state, CrosswalkState::Walk);
    match o {
        Outcome::Transitioned(rep) => assert_eq!(rep.log.description, "first"),
        _ => panic!("expected a transition"),
    }
}

/// An unmatched, non-control event is still recorded as the last event.
#[test]
fn last_event_recorded_on_discard() {
    let mut fsm = create_stoplight_fsm();
    let o = fsm.process_event(Event::Walk);
    assert!(matches!(o, Outcome::Discarded));
    assert_eq!(fsm.last_event, Some(Event::Walk));
    assert_eq!(fsm.current_state, StoplightState::Init);
}
