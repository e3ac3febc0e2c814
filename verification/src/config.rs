//! The sample domain configuration: a stoplight engine and a crosswalk
//! engine, their transition tables, the periodic timer aimed at the
//! stoplight, and the fan-out of command events to engine names. The
//! engine, router and timer core are generic; only this module knows
//! the traffic-light vocabulary.

use vstd::prelude::*;
use crate::action::{Action, AddressedEvent, Emission};
use crate::engine::{FSM, State, Transition};
use crate::event::Event;
use crate::timer::PeriodicTimer;

verus! {

/// The states of the stoplight engine.
#[derive(Clone, Copy, Debug, PartialEq, Eq, Structural)]
pub enum StoplightState {
    Init,
    Red,
    Yellow,
    Green,
}

/// The states of the crosswalk engine.
#[derive(Clone, Copy, Debug, PartialEq, Eq, Structural)]
pub enum CrosswalkState {
    Init,
    Walk,
    Blinking,
    DontWalk,
}

impl State for StoplightState {
    open spec fn spec_init() -> Self {
        StoplightState::Init
    }

    fn init() -> (s: Self) {
        StoplightState::Init
    }

    fn eq_state(&self, other: &Self) -> (r: bool) {
        *self == *other
    }
}

impl State for CrosswalkState {
    open spec fn spec_init() -> Self {
        CrosswalkState::Init
    }

    fn init() -> (s: Self) {
        CrosswalkState::Init
    }

    fn eq_state(&self, other: &Self) -> (r: bool) {
        *self == *other
    }
}

/// A row's key fields: where it starts, what it consumes, where it goes,
/// and how the log describes it.
pub open spec fn row_spec<S>(t: Transition<S>, from: S, e: Event, to: S, desc: Seq<char>) -> bool {
    &&& t.from_state == from
    &&& t.event == e
    &&& t.to_state == to
    &&& t.description@ == desc
}

/// A row with neither an exit hook nor an entry hook.
pub open spec fn no_hooks<S>(t: Transition<S>) -> bool {
    t.exit_action is None && t.entry_action is None
}

/// One emission's content: its delay, its target name and its event.
pub open spec fn emission_spec(em: Emission, delay: u64, target: Seq<char>, e: Event) -> bool {
    &&& em.delay_secs == delay
    &&& em.msg.target@ == target
    &&& em.msg.event == e
}

/// The entry hook shared by the stoplight rows that turn the light red:
/// tell the crosswalk to walk now, and schedule `Blinking` at the
/// crosswalk six seconds later.
pub open spec fn is_red_entry_hook(a: Option<Action>) -> bool {
    &&& a matches Some(act)
    &&& act.emissions@.len() == 2
    &&& emission_spec(act.emissions@[0], 0, "Crosswalk"@, Event::Walk)
    &&& emission_spec(act.emissions@[1], 6, "Crosswalk"@, Event::Blinking)
}

/// The stoplight's transition table.
pub open spec fn is_stoplight_table(ts: Seq<Transition<StoplightState>>) -> bool {
    &&& ts.len() == 5
    &&& row_spec(
        ts[0],
        StoplightState::Init,
        Event::Start,
        StoplightState::Red,
        "Transition to RED"@,
    )
    &&& ts[0].exit_action is None
    &&& is_red_entry_hook(ts[0].entry_action)
    &&& row_spec(
        ts[1],
        StoplightState::Red,
        Event::Timer,
        StoplightState::Green,
        "Transition from RED to GREEN"@,
    )
    &&& ts[1].exit_action is None
    &&& ({
        &&& ts[1].entry_action matches Some(act)
        &&& act.emissions@.len() == 1
        &&& emission_spec(act.emissions@[0], 0, "Crosswalk"@, Event::DontWalk)
    })
    &&& row_spec(
        ts[2],
        StoplightState::Green,
        Event::Button,
        StoplightState::Yellow,
        "Transition from GREEN to YELLOW (Button pressed)"@,
    )
    &&& no_hooks(ts[2])
    &&& row_spec(
        ts[3],
        StoplightState::Green,
        Event::Timer,
        StoplightState::Yellow,
        "Transition from GREEN to YELLOW"@,
    )
    &&& no_hooks(ts[3])
    &&& row_spec(
        ts[4],
        StoplightState::Yellow,
        Event::Timer,
        StoplightState::Red,
        "Transition from YELLOW to RED"@,
    )
    &&& ts[4].exit_action is None
    &&& is_red_entry_hook(ts[4].entry_action)
}

/// The crosswalk's transition table.
pub open spec fn is_crosswalk_table(ts: Seq<Transition<CrosswalkState>>) -> bool {
    &&& ts.len() == 5
    &&& row_spec(
        ts[0],
        CrosswalkState::Init,
        Event::Start,
        CrosswalkState::DontWalk,
        "Transition to DONT-WALK"@,
    )
    &&& row_spec(
        ts[1],
        CrosswalkState::DontWalk,
        Event::Walk,
        CrosswalkState::Walk,
        "Transition from DONT-WALK to WALK"@,
    )
    &&& row_spec(
        ts[2],
        CrosswalkState::Walk,
        Event::Blinking,
        CrosswalkState::Blinking,
        "Transition from WALK to BLINKING"@,
    )
    &&& row_spec(
        ts[3],
        CrosswalkState::Blinking,
        Event::DontWalk,
        CrosswalkState::DontWalk,
        "Transition from BLINKING to DONT-WALK"@,
    )
    &&& row_spec(
        ts[4],
        CrosswalkState::Walk,
        Event::DontWalk,
        CrosswalkState::DontWalk,
        "Transition from WALK to DONT-WALK"@,
    )
    &&& forall|j: int| 0 <= j < 5 ==> no_hooks(ts[j])
}

/// The entry hook of the rows that turn the light red.
fn red_entry_hook() -> (a: Option<Action>)
    ensures
        is_red_entry_hook(a),
{
    let mut emissions: Vec<Emission> = Vec::new();
    emissions.push(
        Emission {
            delay_secs: 0,
            msg: AddressedEvent { target: "Crosswalk".to_owned(), event: Event::Walk },
        },
    );
    emissions.push(
        Emission {
            delay_secs: 6,
            msg: AddressedEvent { target: "Crosswalk".to_owned(), event: Event::Blinking },
        },
    );
    Some(Action { emissions })
}

/// Builds the stoplight engine: named "Stoplight", starting in `Init`,
/// with the stoplight table.
pub fn create_stoplight_fsm() -> (fsm: FSM<StoplightState>)
    ensures
        fsm.name@ == "Stoplight"@,
        fsm.current_state == StoplightState::Init,
        fsm.last_event is None,
        is_stoplight_table(fsm.transitions@),
{
    let mut transitions: Vec<Transition<StoplightState>> = Vec::new();
    transitions.push(
        Transition {
            from_state: StoplightState::Init,
            event: Event::Start,
            exit_action: None,
            to_state: StoplightState::Red,
            entry_action: red_entry_hook(),
            description: "Transition to RED".to_owned(),
        },
    );
    let mut dont_walk: Vec<Emission> = Vec::new();
    dont_walk.push(
        Emission {
            delay_secs: 0,
            msg: AddressedEvent { target: "Crosswalk".to_owned(), event: Event::DontWalk },
        },
    );
    transitions.push(
        Transition {
            from_state: StoplightState::Red,
            event: Event::Timer,
            exit_action: None,
            to_state: StoplightState::Green,
            entry_action: Some(Action { emissions: dont_walk }),
            description: "Transition from RED to GREEN".to_owned(),
        },
    );
    transitions.push(
        Transition {
            from_state: StoplightState::Green,
            event: Event::Button,
            exit_action: None,
            to_state: StoplightState::Yellow,
            entry_action: None,
            description: "Transition from GREEN to YELLOW (Button pressed)".to_owned(),
        },
    );
    transitions.push(
        Transition {
            from_state: StoplightState::Green,
            event: Event::Timer,
            exit_action: None,
            to_state: StoplightState::Yellow,
            entry_action: None,
            description: "Transition from GREEN to YELLOW".to_owned(),
        },
    );
    transitions.push(
        Transition {
            from_state: StoplightState::Yellow,
            event: Event::Timer,
            exit_action: None,
            to_state: StoplightState::Red,
            entry_action: red_entry_hook(),
            description: "Transition from YELLOW to RED".to_owned(),
        },
    );
    FSM::new("Stoplight".to_owned(), transitions)
}

/// Builds the crosswalk engine: named "Crosswalk", starting in `Init`,
/// with the crosswalk table.
pub fn create_crosswalk_fsm() -> (fsm: FSM<CrosswalkState>)
    ensures
        fsm.name@ == "Crosswalk"@,
        fsm.current_state == CrosswalkState::Init,
        fsm.last_event is None,
        is_crosswalk_table(fsm.transitions@),
{
    let mut transitions: Vec<Transition<CrosswalkState>> = Vec::new();
    transitions.push(
        Transition {
            from_state: CrosswalkState::Init,
            event: Event::Start,
            exit_action: None,
            to_state: CrosswalkState::DontWalk,
            entry_action: None,
            description: "Transition to DONT-WALK".to_owned(),
        },
    );
    transitions.push(
        Transition {
            from_state: CrosswalkState::DontWalk,
            event: Event::Walk,
            exit_action: None,
            to_state: CrosswalkState::Walk,
            entry_action: None,
            description: "Transition from DONT-WALK to WALK".to_owned(),
        },
    );
    transitions.push(
        Transition {
            from_state: CrosswalkState::Walk,
            event: Event::Blinking,
            exit_action: None,
            to_state: CrosswalkState::Blinking,
            entry_action: None,
            description: "Transition from WALK to BLINKING".to_owned(),
        },
    );
    transitions.push(
        Transition {
            from_state: CrosswalkState::Blinking,
            event: Event::DontWalk,
            exit_action: None,
            to_state: CrosswalkState::DontWalk,
            entry_action: None,
            description: "Transition from BLINKING to DONT-WALK".to_owned(),
        },
    );
    transitions.push(
        Transition {
            from_state: CrosswalkState::Walk,
            event: Event::DontWalk,
            exit_action: None,
            to_state: CrosswalkState::DontWalk,
            entry_action: None,
            description: "Transition from WALK to DONT-WALK".to_owned(),
        },
    );
    FSM::new("Crosswalk".to_owned(), transitions)
}

/// Builds the timer service configuration: a `Timer` event to the
/// stoplight every ten seconds.
pub fn create_timer() -> (t: PeriodicTimer)
    ensures
        t.interval_secs == 10,
        t.target@ == "Stoplight"@,
        t.event == Event::Timer,
{
    PeriodicTimer::new(10, "Stoplight".to_owned(), Event::Timer)
}

/// One addressed event's content.
pub open spec fn addressed_spec(a: AddressedEvent, target: Seq<char>, e: Event) -> bool {
    a.target@ == target && a.event == e
}

/// The fan-out of a command event to the engines: `Start`, `Display`
/// and `Exit` go to both engines (stoplight first), `Button` only to
/// the stoplight; any other event is not a command and goes nowhere.
pub fn command_targets(e: Event) -> (r: Vec<AddressedEvent>)
    ensures
        e == Event::Start ==> r@.len() == 2 && addressed_spec(r@[0], "Stoplight"@, Event::Start)
            && addressed_spec(r@[1], "Crosswalk"@, Event::Start),
        e == Event::Button ==> r@.len() == 1 && addressed_spec(r@[0], "Stoplight"@, Event::Button),
        e == Event::Display ==> r@.len() == 2 && addressed_spec(r@[0], "Stoplight"@, Event::Display)
            && addressed_spec(r@[1], "Crosswalk"@, Event::Display),
        e == Event::Exit ==> r@.len() == 2 && addressed_spec(r@[0], "Stoplight"@, Event::Exit)
            && addressed_spec(r@[1], "Crosswalk"@, Event::Exit),
        !(e == Event::Start || e == Event::Button || e == Event::Display || e == Event::Exit)
            ==> r@.len() == 0,
{
    let mut r: Vec<AddressedEvent> = Vec::new();
    match e {
        Event::Start | Event::Display | Event::Exit => {
            r.push(AddressedEvent { target: "Stoplight".to_owned(), event: e });
            r.push(AddressedEvent { target: "Crosswalk".to_owned(), event: e });
        },
        Event::Button => {
            r.push(AddressedEvent { target: "Stoplight".to_owned(), event: e });
        },
        _ => {},
    }
    r
}

} // verus!
