//! The finite-state-machine engine: a transition table keyed by
//! `(state, event)`, and the processing step that intercepts control
//! events, looks the pair up, runs the exit and entry hooks (as data),
//! and commits the new state.

use vstd::prelude::*;
use crate::action::{Action, Emission, clone_emissions, hook_emissions};
use crate::event::{Event, is_control};

verus! {

/// A closed set of states for one engine type, with a distinguished
/// starting state and decidable equality.
pub trait State: Sized + Copy {
    /// The distinguished starting state.
    spec fn spec_init() -> Self;

    /// Returns the starting state.
    fn init() -> (s: Self)
        ensures
            s == Self::spec_init(),
    ;

    /// Decides equality of two states.
    fn eq_state(&self, other: &Self) -> (r: bool)
        ensures
            r == (*self == *other),
    ;
}

/// One row of a transition table: when an engine in `from_state`
/// receives `event`, it runs `exit_action`, then `entry_action`, then
/// commits `to_state` and reports a log record carrying `description`.
pub struct Transition<S> {
    pub from_state: S,
    pub event: Event,
    pub exit_action: Option<Action>,
    pub to_state: S,
    pub entry_action: Option<Action>,
    pub description: String,
}

/// Whether a table row matches the pair `(s, e)`.
pub open spec fn row_matches<S>(t: Transition<S>, s: S, e: Event) -> bool {
    t.from_state == s && t.event == e
}

/// The index of the first row of `ts` matching `(s, e)`, or `-1` when
/// none does. When a table is authored with duplicate `(state, event)`
/// rows, the first-declared row wins.
pub open spec fn match_index<S>(ts: Seq<Transition<S>>, s: S, e: Event) -> int
    decreases ts.len(),
{
    if ts.len() == 0 {
        -1
    } else if row_matches(ts[0], s, e) {
        0
    } else {
        let r = match_index(ts.drop_first(), s, e);
        if r == -1 {
            -1
        } else {
            r + 1
        }
    }
}

/// `match_index` returns `-1` exactly when no row matches, and
/// otherwise the least matching index.
pub proof fn lemma_match_index_characterization<S>(ts: Seq<Transition<S>>, s: S, e: Event)
    ensures
        match_index(ts, s, e) == -1 || 0 <= match_index(ts, s, e) < ts.len(),
        match_index(ts, s, e) == -1 ==> forall|j: int|
            0 <= j < ts.len() ==> !row_matches(ts[j], s, e),
        match_index(ts, s, e) != -1 ==> row_matches(ts[match_index(ts, s, e)], s, e),
        match_index(ts, s, e) != -1 ==> forall|j: int|
            0 <= j < match_index(ts, s, e) ==> !row_matches(ts[j], s, e),
    decreases ts.len(),
{
    if ts.len() == 0 {
    } else if row_matches(ts[0], s, e) {
    } else {
        lemma_match_index_characterization(ts.drop_first(), s, e);
        let r = match_index(ts.drop_first(), s, e);
        if r == -1 {
            assert forall|j: int| 0 <= j < ts.len() implies !row_matches(ts[j], s, e) by {
                if j > 0 {
                    assert(ts.drop_first()[j - 1] == ts[j]);
                }
            }
        } else {
            assert(ts.drop_first()[r] == ts[r + 1]);
            assert forall|j: int| 0 <= j < r + 1 implies !row_matches(ts[j], s, e) by {
                if j > 0 {
                    assert(ts.drop_first()[j - 1] == ts[j]);
                }
            }
        }
    }
}

/// Finds the first row of `ts` matching `(s, e)`.
pub fn find_transition<S: State>(ts: &Vec<Transition<S>>, s: S, e: Event) -> (r: Option<usize>)
    ensures
        match r {
            Option::Some(i) => match_index(ts@, s, e) == i as int && (i as int) < ts@.len(),
            Option::None => match_index(ts@, s, e) == -1,
        },
{
    let mut i: usize = 0;
    while i < ts.len()
        invariant
            i <= ts@.len(),
            forall|j: int| 0 <= j < i ==> !row_matches(ts@[j], s, e),
        decreases ts@.len() - i,
    {
        let row_found = ts[i].from_state.eq_state(&s) && ts[i].event == e;
        if row_found {
            proof {
                lemma_match_index_characterization(ts@, s, e);
            }
            return Option::Some(i);
        }
        i = i + 1;
    }
    proof {
        lemma_match_index_characterization(ts@, s, e);
    }
    Option::None
}

/// The mathematical outcome of one processing step: the engine's state
/// and last event after the step, whether the loop exits, whether an
/// introspection record is produced, and which table row fired (if any).
pub ghost struct StepModel<S> {
    pub state: S,
    pub last_event: Option<Event>,
    pub exited: bool,
    pub displayed: bool,
    pub transition: Option<int>,
}

/// One processing step of an engine with table `ts`, state `s` and last
/// event `le`, receiving `e`:
/// - `Exit` ends the loop; no lookup, no state change;
/// - `Display` produces an introspection record; no lookup, no change;
/// - otherwise `e` is recorded as the last event and `(s, e)` is looked
///   up: no match discards the event, a match commits the row's
///   `to_state`.
pub open spec fn spec_step<S>(
    ts: Seq<Transition<S>>,
    s: S,
    le: Option<Event>,
    e: Event,
) -> StepModel<S> {
    if e == Event::Exit {
        StepModel { state: s, last_event: le, exited: true, displayed: false, transition: None }
    } else if e == Event::Display {
        StepModel { state: s, last_event: le, exited: false, displayed: true, transition: None }
    } else {
        let i = match_index(ts, s, e);
        if i == -1 {
            StepModel {
                state: s,
                last_event: Some(e),
                exited: false,
                displayed: false,
                transition: None,
            }
        } else {
            StepModel {
                state: ts[i].to_state,
                last_event: Some(e),
                exited: false,
                displayed: false,
                transition: Some(i),
            }
        }
    }
}

/// The introspection record produced for a `Display` control event.
pub struct DisplayRecord<S> {
    pub engine_name: String,
    pub current_state: S,
    pub last_event: Option<Event>,
}

/// The record reported once per successful transition. The surrounding
/// process adds a timestamp when it logs the record.
pub struct LogRecord {
    pub fsm_name: String,
    pub description: String,
}

/// What one successful transition asks the caller to do: perform the
/// emissions of the exit hook, then those of the entry hook, and log
/// the record.
pub struct TransitionReport {
    pub log: LogRecord,
    pub emissions: Vec<Emission>,
}

/// The observable outcome of one processing step.
pub enum Outcome<S> {
    /// The processing loop must terminate.
    ExitLoop,
    /// A `Display` control event: an introspection record, no state change.
    Displayed(DisplayRecord<S>),
    /// No table row matched: a defined no-op.
    Discarded,
    /// A row matched: the new state is committed and these effects are due.
    Transitioned(TransitionReport),
}

/// Relates an observable outcome to the step model it must realize,
/// given the engine's table and name.
pub open spec fn outcome_matches_step<S>(
    o: Outcome<S>,
    m: StepModel<S>,
    ts: Seq<Transition<S>>,
    name: Seq<char>,
) -> bool {
    if m.exited {
        o is ExitLoop
    } else if m.displayed {
        &&& o matches Outcome::Displayed(rec)
        &&& rec.engine_name@ == name
        &&& rec.current_state == m.state
        &&& rec.last_event == m.last_event
    } else {
        match m.transition {
            None => o is Discarded,
            Some(i) => {
                &&& o matches Outcome::Transitioned(rep)
                &&& 0 <= i < ts.len()
                &&& rep.log.fsm_name@ == name
                &&& rep.log.description@ == ts[i].description@
                &&& rep.emissions@ == hook_emissions(ts[i].exit_action)
                    + hook_emissions(ts[i].entry_action)
            },
        }
    }
}

/// One engine instance: its name, its private state and last event, and
/// its transition table.
pub struct FSM<S> {
    pub name: String,
    pub current_state: S,
    pub last_event: Option<Event>,
    pub transitions: Vec<Transition<S>>,
}

impl<S: State> FSM<S> {
    /// Creates an engine in the starting state with no last event.
    pub fn new(name: String, transitions: Vec<Transition<S>>) -> (fsm: Self)
        ensures
            fsm.name == name,
            fsm.current_state == S::spec_init(),
            fsm.last_event is None,
            fsm.transitions == transitions,
    {
        FSM { name, current_state: S::init(), last_event: None, transitions }
    }

    /// The introspection record for this engine, as a `Display` control
    /// event produces it.
    pub fn display_state(&self) -> (rec: DisplayRecord<S>)
        ensures
            rec.engine_name@ == self.name@,
            rec.current_state == self.current_state,
            rec.last_event == self.last_event,
    {
        DisplayRecord {
            engine_name: self.name.clone(),
            current_state: self.current_state,
            last_event: self.last_event,
        }
    }

    /// Processes one event: control events (`Exit`, `Display`) are
    /// intercepted before any lookup; any other event is recorded as
    /// the last event and matched against the table, where no match is
    /// a silent discard and a match runs exit hook, then entry hook,
    /// then commits the new state.
    pub fn process_event(&mut self, event: Event) -> (o: Outcome<S>)
        ensures
            ({
                let m = spec_step(
                    old(self).transitions@,
                    old(self).current_state,
                    old(self).last_event,
                    event,
                );
                &&& final(self).name == old(self).name
                &&& final(self).transitions == old(self).transitions
                &&& final(self).current_state == m.state
                &&& final(self).last_event == m.last_event
                &&& outcome_matches_step(o, m, old(self).transitions@, old(self).name@)
            }),
    {
        match event {
            Event::Exit => Outcome::ExitLoop,
            Event::Display => Outcome::Displayed(self.display_state()),
            _ => {
                self.last_event = Some(event);
                match find_transition(&self.transitions, self.current_state, event) {
                    Option::None => Outcome::Discarded,
                    Option::Some(i) => {
                        let mut emissions: Vec<Emission> = match &self.transitions[i].exit_action {
                            Option::Some(a) => clone_emissions(&a.emissions),
                            Option::None => Vec::new(),
                        };
                        let mut entry: Vec<Emission> = match &self.transitions[i].entry_action {
                            Option::Some(a) => clone_emissions(&a.emissions),
                            Option::None => Vec::new(),
                        };
                        emissions.append(&mut entry);
                        let log = LogRecord {
                            fsm_name: self.name.clone(),
                            description: self.transitions[i].description.clone(),
                        };
                        self.current_state = self.transitions[i].to_state;
                        assert(emissions@ =~= hook_emissions(
                            old(self).transitions@[i as int].exit_action,
                        ) + hook_emissions(old(self).transitions@[i as int].entry_action));
                        Outcome::Transitioned(TransitionReport { log, emissions })
                    },
                }
            },
        }
    }
}

/// The mathematical outcome of a processing loop run over a sequence of
/// events: the engine's state and last event when the run ends, the
/// step taken for each processed event, and whether the loop observed
/// `Exit`.
pub ghost struct RunModel<S> {
    pub state: S,
    pub last_event: Option<Event>,
    pub steps: Seq<StepModel<S>>,
    pub exited: bool,
}

/// A processing loop over `events`, in order: each event is processed
/// by one step; the first `Exit` step ends the run and leaves the rest
/// of the events unprocessed.
pub open spec fn spec_run<S>(
    ts: Seq<Transition<S>>,
    s: S,
    le: Option<Event>,
    events: Seq<Event>,
) -> RunModel<S>
    decreases events.len(),
{
    if events.len() == 0 {
        RunModel { state: s, last_event: le, steps: Seq::empty(), exited: false }
    } else {
        let m = spec_step(ts, s, le, events[0]);
        if m.exited {
            RunModel { state: m.state, last_event: m.last_event, steps: seq![m], exited: true }
        } else {
            let rest = spec_run(ts, m.state, m.last_event, events.drop_first());
            RunModel {
                state: rest.state,
                last_event: rest.last_event,
                steps: seq![m] + rest.steps,
                exited: rest.exited,
            }
        }
    }
}

/// The outcomes a processing loop produced, one per processed event,
/// and whether it terminated by observing `Exit`.
pub struct RunLog<S> {
    pub outcomes: Vec<Outcome<S>>,
    pub exited: bool,
}

/// Runs one engine's processing loop over a sequence of events, in
/// order, stopping after the first `Exit`. Every produced outcome
/// realizes the corresponding step of the run model.
pub fn fsm_thread<S: State>(fsm: &mut FSM<S>, events: &Vec<Event>) -> (r: RunLog<S>)
    ensures
        ({
            let total = spec_run(
                old(fsm).transitions@,
                old(fsm).current_state,
                old(fsm).last_event,
                events@,
            );
            &&& final(fsm).name == old(fsm).name
            &&& final(fsm).transitions == old(fsm).transitions
            &&& final(fsm).current_state == total.state
            &&& final(fsm).last_event == total.last_event
            &&& r.exited == total.exited
            &&& r.outcomes@.len() == total.steps.len()
            &&& forall|k: int|
                0 <= k < total.steps.len() ==> outcome_matches_step(
                    r.outcomes@[k],
                    total.steps[k],
                    old(fsm).transitions@,
                    old(fsm).name@,
                )
        }),
{
    let ghost ts = fsm.transitions@;
    let ghost name = fsm.name@;
    let ghost total = spec_run(ts, fsm.current_state, fsm.last_event, events@);
    let mut outcomes: Vec<Outcome<S>> = Vec::new();
    let mut exited: bool = false;
    let mut i: usize = 0;
    proof {
        assert(events@.skip(0) =~= events@);
        assert(total.steps.skip(0) =~= total.steps);
    }
    while i < events.len() && !exited
        invariant
            i <= events@.len(),
            fsm.name == old(fsm).name,
            fsm.transitions == old(fsm).transitions,
            ts == old(fsm).transitions@,
            name == old(fsm).name@,
            total == spec_run(ts, old(fsm).current_state, old(fsm).last_event, events@),
            forall|k: int|
                0 <= k < outcomes@.len() ==> outcome_matches_step(
                    outcomes@[k],
                    total.steps[k],
                    ts,
                    name,
                ),
            !exited ==> ({
                let tail = spec_run(ts, fsm.current_state, fsm.last_event, events@.skip(i as int));
                &&& outcomes@.len() == i
                &&& total.state == tail.state
                &&& total.last_event == tail.last_event
                &&& total.exited == tail.exited
                &&& total.steps.len() == i + tail.steps.len()
                &&& total.steps.skip(i as int) == tail.steps
            }),
            exited ==> ({
                &&& total.exited
                &&& outcomes@.len() == total.steps.len()
                &&& fsm.current_state == total.state
                &&& fsm.last_event == total.last_event
            }),
        decreases events@.len() - i,
    {
        let ghost pre_state = fsm.current_state;
        let ghost pre_last = fsm.last_event;
        let ghost tail = spec_run(ts, pre_state, pre_last, events@.skip(i as int));
        let ghost m = spec_step(ts, pre_state, pre_last, events@[i as int]);
        proof {
            assert(events@.skip(i as int)[0] == events@[i as int]);
        }
        let o = fsm.process_event(events[i]);
        let is_exit = match o {
            Outcome::ExitLoop => true,
            _ => false,
        };
        outcomes.push(o);
        proof {
            assert(total.steps[i as int] == tail.steps[0]);
            if m.exited {
                assert(tail.steps =~= seq![m]);
                assert(total.steps.len() == i + 1);
            } else {
                assert(events@.skip(i as int).drop_first() =~= events@.skip(i as int + 1));
                let rest = spec_run(ts, m.state, m.last_event, events@.skip(i as int + 1));
                assert(tail.steps == seq![m] + rest.steps);
                assert(tail.steps.drop_first() =~= rest.steps);
                assert(total.steps.skip(i as int).drop_first() =~= total.steps.skip(
                    i as int + 1,
                ));
                assert(total.steps.skip(i as int + 1) == rest.steps);
            }
        }
        if is_exit {
            exited = true;
        }
        i = i + 1;
    }
    proof {
        if !exited {
            assert(events@.skip(i as int) =~= Seq::<Event>::empty());
            assert(total.steps.skip(i as int) =~= Seq::<StepModel<S>>::empty());
            assert(total.steps.len() == i);
        }
    }
    RunLog { outcomes, exited }
}

/// Determinism: for a fixed table, one processing step is a function of
/// the current state, the last event and the received event alone. Any
/// two outcomes realizing the step taken from the same inputs agree on
/// their kind and on everything they carry.
pub proof fn lemma_step_deterministic<S>(
    o1: Outcome<S>,
    o2: Outcome<S>,
    ts: Seq<Transition<S>>,
    s: S,
    le: Option<Event>,
    e: Event,
    name: Seq<char>,
)
    requires
        outcome_matches_step(o1, spec_step(ts, s, le, e), ts, name),
        outcome_matches_step(o2, spec_step(ts, s, le, e), ts, name),
    ensures
        o1 is ExitLoop <==> o2 is ExitLoop,
        o1 is Displayed <==> o2 is Displayed,
        o1 is Discarded <==> o2 is Discarded,
        o1 is Transitioned <==> o2 is Transitioned,
        o1 is Displayed ==> {
            &&& o1->Displayed_0.engine_name@ == o2->Displayed_0.engine_name@
            &&& o1->Displayed_0.current_state == o2->Displayed_0.current_state
            &&& o1->Displayed_0.last_event == o2->Displayed_0.last_event
        },
        o1 is Transitioned ==> {
            &&& o1->Transitioned_0.log.fsm_name@ == o2->Transitioned_0.log.fsm_name@
            &&& o1->Transitioned_0.log.description@ == o2->Transitioned_0.log.description@
            &&& o1->Transitioned_0.emissions@ == o2->Transitioned_0.emissions@
        },
{
}

/// Discard idempotence: an event that is not a control event and has no
/// matching row, sent any number of times in a row, never changes the
/// state, never fires a transition, and never ends the loop.
pub proof fn lemma_discard_idempotent<S>(
    ts: Seq<Transition<S>>,
    s: S,
    le: Option<Event>,
    e: Event,
    events: Seq<Event>,
)
    requires
        !is_control(e),
        match_index(ts, s, e) == -1,
        forall|k: int| 0 <= k < events.len() ==> events[k] == e,
    ensures
        spec_run(ts, s, le, events).state == s,
        !spec_run(ts, s, le, events).exited,
        spec_run(ts, s, le, events).steps.len() == events.len(),
        forall|k: int|
            0 <= k < events.len() ==> spec_run(ts, s, le, events).steps[k].transition is None,
    decreases events.len(),
{
    if events.len() == 0 {
    } else {
        let m = spec_step(ts, s, le, events[0]);
        lemma_discard_idempotent(ts, s, Some(e), e, events.drop_first());
        let rest = spec_run(ts, m.state, m.last_event, events.drop_first());
        assert forall|k: int|
            0 <= k < events.len() implies spec_run(ts, s, le, events).steps[k].transition is None by {
            if k > 0 {
                assert(spec_run(ts, s, le, events).steps[k] == rest.steps[k - 1]);
            }
        }
    }
}

/// Control-event priority, `Exit` half: a run over events whose `j`-th
/// element is `Exit` always terminates, whatever the current state and
/// table, and processes nothing past the first `Exit`.
pub proof fn lemma_exit_terminates<S>(
    ts: Seq<Transition<S>>,
    s: S,
    le: Option<Event>,
    events: Seq<Event>,
    j: int,
)
    requires
        0 <= j < events.len(),
        events[j] == Event::Exit,
    ensures
        spec_run(ts, s, le, events).exited,
        spec_run(ts, s, le, events).steps.len() <= j + 1,
    decreases events.len(),
{
    let m = spec_step(ts, s, le, events[0]);
    if events[0] == Event::Exit {
    } else {
        lemma_exit_terminates(ts, m.state, m.last_event, events.drop_first(), j - 1);
    }
}

/// Control-event priority, `Display` half: a `Display` step never
/// mutates the state or the recorded last event, whatever the current
/// state, and never ends the loop.
pub proof fn lemma_display_preserves_state<S>(ts: Seq<Transition<S>>, s: S, le: Option<Event>)
    ensures
        spec_step(ts, s, le, Event::Display).state == s,
        spec_step(ts, s, le, Event::Display).last_event == le,
        !spec_step(ts, s, le, Event::Display).exited,
        spec_step(ts, s, le, Event::Display).transition is None,
{
}

} // verus!
