//! The closed set of events shared by every engine type, and the
//! distinction between ordinary events and control events.

use vstd::prelude::*;

verus! {

/// An event delivered to an engine. `Display` and `Exit` are control
/// events: the engine's processing step intercepts them before any
/// transition-table lookup.
#[derive(Clone, Copy, Debug, PartialEq, Eq, Structural)]
pub enum Event {
    Start,
    Timer,
    Button,
    Walk,
    Blinking,
    DontWalk,
    Display,
    Exit,
}

/// A control event is handled by the processing loop itself and never
/// participates in the transition table.
pub open spec fn is_control(e: Event) -> bool {
    e == Event::Exit || e == Event::Display
}

} // verus!
