//! Addressed events and the data model of action hooks.
//!
//! An action hook is represented as data: the list of emissions it
//! performs when a transition runs it. An emission with delay zero is
//! sent immediately; one with a positive delay is handed to the timer
//! core as a one-shot deferred emission.

use vstd::prelude::*;
use crate::event::Event;

verus! {

/// A `(target name, event)` pair: the unit of inter-engine communication.
pub struct AddressedEvent {
    pub target: String,
    pub event: Event,
}

/// One emission performed by an action hook. `delay_secs == 0` means
/// "send now"; a positive delay means "schedule a one-shot deferred
/// emission after that many seconds".
pub struct Emission {
    pub delay_secs: u64,
    pub msg: AddressedEvent,
}

/// An action hook: the ordered list of emissions it performs.
pub struct Action {
    pub emissions: Vec<Emission>,
}

impl Clone for AddressedEvent {
    fn clone(&self) -> (r: Self)
        ensures
            r == *self,
    {
        AddressedEvent { target: self.target.clone(), event: self.event }
    }
}

impl Clone for Emission {
    fn clone(&self) -> (r: Self)
        ensures
            r == *self,
    {
        Emission { delay_secs: self.delay_secs, msg: self.msg.clone() }
    }
}

/// Copies a list of emissions, preserving every element exactly.
pub fn clone_emissions(v: &Vec<Emission>) -> (r: Vec<Emission>)
    ensures
        r@ == v@,
{
    let mut r: Vec<Emission> = Vec::new();
    let mut i: usize = 0;
    while i < v.len()
        invariant
            i <= v.len(),
            r@ =~= v@.take(i as int),
        decreases v.len() - i,
    {
        r.push(v[i].clone());
        i = i + 1;
    }
    assert(r@ =~= v@);
    r
}

/// The emissions an optional action hook performs: none when the hook
/// is absent.
pub open spec fn hook_emissions(a: Option<Action>) -> Seq<Emission> {
    match a {
        Option::Some(a) => a.emissions@,
        Option::None => Seq::empty(),
    }
}

} // verus!
