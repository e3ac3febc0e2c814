//! The command token grammar: line-oriented tokens from an external
//! command source map to events under a fixed, case-insensitive
//! mapping; every other token is discarded with no error.

use vstd::prelude::*;
use vstd::string::StrSliceExecFns;
use crate::event::Event;

verus! {

/// The event a single token character maps to: `S` starts, `B` is the
/// button, `D` displays, `X` exits; case-insensitive; anything else is
/// discarded.
pub open spec fn spec_token_event(c: char) -> Option<Event> {
    if c == 'S' || c == 's' {
        Some(Event::Start)
    } else if c == 'B' || c == 'b' {
        Some(Event::Button)
    } else if c == 'D' || c == 'd' {
        Some(Event::Display)
    } else if c == 'X' || c == 'x' {
        Some(Event::Exit)
    } else {
        None
    }
}

/// The event a whole token maps to: recognized tokens are exactly the
/// single characters of the grammar.
pub open spec fn spec_parse_token(t: Seq<char>) -> Option<Event> {
    if t.len() == 1 {
        spec_token_event(t[0])
    } else {
        None
    }
}

/// Parses one command token; `None` means the token is discarded.
pub fn parse_token(token: &str) -> (r: Option<Event>)
    ensures
        r == spec_parse_token(token@),
{
    if token.unicode_len() != 1 {
        return None;
    }
    let c = token.get_char(0);
    match c {
        'S' | 's' => Some(Event::Start),
        'B' | 'b' => Some(Event::Button),
        'D' | 'd' => Some(Event::Display),
        'X' | 'x' => Some(Event::Exit),
        _ => None,
    }
}

} // verus!
