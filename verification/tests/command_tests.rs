use stop_cross::command::parse_token;
use stop_cross::config::command_targets;
use stop_cross::event::Event;

/// The recognized tokens map to their events, case-insensitively.
#[test]
fn recognized_tokens_parse() {
    assert_eq!(parse_token("S"), Some(Event::Start));
    assert_eq!(parse_token("s"), Some(Event::Start));
    assert_eq!(parse_token("B"), Some(Event::Button));
    assert_eq!(parse_token("b"), Some(Event::Button));
    assert_eq!(parse_token("D"), Some(Event::Display));
    assert_eq!(parse_token("d"), Some(Event::Display));
    assert_eq!(parse_token("X"), Some(Event::Exit));
    assert_eq!(parse_token("x"), Some(Event::Exit));
}

/// Every other token is discarded with no error.
#[test]
fn unrecognized_tokens_are_discarded() {
    assert_eq!(parse_token(""), None);
    assert_eq!(parse_token("Q"), None);
    assert_eq!(parse_token("SS"), None);
    assert_eq!(parse_token("start"), None);
    assert_eq!(parse_token("0"), None);
}

/// `Start`, `Display` and `Exit` fan out to both engines, the button
/// only to the stoplight, and non-command events go nowhere.
#[test]
fn command_fan_out() {
    let r = command_targets(Event::Start);
    assert_eq!(r.len(), 2);
    assert_eq!(r[0].target, "Stoplight");
    assert_eq!(r[0].event, Event::Start);
    assert_eq!(r[1].target, "Crosswalk");
    assert_eq!(r[1].event, Event::Start);

    let r = command_targets(Event::Button);
    assert_eq!(r.len(), 1);
    assert_eq!(r[0].target, "Stoplight");
    assert_eq!(r[0].event, Event::Button);

    let r = command_targets(Event::Display);
    assert_eq!(r.len(), 2);
    assert_eq!(r[0].event, Event::Display);
    assert_eq!(r[1].event, Event::Display);

    let r = command_targets(Event::Exit);
    assert_eq!(r.len(), 2);
    assert_eq!(r[0].event, Event::Exit);
    assert_eq!(r[1].event, Event::Exit);

    assert_eq!(command_targets(Event::Timer).len(), 0);
    assert_eq!(command_targets(Event::Walk).len(), 0);
}
