use ts_presence::log::parse_event;
use ts_presence::log::reconstruct_timestamp;
use ts_presence::log::EventKind;
use ts_presence::log::UserLine;

#[test]
fn connected_line_parses() {
    let line = "Apr 01 12:00:00 host ts3[1]: |INFO|...|client connected 'alice'(id:7)";
    let ul = UserLine::parse(line).expect("a valid connected line yields an event");
    assert_eq!(ul.0, "alice");
    assert!(ul.1);
}

#[test]
fn disconnected_line_parses() {
    let line = "Apr 01 12:05:00 host ts3[1]: |INFO|...|client disconnected 'alice'(id:7)";
    let ul = UserLine::parse(line).expect("a valid disconnected line yields an event");
    assert_eq!(ul.0, "alice");
    assert!(!ul.1);
}

#[test]
fn connected_takes_precedence_over_disconnected() {
    let line = "Apr 01 12:00:00 h |INFO|client disconnected 'bob'(id:2)|client connected 'alice'(id:7)";
    let ul = UserLine::parse(line).expect("a line with both markers yields a connect");
    assert!(ul.1);
    assert_eq!(ul.0, "alice");
}

#[test]
fn line_without_markers_yields_nothing() {
    assert!(UserLine::parse("Apr 01 12:00:00 host some unrelated chatter").is_none());
    assert!(parse_event("Apr 01 12:00:00 host some unrelated chatter").is_none());
}

#[test]
fn info_alone_is_no_event() {
    assert!(UserLine::parse("Apr 01 12:00:00 host ts3[1]: |INFO|query from 1.2.3.4").is_none());
}

#[test]
fn marker_without_info_is_no_event() {
    assert!(UserLine::parse("Apr 01 12:00:00 h |WARN|client connected 'alice'(id:7)").is_none());
}

#[test]
fn marker_without_id_is_discarded_not_fatal() {
    let line = "Apr 01 12:00:00 host ts3[1]: |INFO|...|client connected 'alice";
    assert!(UserLine::parse(line).is_none());
    assert!(parse_event(line).is_none());
}

#[test]
fn empty_line_is_no_event() {
    assert!(UserLine::parse("").is_none());
    assert!(parse_event("").is_none());
}

#[test]
fn timestamp_is_rebuilt_from_first_three_tokens() {
    let line = "Apr 01 12:00:00 host ts3[1]: |INFO|...|client connected 'alice'(id:7)";
    let ts = reconstruct_timestamp(line).expect("three tokens are present");
    assert_eq!(ts, "12:00:00 01 Apr");
}

#[test]
fn timestamp_with_exactly_three_tokens() {
    let ts = reconstruct_timestamp("Apr 01 12:00:00").expect("three tokens are present");
    assert_eq!(ts, "12:00:00 01 Apr");
}

#[test]
fn too_few_tokens_is_discarded_not_fatal() {
    assert!(reconstruct_timestamp("nospacesatall").is_none());
    assert!(reconstruct_timestamp("one space").is_none());
    // A recognized line always offers the marker's own two spaces to split
    // on, so its first three tokens exist even without a leading timestamp.
    let line = "x|INFO|client connected 'bob'(id:2)";
    assert!(UserLine::parse(line).is_some());
    assert_eq!(
        reconstruct_timestamp(line).as_deref(),
        Some("'bob'(id:2) connected x|INFO|client")
    );
}

#[test]
fn parse_event_builds_the_full_event() {
    let line = "Apr 01 12:00:00 host ts3[1]: |INFO|...|client connected 'alice'(id:7)";
    let ev = parse_event(line).expect("a valid line yields an event");
    assert_eq!(ev.name, "alice");
    assert_eq!(ev.kind, EventKind::Connected);
    assert_eq!(ev.observed_at, "12:00:00 01 Apr");
}

#[test]
fn name_may_contain_unusual_characters() {
    let line = "Apr 01 12:00:00 h |INFO|client connected 'zoë | the 2nd'(id:3)";
    let ul = UserLine::parse(line).expect("quoted names parse whole");
    assert_eq!(ul.0, "zoë | the 2nd");
}
