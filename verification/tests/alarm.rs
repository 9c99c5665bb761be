//! Tests for the alarm: classification, inversion, dispatch of the
//! four action classes, and the placeholder layering each invocation
//! sees.

use minmon::action::{ActionBase, ActionKind, Invocation};
use minmon::alarm::state_machine::{State, StateMachine};
use minmon::alarm::{AlarmBase, BinaryState, DataSink, Level};
use minmon::measurement::Measurement;
use minmon::placeholder::PlaceholderMap;
use std::sync::Arc;

fn map_of(pairs: &[(&str, &str)]) -> PlaceholderMap {
    let mut m = PlaceholderMap::new();
    for (k, v) in pairs {
        m.insert(String::from(*k), String::from(*v));
    }
    m
}

fn action(name: &str) -> Arc<ActionBase> {
    Arc::new(
        ActionBase::new(String::from(name), PlaceholderMap::new(), 10, ActionKind::Disabled)
            .unwrap(),
    )
}

fn level_sink(level: u8) -> DataSink {
    DataSink::Level(Level {
        level: minmon::measurement::Level::new(level).unwrap(),
    })
}

fn level(value: u8) -> Measurement {
    Measurement::Level(minmon::measurement::Level::new(value).unwrap())
}

fn machine(cycles: u32, repeat: u32, recover: u32, error_repeat: u32) -> StateMachine {
    StateMachine::new(cycles, repeat, recover, error_repeat, String::from("")).unwrap()
}

fn alarm_with(invert: bool, sink: DataSink, state_machine: StateMachine) -> AlarmBase {
    AlarmBase::new(
        String::from("Name"),
        String::from("ID"),
        action("bad-action"),
        map_of(&[("Hello", "World")]),
        Some(action("recover-action")),
        PlaceholderMap::new(),
        Some(action("error-action")),
        PlaceholderMap::new(),
        Some(action("error-recover-action")),
        PlaceholderMap::new(),
        invert,
        state_machine,
        sink,
        String::from(""),
    )
    .unwrap()
}

fn names(invs: &[Invocation]) -> Vec<String> {
    invs.iter().map(|i| i.action_name.clone()).collect()
}

#[test]
fn mod_test_trigger_action() {
    let mut alarm = alarm_with(false, level_sink(10), machine(1, 0, 1, 0));
    let invs = alarm
        .put_data(&level(20), map_of(&[("Foo", "Bar")]))
        .unwrap();
    assert_eq!(names(&invs), vec!["bad-action"]);
    let p = &invs[0].placeholders;
    assert_eq!(p.get("alarm_name").unwrap(), "Name");
    assert_eq!(p.get("check_id").unwrap(), "ID");
    assert_eq!(p.get("Hello").unwrap(), "World");
    assert_eq!(p.get("Foo").unwrap(), "Bar");
    assert_eq!(p.get("level").unwrap(), "20%");
    assert_eq!(p.get("alarm_state").unwrap(), "Bad");
    assert_eq!(p.get("action_name").unwrap(), "bad-action");
    assert!(p.contains_key("alarm_uuid"));
    assert!(p.contains_key("alarm_timestamp"));
    assert!(p.contains_key("alarm_last_duration"));
    assert!(p.contains_key("alarm_last_duration_iso"));
    assert_eq!(p.len(), 11);
}

#[test]
fn mod_test_trigger_recover_action() {
    let mut alarm = alarm_with(false, level_sink(10), machine(1, 0, 1, 0));
    alarm.put_data(&level(20), PlaceholderMap::new()).unwrap();
    let invs = alarm
        .put_data(&level(10), map_of(&[("Foo", "Bar")]))
        .unwrap();
    assert_eq!(names(&invs), vec!["recover-action"]);
    let p = &invs[0].placeholders;
    assert_eq!(p.get("alarm_name").unwrap(), "Name");
    assert_eq!(p.get("check_id").unwrap(), "ID");
    assert_eq!(p.get("Hello").unwrap(), "World");
    assert_eq!(p.get("Foo").unwrap(), "Bar");
    assert_eq!(p.get("level").unwrap(), "10%");
    assert_eq!(p.get("alarm_state").unwrap(), "Good");
}

#[test]
fn mod_test_trigger_error_action() {
    let mut alarm = alarm_with(false, level_sink(10), machine(1, 0, 1, 0));
    let invs = alarm
        .put_error(
            &minmon::Error(String::from("Error")),
            map_of(&[("Foo", "Bar")]),
        )
        .unwrap();
    assert_eq!(names(&invs), vec!["error-action"]);
    let p = &invs[0].placeholders;
    assert_eq!(p.get("alarm_name").unwrap(), "Name");
    assert_eq!(p.get("check_id").unwrap(), "ID");
    assert_eq!(p.get("Hello").unwrap(), "World");
    assert_eq!(p.get("Foo").unwrap(), "Bar");
    assert_eq!(p.get("alarm_state").unwrap(), "Error");
    assert!(p.contains_key("error_uuid"));
    assert!(p.contains_key("error_timestamp"));
}

// An inverted alarm treats a good reading as bad and a bad one as
// good.
#[test]
fn test_invert() {
    let mut alarm = alarm_with(true, level_sink(10), machine(1, 0, 1, 0));
    let invs = alarm.put_data(&level(10), PlaceholderMap::new()).unwrap();
    assert_eq!(names(&invs), vec!["bad-action"]);
    let invs = alarm.put_data(&level(20), PlaceholderMap::new()).unwrap();
    assert_eq!(names(&invs), vec!["recover-action"]);
}

// A measurement of the wrong kind for the sink is rejected.
#[test]
fn test_sink_kind_mismatch() {
    let mut alarm = alarm_with(false, level_sink(10), machine(1, 0, 1, 0));
    let err = alarm
        .put_data(
            &Measurement::BinaryState(minmon::measurement::BinaryState::new(true).unwrap()),
            PlaceholderMap::new(),
        )
        .unwrap_err();
    assert_eq!(err.0, "Unexpected measurement kind for this data sink.");
}

// A single bad, then a single good: one bad-action call carrying a
// fresh episode identifier, then one recover-action call carrying the
// same identifier.
#[test]
fn test_single_bad_then_good_dispatch() {
    let mut alarm = alarm_with(false, level_sink(10), machine(1, 0, 1, 0));
    let bad = alarm.put_data(&level(20), PlaceholderMap::new()).unwrap();
    assert_eq!(names(&bad), vec!["bad-action"]);
    assert_eq!(bad[0].placeholders.get("alarm_state").unwrap(), "Bad");
    let uuid = bad[0].placeholders.get("alarm_uuid").unwrap().clone();
    assert_eq!(uuid.len(), 36);
    let good = alarm.put_data(&level(5), PlaceholderMap::new()).unwrap();
    assert_eq!(names(&good), vec!["recover-action"]);
    assert_eq!(good[0].placeholders.get("alarm_state").unwrap(), "Good");
    assert_eq!(good[0].placeholders.get("alarm_uuid").unwrap(), &uuid);
}

// Repeat cadence: eight bad readings fire the bad action on the first
// and the eighth only, under the same episode identifier.
#[test]
fn test_repeat_cadence_dispatch() {
    let mut alarm = alarm_with(false, level_sink(10), machine(1, 7, 1, 0));
    let first = alarm.put_data(&level(20), PlaceholderMap::new()).unwrap();
    assert_eq!(names(&first), vec!["bad-action"]);
    let uuid = first[0].placeholders.get("alarm_uuid").unwrap().clone();
    for _ in 0..6 {
        let quiet = alarm.put_data(&level(20), PlaceholderMap::new()).unwrap();
        assert!(quiet.is_empty());
    }
    let eighth = alarm.put_data(&level(20), PlaceholderMap::new()).unwrap();
    assert_eq!(names(&eighth), vec!["bad-action"]);
    assert_eq!(eighth[0].placeholders.get("alarm_uuid").unwrap(), &uuid);
}

// Hysteresis: one bad fires, four goods stay quiet, the fifth good
// recovers.
#[test]
fn test_hysteresis_dispatch() {
    let mut alarm = alarm_with(false, level_sink(10), machine(1, 0, 5, 0));
    let bad = alarm.put_data(&level(20), PlaceholderMap::new()).unwrap();
    assert_eq!(names(&bad), vec!["bad-action"]);
    for _ in 0..4 {
        let quiet = alarm.put_data(&level(5), PlaceholderMap::new()).unwrap();
        assert!(quiet.is_empty());
    }
    let fifth = alarm.put_data(&level(5), PlaceholderMap::new()).unwrap();
    assert_eq!(names(&fifth), vec!["recover-action"]);
}

// Error shadowing over Good: the error action fires, and a single bad
// is absorbed by the restored Good layer while the error-recover
// action fires.
#[test]
fn test_error_shadowing_over_good_dispatch() {
    let mut alarm = alarm_with(false, level_sink(10), machine(2, 0, 1, 0));
    let err = alarm
        .put_error(&minmon::Error(String::from("boom")), PlaceholderMap::new())
        .unwrap();
    assert_eq!(names(&err), vec!["error-action"]);
    let invs = alarm.put_data(&level(20), PlaceholderMap::new()).unwrap();
    assert_eq!(names(&invs), vec!["error-recover-action"]);
    assert!(matches!(alarm.state_machine.state, State::Good(_)));
}

// Error shadowing over Bad: after bad and error, a good restores the
// Bad layer (still needing a second good), and only the error-recover
// action fires.
#[test]
fn test_error_shadowing_over_bad_dispatch() {
    let mut alarm = alarm_with(false, level_sink(10), machine(1, 0, 2, 0));
    let bad = alarm.put_data(&level(20), PlaceholderMap::new()).unwrap();
    assert_eq!(names(&bad), vec!["bad-action"]);
    let err = alarm
        .put_error(&minmon::Error(String::from("boom")), PlaceholderMap::new())
        .unwrap();
    assert_eq!(names(&err), vec!["error-action"]);
    let invs = alarm.put_data(&level(5), PlaceholderMap::new()).unwrap();
    assert_eq!(names(&invs), vec!["error-recover-action"]);
    assert!(matches!(alarm.state_machine.state, State::Bad(_)));
}

// For any one event at most one of the bad, recover and error actions
// fires; the error-recover action only accompanies an Error exit.
#[test]
fn test_exclusive_dispatch() {
    let mut alarm = alarm_with(false, level_sink(10), machine(1, 0, 1, 0));
    for value in [20u8, 20, 5, 5, 20] {
        let invs = alarm.put_data(&level(value), PlaceholderMap::new()).unwrap();
        let class_count = invs
            .iter()
            .filter(|i| i.action_name != "error-recover-action")
            .count();
        assert!(class_count <= 1);
    }
    alarm
        .put_error(&minmon::Error(String::from("x")), PlaceholderMap::new())
        .unwrap();
    let invs = alarm.put_data(&level(5), PlaceholderMap::new()).unwrap();
    assert!(invs.iter().any(|i| i.action_name == "error-recover-action"));
}

// A binary-state sink takes `true` as the good reading.
#[test]
fn test_binary_state_sink() {
    let mut alarm = AlarmBase::new(
        String::from("Name"),
        String::from("ID"),
        action("bad-action"),
        PlaceholderMap::new(),
        None,
        PlaceholderMap::new(),
        None,
        PlaceholderMap::new(),
        None,
        PlaceholderMap::new(),
        false,
        machine(1, 0, 1, 0),
        DataSink::BinaryState(BinaryState {}),
        String::from(""),
    )
    .unwrap();
    let invs = alarm
        .put_data(
            &Measurement::BinaryState(minmon::measurement::BinaryState::new(false).unwrap()),
            PlaceholderMap::new(),
        )
        .unwrap();
    assert_eq!(names(&invs), vec!["bad-action"]);
    let p = &invs[0].placeholders;
    assert_eq!(p.get("state").unwrap(), "false");
}

#[test]
fn test_placeholders() {
    let action = ActionBase::new(
        String::from("Name"),
        map_of(&[("Hello", "World")]),
        10,
        ActionKind::Disabled,
    )
    .unwrap();
    let inv = action.trigger(map_of(&[("Foo", "Bar")]));
    assert_eq!(inv.placeholders.get("action_name").unwrap(), "Name");
    assert_eq!(inv.placeholders.get("Hello").unwrap(), "World");
    assert_eq!(inv.placeholders.get("Foo").unwrap(), "Bar");
    assert_eq!(inv.placeholders.len(), 3);
}
