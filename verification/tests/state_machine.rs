//! Tests for the debouncing state machine: validation, trigger and
//! repeat cadence, hysteresis, error shadowing, and the placeholders
//! each state contributes.

use minmon::alarm::state_machine::{State, StateMachine};
use minmon::placeholder::PlaceholderMap;

fn machine(cycles: u32, repeat: u32, recover: u32, error_repeat: u32) -> StateMachine {
    StateMachine::new(cycles, repeat, recover, error_repeat, String::from("")).unwrap()
}

#[test]
fn test_validation() {
    assert!(StateMachine::new(0, 0, 1, 0, String::from("")).is_err());
    assert!(StateMachine::new(1, 0, 0, 0, String::from("")).is_err());
}

#[test]
fn state_machine_test_trigger_action() {
    let mut state_machine = machine(1, 0, 1, 0);
    assert_eq!((true, false), state_machine.bad());
}

#[test]
fn test_trigger_action_repeat() {
    let mut state_machine = machine(1, 7, 1, 0);
    assert_eq!((true, false), state_machine.bad());
    for _ in 0..6 {
        assert_eq!((false, false), state_machine.bad());
    }
    assert_eq!((true, false), state_machine.bad());
}

#[test]
fn state_machine_test_trigger_recover_action() {
    let mut state_machine = machine(1, 0, 5, 0);
    assert_eq!((true, false), state_machine.bad());
    for _ in 0..4 {
        assert_eq!((false, false), state_machine.good());
    }
    assert_eq!((true, false), state_machine.good());
}

#[test]
fn state_machine_test_trigger_error_action() {
    let mut state_machine = machine(1, 0, 1, 0);
    assert!(state_machine.error());
}

#[test]
fn test_trigger_error_action_repeat() {
    let mut state_machine = machine(1, 0, 1, 7);
    assert!(state_machine.error());
    for _ in 0..6 {
        assert!(!state_machine.error());
    }
    assert!(state_machine.error());
}

#[test]
fn test_trigger_error_recover_action() {
    let mut state_machine = machine(1, 0, 1, 0);
    state_machine.error();
    assert_eq!((false, true), state_machine.good());
}

#[test]
fn test_add_placeholders_good() {
    let state_machine = machine(1, 0, 1, 0);
    let mut placeholders = PlaceholderMap::new();
    state_machine.add_placeholders(&mut placeholders);
    assert_eq!(placeholders.get("alarm_state").unwrap(), "Good");
    assert_eq!(placeholders.len(), 1);
}

#[test]
fn test_add_placeholders_bad() {
    let mut state_machine = machine(1, 0, 1, 0);
    let mut placeholders = PlaceholderMap::new();
    state_machine.bad();
    state_machine.add_placeholders(&mut placeholders);
    let ts = placeholders.get("alarm_timestamp").unwrap().clone();
    assert!(chrono::DateTime::parse_from_rfc3339(&ts).is_ok());
    assert_eq!(placeholders.get("alarm_state").unwrap(), "Bad");
    assert!(placeholders.contains_key("alarm_uuid"));
    assert!(placeholders.contains_key("alarm_last_duration"));
    assert!(placeholders.contains_key("alarm_last_duration_iso"));
    assert_eq!(placeholders.len(), 5);
}

#[test]
fn test_add_placeholders_error_without_bad() {
    let mut state_machine = machine(1, 0, 1, 0);
    let mut placeholders = PlaceholderMap::new();
    state_machine.error();
    state_machine.add_placeholders(&mut placeholders);
    let ts = placeholders.get("error_timestamp").unwrap().clone();
    assert!(chrono::DateTime::parse_from_rfc3339(&ts).is_ok());
    assert_eq!(placeholders.get("alarm_state").unwrap(), "Error");
    assert!(placeholders.contains_key("error_uuid"));
    assert!(placeholders.contains_key("alarm_last_duration"));
    assert!(placeholders.contains_key("alarm_last_duration_iso"));
    assert_eq!(placeholders.len(), 5);
}

#[test]
fn test_trigger_error_shadowed_good() {
    let mut state_machine = machine(2, 0, 1, 0);
    assert!(matches!(state_machine.state, State::Good(_)));
    state_machine.error();
    assert!(matches!(state_machine.state, State::Error(_)));
    state_machine.bad();
    assert!(matches!(state_machine.state, State::Good(_)));
}

#[test]
fn test_trigger_error_shadowed_bad() {
    let mut state_machine = machine(1, 0, 2, 0);
    state_machine.bad();
    assert!(matches!(state_machine.state, State::Bad(_)));
    state_machine.error();
    assert!(matches!(state_machine.state, State::Error(_)));
    state_machine.good();
    assert!(matches!(state_machine.state, State::Bad(_)));
}

// A single bad, then a single good: one transition out and one back,
// with the bad episode's identifier carried into the recovered state.
#[test]
fn test_single_bad_then_good() {
    let mut state_machine = machine(1, 0, 1, 0);
    assert_eq!((true, false), state_machine.bad());
    let uuid = match &state_machine.state {
        State::Bad(b) => b.uuid.clone(),
        _ => panic!("expected the bad state"),
    };
    assert_eq!(uuid.len(), 36);
    assert_eq!((true, false), state_machine.good());
    match &state_machine.state {
        State::Good(g) => {
            assert_eq!(g.last_uuid.as_deref(), Some(uuid.as_str()));
            assert!(g.last_duration.is_some());
        }
        _ => panic!("expected the good state"),
    }
}

// The repeat cadence keeps the episode identifier stable.
#[test]
fn test_repeat_keeps_uuid() {
    let mut state_machine = machine(1, 7, 1, 0);
    assert_eq!((true, false), state_machine.bad());
    let uuid = match &state_machine.state {
        State::Bad(b) => b.uuid.clone(),
        _ => panic!("expected the bad state"),
    };
    for _ in 0..6 {
        assert_eq!((false, false), state_machine.bad());
    }
    assert_eq!((true, false), state_machine.bad());
    match &state_machine.state {
        State::Bad(b) => assert_eq!(b.uuid, uuid),
        _ => panic!("expected the bad state"),
    }
}

// Error shadowing over Good: a single bad after the error is absorbed
// by the restored Good layer, and leaving Error reports error-recover.
#[test]
fn test_error_shadowing_over_good() {
    let mut state_machine = machine(2, 0, 1, 0);
    assert!(state_machine.error());
    assert_eq!((false, true), state_machine.bad());
    assert!(matches!(state_machine.state, State::Good(_)));
}

// Error shadowing over Bad: the good after the error is replayed
// against the restored Bad layer, which still needs one more good.
#[test]
fn test_error_shadowing_over_bad() {
    let mut state_machine = machine(1, 0, 2, 0);
    assert_eq!((true, false), state_machine.bad());
    assert!(state_machine.error());
    assert_eq!((false, true), state_machine.good());
    assert!(matches!(state_machine.state, State::Bad(_)));
    assert_eq!((true, false), state_machine.good());
    assert!(matches!(state_machine.state, State::Good(_)));
}

// A fresh machine reports a version-4 identifier in canonical form
// once it enters the bad state.
#[test]
fn test_uuid_canonical_form() {
    let mut state_machine = machine(1, 0, 1, 0);
    state_machine.bad();
    let uuid = match &state_machine.state {
        State::Bad(b) => b.uuid.clone(),
        _ => panic!("expected the bad state"),
    };
    let bytes: Vec<char> = uuid.chars().collect();
    assert_eq!(bytes.len(), 36);
    for (i, c) in bytes.iter().enumerate() {
        if i == 8 || i == 13 || i == 18 || i == 23 {
            assert_eq!(*c, '-');
        } else {
            assert!(c.is_ascii_hexdigit() && !c.is_ascii_uppercase());
        }
    }
    assert_eq!(bytes[14], '4');
    assert!(matches!(bytes[19], '8' | '9' | 'a' | 'b'));
}
