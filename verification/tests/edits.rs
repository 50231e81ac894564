use klask::{ArgKind, ArgState, ChooseState, ValidationErrorInfo};

fn text_arg(name: &str, value: &str) -> ArgState {
    ArgState {
        name: name.to_string(),
        call_name: Some("--x".to_string()),
        desc: None,
        optional: false,
        use_equals: false,
        kind: ArgKind::Text { value: value.to_string(), default: None },
    }
}

fn count_arg(n: u64) -> ArgState {
    ArgState {
        name: "Verbosity".to_string(),
        call_name: Some("-v".to_string()),
        desc: None,
        optional: true,
        use_equals: false,
        kind: ArgKind::Count(n),
    }
}

fn error_for(name: &str) -> Option<ValidationErrorInfo> {
    Some(ValidationErrorInfo {
        name: name.to_string(),
        message: format!("{} is required.", name),
    })
}

#[test]
fn edit_clears_own_validation_error() {
    let mut a = text_arg("Name", "");
    let mut err = error_for("Name");
    a.set_value("bob".to_string(), &mut err);
    assert!(err.is_none());
    match a.kind {
        ArgKind::Text { value, .. } => assert_eq!(value, "bob".to_string()),
        k => panic!("expected Text, got {:?}", k),
    }
}

#[test]
fn edit_keeps_another_arguments_error() {
    let mut a = text_arg("Name", "");
    let mut err = error_for("Other");
    a.set_value("bob".to_string(), &mut err);
    assert_eq!(err.as_ref().map(|e| e.name.clone()), Some("Other".to_string()));
}

#[test]
fn decrement_clamps_at_zero() {
    let mut a = count_arg(0);
    let mut err = None;
    a.decrement(&mut err);
    match a.kind {
        ArgKind::Count(n) => assert_eq!(n, 0),
        k => panic!("expected Count, got {:?}", k),
    }
}

#[test]
fn decrement_lowers_by_one() {
    let mut a = count_arg(3);
    let mut err = None;
    a.decrement(&mut err);
    match a.kind {
        ArgKind::Count(n) => assert_eq!(n, 2),
        k => panic!("expected Count, got {:?}", k),
    }
}

#[test]
fn increment_raises_by_one_and_clears_error() {
    let mut a = count_arg(1);
    let mut err = error_for("Verbosity");
    a.increment(&mut err);
    assert!(err.is_none());
    match a.kind {
        ArgKind::Count(n) => assert_eq!(n, 2),
        k => panic!("expected Count, got {:?}", k),
    }
}

#[test]
fn count_then_decrement_serializes_one_less_token() {
    let mut a = count_arg(3);
    let r = a.get_cmd_args(Vec::new());
    assert_eq!(
        r,
        Ok(vec!["-v".to_string(), "-v".to_string(), "-v".to_string()])
    );
    let mut err = None;
    a.decrement(&mut err);
    let r = a.get_cmd_args(Vec::new());
    assert_eq!(r, Ok(vec!["-v".to_string(), "-v".to_string()]));
}

#[test]
fn set_flag_clears_own_error() {
    let mut a = ArgState {
        name: "Verbose".to_string(),
        call_name: Some("--verbose".to_string()),
        desc: None,
        optional: true,
        use_equals: false,
        kind: ArgKind::Flag(false),
    };
    let mut err = error_for("Verbose");
    a.set_flag(true, &mut err);
    assert!(err.is_none());
    assert!(matches!(a.kind, ArgKind::Flag(true)));
}

#[test]
fn set_values_replaces_list_and_clears_error() {
    let mut a = ArgState {
        name: "Items".to_string(),
        call_name: None,
        desc: None,
        optional: true,
        use_equals: false,
        kind: ArgKind::MultiText { values: vec!["x".to_string()], default: Vec::new() },
    };
    let mut err = error_for("Items");
    a.set_values(vec!["a".to_string(), "b".to_string()], &mut err);
    assert!(err.is_none());
    match a.kind {
        ArgKind::MultiText { values, .. } => {
            assert_eq!(values, vec!["a".to_string(), "b".to_string()]);
        }
        k => panic!("expected MultiText, got {:?}", k),
    }
}

#[test]
fn set_choice_entry_keeps_identity_token() {
    let first = ChooseState::new("red".to_string());
    let token = first.1;
    let mut a = ArgState {
        name: "Colors".to_string(),
        call_name: Some("--color".to_string()),
        desc: None,
        optional: true,
        use_equals: false,
        kind: ArgKind::MultiChoice {
            values: vec![first, ChooseState::new("blue".to_string())],
            possible: vec!["red".to_string(), "blue".to_string(), "green".to_string()],
        },
    };
    let mut err = None;
    a.set_choice_entry(0, "green".to_string(), &mut err);
    match a.kind {
        ArgKind::MultiChoice { values, .. } => {
            assert_eq!(values[0].0, "green".to_string());
            assert_eq!(values[0].1, token);
            assert_eq!(values[1].0, "blue".to_string());
        }
        k => panic!("expected MultiChoice, got {:?}", k),
    }
}

#[test]
fn set_value_on_choice_keeps_identity_token() {
    let selected = ChooseState::new("red".to_string());
    let token = selected.1;
    let mut a = ArgState {
        name: "Color".to_string(),
        call_name: Some("--color".to_string()),
        desc: None,
        optional: true,
        use_equals: false,
        kind: ArgKind::Choice {
            value: selected,
            possible: vec!["red".to_string(), "blue".to_string()],
        },
    };
    let mut err = None;
    a.set_value("blue".to_string(), &mut err);
    match a.kind {
        ArgKind::Choice { value, .. } => {
            assert_eq!(value.0, "blue".to_string());
            assert_eq!(value.1, token);
        }
        k => panic!("expected Choice, got {:?}", k),
    }
}
