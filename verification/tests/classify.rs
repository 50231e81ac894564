use klask::{ArgDef, ArgKind, ArgState, HintKind};

fn def(name: &str) -> ArgDef {
    ArgDef {
        name: name.to_string(),
        long: None,
        short: None,
        about: None,
        long_about: None,
        required: false,
        forbid_empty: false,
        use_equals: false,
        multiple: false,
        takes_value: false,
        hint: HintKind::Other,
        possible: None,
        defaults: Vec::new(),
    }
}

#[test]
fn name_is_sentence_cased() {
    let mut d = def("my_arg");
    d.takes_value = true;
    let s = ArgState::from_def(&d);
    assert_eq!(s.name, "My arg".to_string());
}

#[test]
fn long_name_becomes_long_token() {
    let mut d = def("name");
    d.long = Some("name".to_string());
    d.short = Some("n".to_string());
    d.takes_value = true;
    let s = ArgState::from_def(&d);
    assert_eq!(s.call_name, Some("--name".to_string()));
}

#[test]
fn short_name_used_without_long() {
    let mut d = def("verbose");
    d.short = Some("v".to_string());
    let s = ArgState::from_def(&d);
    assert_eq!(s.call_name, Some("-v".to_string()));
}

#[test]
fn no_token_means_positional() {
    let mut d = def("input");
    d.takes_value = true;
    let s = ArgState::from_def(&d);
    assert_eq!(s.call_name, None);
}

#[test]
fn long_about_preferred_over_about() {
    let mut d = def("x");
    d.about = Some("short".to_string());
    d.long_about = Some("long".to_string());
    let s = ArgState::from_def(&d);
    assert_eq!(s.desc, Some("long".to_string()));
}

#[test]
fn single_value_classifies_as_text() {
    let mut d = def("name");
    d.takes_value = true;
    d.defaults = vec!["alice".to_string()];
    let s = ArgState::from_def(&d);
    match s.kind {
        ArgKind::Text { value, default } => {
            assert_eq!(value, "".to_string());
            assert_eq!(default, Some("alice".to_string()));
        }
        k => panic!("expected Text, got {:?}", k),
    }
}

#[test]
fn single_path_starts_at_first_default() {
    let mut d = def("input");
    d.takes_value = true;
    d.hint = HintKind::FilePath;
    d.defaults = vec!["a.txt".to_string(), "b.txt".to_string()];
    let s = ArgState::from_def(&d);
    match s.kind {
        ArgKind::Path { value, default, allow_dir, allow_file } => {
            assert_eq!(value, "a.txt".to_string());
            assert_eq!(default, Some("a.txt".to_string()));
            assert!(!allow_dir);
            assert!(allow_file);
        }
        k => panic!("expected Path, got {:?}", k),
    }
}

#[test]
fn multiple_values_classify_as_multi_text() {
    let mut d = def("items");
    d.multiple = true;
    d.takes_value = true;
    d.defaults = vec!["a".to_string(), "b".to_string()];
    let s = ArgState::from_def(&d);
    match s.kind {
        ArgKind::MultiText { values, default } => {
            assert_eq!(values, vec!["a".to_string(), "b".to_string()]);
            assert_eq!(default, vec!["a".to_string(), "b".to_string()]);
        }
        k => panic!("expected MultiText, got {:?}", k),
    }
}

#[test]
fn multiple_paths_allow_dirs_for_generic_hint() {
    let mut d = def("inputs");
    d.multiple = true;
    d.takes_value = true;
    d.hint = HintKind::AnyPath;
    let s = ArgState::from_def(&d);
    match s.kind {
        ArgKind::MultiPath { values, default, allow_dir, allow_file } => {
            assert!(values.is_empty());
            assert!(default.is_empty());
            assert!(allow_dir);
            assert!(allow_file);
        }
        k => panic!("expected MultiPath, got {:?}", k),
    }
}

#[test]
fn executable_hint_allows_files_only() {
    let mut d = def("tool");
    d.takes_value = true;
    d.hint = HintKind::ExecutablePath;
    let s = ArgState::from_def(&d);
    match s.kind {
        ArgKind::Path { allow_dir, allow_file, .. } => {
            assert!(!allow_dir);
            assert!(allow_file);
        }
        k => panic!("expected Path, got {:?}", k),
    }
}

#[test]
fn repeated_bare_flag_classifies_as_count_zero() {
    let mut d = def("verbose");
    d.multiple = true;
    let s = ArgState::from_def(&d);
    match s.kind {
        ArgKind::Count(n) => assert_eq!(n, 0),
        k => panic!("expected Count, got {:?}", k),
    }
}

#[test]
fn bare_flag_classifies_as_flag_false() {
    let d = def("verbose");
    let s = ArgState::from_def(&d);
    match s.kind {
        ArgKind::Flag(b) => assert!(!b),
        k => panic!("expected Flag, got {:?}", k),
    }
}

#[test]
fn required_choice_starts_at_first_allowed() {
    let mut d = def("color");
    d.required = true;
    d.possible = Some(vec!["red".to_string(), "blue".to_string()]);
    let s = ArgState::from_def(&d);
    assert!(!s.optional);
    match s.kind {
        ArgKind::Choice { value, possible } => {
            assert_eq!(value.0, "red".to_string());
            assert_eq!(possible, vec!["red".to_string(), "blue".to_string()]);
        }
        k => panic!("expected Choice, got {:?}", k),
    }
}

#[test]
fn optional_choice_starts_empty() {
    let mut d = def("color");
    d.possible = Some(vec!["red".to_string()]);
    let s = ArgState::from_def(&d);
    match s.kind {
        ArgKind::Choice { value, .. } => assert_eq!(value.0, "".to_string()),
        k => panic!("expected Choice, got {:?}", k),
    }
}

#[test]
fn multiple_with_allowed_set_classifies_as_multi_choice() {
    let mut d = def("colors");
    d.multiple = true;
    d.possible = Some(vec!["red".to_string(), "blue".to_string()]);
    let s = ArgState::from_def(&d);
    match s.kind {
        ArgKind::MultiChoice { values, possible } => {
            assert!(values.is_empty());
            assert_eq!(possible, vec!["red".to_string(), "blue".to_string()]);
        }
        k => panic!("expected MultiChoice, got {:?}", k),
    }
}

#[test]
fn forbid_empty_makes_argument_required() {
    let mut d = def("name");
    d.takes_value = true;
    d.forbid_empty = true;
    let s = ArgState::from_def(&d);
    assert!(!s.optional);
}

#[test]
fn reclassifying_gives_same_observable_state() {
    let mut d = def("color");
    d.long = Some("color".to_string());
    d.required = true;
    d.use_equals = true;
    d.possible = Some(vec!["red".to_string(), "blue".to_string()]);
    let s1 = ArgState::from_def(&d);
    let s2 = ArgState::from_def(&d);
    assert_eq!(s1.name, s2.name);
    assert_eq!(s1.call_name, s2.call_name);
    assert_eq!(s1.desc, s2.desc);
    assert_eq!(s1.optional, s2.optional);
    assert_eq!(s1.use_equals, s2.use_equals);
    match (s1.kind, s2.kind) {
        (
            ArgKind::Choice { value: v1, possible: p1 },
            ArgKind::Choice { value: v2, possible: p2 },
        ) => {
            assert_eq!(v1.0, v2.0);
            assert_eq!(p1, p2);
        }
        _ => panic!("expected Choice on both"),
    }
}
