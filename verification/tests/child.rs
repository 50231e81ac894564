use klask::{ChildApp, StdinType, StreamEvent};

fn line(s: &str) -> StreamEvent {
    StreamEvent::Line(s.to_string())
}

#[test]
fn echoed_stdin_is_accumulated_and_liveness_ends() {
    let mut c = ChildApp::new();
    assert!(c.is_running());
    let out = c
        .read(&vec![line("hello\n"), StreamEvent::Eos], &vec![StreamEvent::Eos])
        .to_string();
    assert_eq!(out, "hello\n".to_string());
    assert!(!c.is_running());
}

#[test]
fn lines_of_one_stream_keep_arrival_order() {
    let mut c = ChildApp::new();
    let out = c.read(&vec![line("one\n"), line("two\n")], &Vec::new()).to_string();
    assert_eq!(out, "one\ntwo\n".to_string());
    assert!(c.is_running());
}

#[test]
fn both_streams_feed_one_buffer() {
    let mut c = ChildApp::new();
    let out = c.read(&vec![line("out\n")], &vec![line("err\n")]).to_string();
    assert_eq!(out, "out\nerr\n".to_string());
}

#[test]
fn kill_stops_liveness_and_freezes_output() {
    let mut c = ChildApp::new();
    c.read(&vec![line("partial\n")], &Vec::new());
    assert!(c.is_running());
    c.kill();
    assert!(!c.is_running());
    let out = c
        .read(&vec![line("late\n"), StreamEvent::Eos], &vec![line("more\n")])
        .to_string();
    assert_eq!(out, "partial\n".to_string());
    assert!(!c.is_running());
}

#[test]
fn natural_exit_needs_both_eos_markers() {
    let mut c = ChildApp::new();
    c.read(&vec![line("a\n"), StreamEvent::Eos], &Vec::new());
    assert!(c.is_running());
    c.read(&Vec::new(), &vec![StreamEvent::Eos]);
    assert!(!c.is_running());
}

#[test]
fn events_after_eos_in_one_batch_are_discarded() {
    let mut c = ChildApp::new();
    let out = c
        .read(
            &vec![line("kept\n"), StreamEvent::Eos, line("dropped\n")],
            &Vec::new(),
        )
        .to_string();
    assert_eq!(out, "kept\n".to_string());
}

#[test]
fn stdin_types_compare_by_content() {
    let a = StdinType::Text("hello\n".to_string());
    let b = StdinType::Text("hello\n".to_string());
    assert_eq!(a, b);
    assert_ne!(a, StdinType::File("hello\n".to_string()));
}
