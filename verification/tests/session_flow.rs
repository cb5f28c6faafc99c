use watchrun::DEBOUNCE_WINDOW_MILLIS;
use watchrun::event::ChangeEvent;
use watchrun::event::EventKind;
use watchrun::session::WatchSession;

fn session(pattern: &str, template: &str) -> WatchSession {
    match WatchSession::new(pattern, template, DEBOUNCE_WINDOW_MILLIS, 0) {
        Ok(s) => s,
        Err(e) => panic!("pattern should compile: {}", e.message()),
    }
}

fn event(kind: EventKind, paths: &[&str]) -> ChangeEvent {
    ChangeEvent { kind, paths: paths.iter().map(|p| p.to_string()).collect() }
}

#[test]
fn invalid_pattern_fails_session_startup() {
    assert!(WatchSession::new("[", "cargo build", DEBOUNCE_WINDOW_MILLIS, 0).is_err());
}

#[test]
fn modify_dispatches_template_without_substitution() {
    let mut s = session(r"\.rs$", "cargo build");
    let r = s.process_event(5, &event(EventKind::Modify, &["src/main.rs"]));
    assert_eq!(r, Some("cargo build".to_string()));
}

#[test]
fn dispatched_line_substitutes_matched_paths() {
    let mut s = session(r"\.txt$", "echo {}");
    let r = s.process_event(5, &event(EventKind::Modify, &["a.txt", "b.txt"]));
    assert_eq!(r, Some("echo a.txt b.txt".to_string()));
}

#[test]
fn create_event_never_dispatches() {
    let mut s = session(r"\.rs$", "cargo build");
    let r = s.process_event(5, &event(EventKind::Create, &["src/lib.rs"]));
    assert_eq!(r, None);
    let again = s.process_event(6, &event(EventKind::Modify, &["src/lib.rs"]));
    assert_eq!(again, Some("cargo build".to_string()));
}

#[test]
fn empty_path_sequence_never_dispatches() {
    let mut s = session(".*", "echo hit");
    assert_eq!(s.process_event(5, &event(EventKind::Modify, &[])), None);
}

#[test]
fn same_path_burst_collapses_to_one_dispatch_per_window() {
    let mut s = session(r"\.rs$", "cargo build");
    let e = event(EventKind::Modify, &["src/main.rs"]);
    assert_eq!(s.process_event(0, &e), Some("cargo build".to_string()));
    assert_eq!(s.process_event(100, &e), None);
    assert_eq!(s.process_event(200, &e), None);
    assert_eq!(s.process_event(500, &e), Some("cargo build".to_string()));
}

#[test]
fn suppressed_event_still_restarts_the_window() {
    let mut s = session(r"\.rs$", "cargo build");
    let e = event(EventKind::Modify, &["src/main.rs"]);
    assert_eq!(s.process_event(0, &e), Some("cargo build".to_string()));
    assert_eq!(s.process_event(240, &e), None);
    assert_eq!(s.process_event(480, &e), None);
    assert_eq!(s.process_event(740, &e), Some("cargo build".to_string()));
}

#[test]
fn different_paths_dispatch_within_window() {
    let mut s = session(r"\.rs$", "echo {}");
    assert_eq!(
        s.process_event(0, &event(EventKind::Modify, &["a.rs"])),
        Some("echo a.rs".to_string())
    );
    assert_eq!(
        s.process_event(0, &event(EventKind::Modify, &["b.rs"])),
        Some("echo b.rs".to_string())
    );
}

#[test]
fn non_qualifying_event_leaves_state_alone() {
    let mut s = session(r"\.rs$", "cargo build");
    let e = event(EventKind::Modify, &["src/main.rs"]);
    assert_eq!(s.process_event(0, &e), Some("cargo build".to_string()));
    assert_eq!(s.process_event(100, &event(EventKind::Modify, &["notes.txt"])), None);
    assert_eq!(s.process_event(200, &e), None);
}
