use watchrun::event::ChangeEvent;
use watchrun::event::EventKind;
use watchrun::pattern::CompiledPattern;

fn pat(source: &str) -> CompiledPattern {
    match CompiledPattern::new(source) {
        Ok(p) => p,
        Err(e) => panic!("pattern should compile: {}", e.message()),
    }
}

fn event(kind: EventKind, paths: &[&str]) -> ChangeEvent {
    ChangeEvent { kind, paths: paths.iter().map(|p| p.to_string()).collect() }
}

#[test]
fn modify_on_matching_path_qualifies() {
    let p = pat(r"\.rs$");
    let e = event(EventKind::Modify, &["src/main.rs"]);
    assert!(p.matches(&e));
}

#[test]
fn create_never_qualifies_even_on_matching_path() {
    let p = pat(r"\.rs$");
    let e = event(EventKind::Create, &["src/lib.rs"]);
    assert!(!p.matches(&e));
}

#[test]
fn remove_and_other_never_qualify() {
    let p = pat(r"\.rs$");
    assert!(!p.matches(&event(EventKind::Remove, &["src/main.rs"])));
    assert!(!p.matches(&event(EventKind::Other, &["src/main.rs"])));
}

#[test]
fn modify_on_non_matching_path_does_not_qualify() {
    let p = pat(r"\.rs$");
    let e = event(EventKind::Modify, &["src/main.c"]);
    assert!(!p.matches(&e));
}

#[test]
fn one_matching_path_among_many_suffices() {
    let p = pat(r"\.rs$");
    let e = event(EventKind::Modify, &["README.md", "src/main.rs", "Cargo.toml"]);
    assert!(p.matches(&e));
}

#[test]
fn empty_path_sequence_never_matches() {
    let p = pat(r"\.rs$");
    let e = event(EventKind::Modify, &[]);
    assert!(!p.matches(&e));
    let any = pat(".*");
    assert!(!any.matches(&event(EventKind::Modify, &[])));
}

#[test]
fn matching_is_unanchored_substring_search() {
    let p = pat("main");
    assert!(p.matches(&event(EventKind::Modify, &["src/main.rs"])));
    let anchored = pat("^src/main\\.rs$");
    assert!(anchored.matches(&event(EventKind::Modify, &["src/main.rs"])));
    assert!(!anchored.matches(&event(EventKind::Modify, &["other/src/main.rs"])));
}

#[test]
fn matches_is_pure_repeated_calls_agree() {
    let p = pat(r"\.rs$");
    let hit = event(EventKind::Modify, &["src/main.rs"]);
    let miss = event(EventKind::Modify, &["notes.txt"]);
    assert_eq!(p.matches(&hit), p.matches(&hit));
    assert!(p.matches(&hit));
    assert_eq!(p.matches(&miss), p.matches(&miss));
    assert!(!p.matches(&miss));
}

#[test]
fn invalid_pattern_is_rejected_at_compile_time() {
    match CompiledPattern::new("(") {
        Ok(_) => panic!("an unclosed group should not compile"),
        Err(e) => assert!(!e.message().is_empty()),
    }
}
