use purrge::classify::{any_match, classify, keep_marked, select_candidates, verdict, PatternError};
use purrge::configuration::{get_configuration, input_from_either, ConfigError};
use purrge::keys::{action_for_key, Key};
use purrge::list::{CandidateList, RemoveError, Status};
use purrge::session::{Action, App, Effect};

fn strings(items: &[&str]) -> Vec<String> {
    items.iter().map(|s| s.to_string()).collect()
}

fn is_candidate(path: &str) -> bool {
    match classify(path) {
        Ok(b) => b,
        Err(_) => panic!("the fixed patterns are valid globs"),
    }
}

#[test]
fn flag_wins_over_positional() {
    let r = input_from_either(Some("a".to_string()), Some("b".to_string()));
    assert_eq!(r, Ok("a".to_string()));
}

#[test]
fn positional_used_without_flag() {
    assert_eq!(input_from_either(None, Some("b".to_string())), Ok("b".to_string()));
}

#[test]
fn missing_root_is_an_error() {
    assert_eq!(input_from_either(None, None), Err(ConfigError::MissingRoot));
    assert!(matches!(get_configuration(None, None), Err(ConfigError::MissingRoot)));
}

#[test]
fn configuration_keeps_directory() {
    let c = get_configuration(None, Some("/tmp/x".to_string())).ok().unwrap();
    assert_eq!(c.directory, "/tmp/x");
}

#[test]
fn target_directories_are_candidates() {
    assert!(is_candidate("a/node_modules"));
    assert!(is_candidate("a/dist"));
    assert!(is_candidate("/home/u/proj/dist"));
    assert!(is_candidate("node_modules"));
}

#[test]
fn children_of_targets_are_not_candidates() {
    assert!(!is_candidate("a/node_modules/pkg"));
    assert!(!is_candidate("a/dist/main.js"));
    assert!(!is_candidate("a/node_modules/pkg/node_modules"));
    assert!(!is_candidate("a/dist/dist"));
}

#[test]
fn other_paths_are_not_candidates() {
    assert!(!is_candidate("a"));
    assert!(!is_candidate("proj/src/index.txt"));
    assert!(!is_candidate("a/distribution"));
    assert!(!is_candidate("a/my_node_modules"));
}

#[test]
fn classify_is_independent_of_order() {
    let first = is_candidate("a/dist");
    let _ = is_candidate("a/node_modules/pkg");
    assert_eq!(is_candidate("a/dist"), first);
}

#[test]
fn scan_suppresses_nested_children() {
    let walked = strings(&["a", "a/dist", "a/node_modules", "a/node_modules/pkg"]);
    let found = select_candidates(&walked).ok().unwrap();
    assert_eq!(found, strings(&["a/dist", "a/node_modules"]));
}

#[test]
fn scan_of_nothing_is_empty() {
    let found = select_candidates(&Vec::new()).ok().unwrap();
    assert!(found.is_empty());
}

#[test]
fn end_to_end_delete_first() {
    let walked = strings(&[
        "root",
        "root/proj",
        "root/proj/dist",
        "root/proj/node_modules",
        "root/proj/src",
        "root/proj/src/index.txt",
    ]);
    let found = select_candidates(&walked).ok().unwrap();
    assert_eq!(found, strings(&["root/proj/dist", "root/proj/node_modules"]));
    let mut app = App::new(found);
    assert_eq!(app.reducer(Action::MoveNext), Effect::Nothing);
    assert_eq!(app.items().cursor(), Some(0));
    assert_eq!(app.reducer(Action::DeleteSelected), Effect::Remove(0));
    assert_eq!(app.items().path(0), "root/proj/dist");
    assert!(matches!(app.items().status(0), Status::Deleting));
    assert!(matches!(app.items().status(1), Status::Pending));
    assert_eq!(app.items().cursor(), Some(1));
    app.complete_removal(0, Ok(()));
    assert!(matches!(app.items().status(0), Status::Deleted));
    assert!(matches!(app.items().status(1), Status::Pending));
}

#[test]
fn next_then_previous_round_trip() {
    let mut list = CandidateList::new(strings(&["a", "b", "c"]));
    for start in 0..3 {
        while list.cursor() != Some(start) {
            list.next();
        }
        list.next();
        list.previous();
        assert_eq!(list.cursor(), Some(start));
    }
}

#[test]
fn moves_wrap_around() {
    let mut list = CandidateList::new(strings(&["a", "b", "c"]));
    list.previous();
    assert_eq!(list.cursor(), Some(0));
    list.previous();
    assert_eq!(list.cursor(), Some(2));
    list.next();
    assert_eq!(list.cursor(), Some(0));
}

#[test]
fn next_cycles_with_list_length() {
    let mut list = CandidateList::new(strings(&["a", "b", "c", "d"]));
    list.next();
    list.next();
    assert_eq!(list.cursor(), Some(1));
    for _ in 0..4 {
        list.next();
    }
    assert_eq!(list.cursor(), Some(1));
}

#[test]
fn empty_list_ignores_moves_and_deletes() {
    let mut app = App::new(Vec::new());
    assert_eq!(app.reducer(Action::MoveNext), Effect::Nothing);
    assert_eq!(app.reducer(Action::MovePrevious), Effect::Nothing);
    assert_eq!(app.reducer(Action::DeleteSelected), Effect::Nothing);
    assert_eq!(app.items().cursor(), None);
}

#[test]
fn delete_without_cursor_is_a_no_op() {
    let mut app = App::new(strings(&["a/dist"]));
    assert_eq!(app.reducer(Action::DeleteSelected), Effect::Nothing);
    assert!(matches!(app.items().status(0), Status::Pending));
}

#[test]
fn delete_twice_removes_once() {
    let mut app = App::new(strings(&["a/dist"]));
    app.reducer(Action::MoveNext);
    assert_eq!(app.reducer(Action::DeleteSelected), Effect::Remove(0));
    assert_eq!(app.items().cursor(), Some(0));
    assert_eq!(app.reducer(Action::DeleteSelected), Effect::Nothing);
    app.complete_removal(0, Ok(()));
    assert_eq!(app.reducer(Action::DeleteSelected), Effect::Nothing);
    assert!(matches!(app.items().status(0), Status::Deleted));
}

#[test]
fn missing_path_counts_as_deleted() {
    let mut app = App::new(strings(&["a/dist"]));
    app.reducer(Action::MoveNext);
    app.reducer(Action::DeleteSelected);
    app.complete_removal(0, Err(RemoveError::Missing));
    assert!(matches!(app.items().status(0), Status::Deleted));
}

#[test]
fn failed_removal_keeps_cause() {
    let mut app = App::new(strings(&["a/dist", "b/dist"]));
    app.reducer(Action::MoveNext);
    assert_eq!(app.reducer(Action::DeleteSelected), Effect::Remove(0));
    app.complete_removal(0, Err(RemoveError::Io("permission denied".to_string())));
    match app.items().status(0) {
        Status::Failed(cause) => assert_eq!(cause, "permission denied"),
        _ => panic!("expected a failure status"),
    }
    assert!(matches!(app.items().status(1), Status::Pending));
    assert_eq!(app.reducer(Action::DeleteSelected), Effect::Remove(1));
}

#[test]
fn completion_of_an_entry_not_deleting_is_ignored() {
    let mut app = App::new(strings(&["a/dist"]));
    app.complete_removal(0, Ok(()));
    app.complete_removal(7, Ok(()));
    assert!(matches!(app.items().status(0), Status::Pending));
}

#[test]
fn quit_stops_further_deletions() {
    let mut app = App::new(strings(&["a/dist", "b/dist"]));
    app.reducer(Action::MoveNext);
    assert_eq!(app.reducer(Action::Quit), Effect::Stop);
    assert!(app.should_quit());
    assert_eq!(app.reducer(Action::DeleteSelected), Effect::Nothing);
    assert_eq!(app.reducer(Action::MoveNext), Effect::Nothing);
    assert!(matches!(app.items().status(0), Status::Pending));
    assert_eq!(app.items().cursor(), Some(0));
}

#[test]
fn key_bindings() {
    assert_eq!(action_for_key(Key::Char('q')), Some(Action::Quit));
    assert_eq!(action_for_key(Key::Esc), Some(Action::Quit));
    assert_eq!(action_for_key(Key::Char('j')), Some(Action::MoveNext));
    assert_eq!(action_for_key(Key::Down), Some(Action::MoveNext));
    assert_eq!(action_for_key(Key::Char('k')), Some(Action::MovePrevious));
    assert_eq!(action_for_key(Key::Up), Some(Action::MovePrevious));
    assert_eq!(action_for_key(Key::Char(' ')), Some(Action::DeleteSelected));
    assert_eq!(action_for_key(Key::Char('x')), None);
    assert_eq!(action_for_key(Key::Other), None);
}

#[test]
fn markers_differ_by_status() {
    let marks = [
        Status::Pending.marker(),
        Status::Deleting.marker(),
        Status::Deleted.marker(),
        Status::Failed("e".to_string()).marker(),
    ];
    for i in 0..marks.len() {
        for j in 0..marks.len() {
            assert_eq!(i == j, marks[i] == marks[j]);
        }
    }
}

#[test]
fn keep_marked_keeps_order_of_true_verdicts() {
    let entries = strings(&["a", "b", "c", "d"]);
    let kept = keep_marked(&entries, &vec![true, false, false, true]);
    assert_eq!(kept, strings(&["a", "d"]));
    assert!(keep_marked(&entries, &vec![false; 4]).is_empty());
}

#[test]
fn verdict_needs_inclusion_and_no_exclusion() {
    assert!(verdict(true, false));
    assert!(!verdict(true, true));
    assert!(!verdict(false, false));
    assert!(!verdict(false, true));
}

#[test]
fn invalid_pattern_is_reported() {
    let patterns = vec!["a[", "**/dist"];
    assert!(matches!(any_match(&patterns, "x/dist"), Err(PatternError::Invalid { .. })));
    assert!(matches!(any_match(&vec!["**/dist"], "x/dist"), Ok(true)));
    assert!(matches!(any_match(&Vec::new(), "x/dist"), Ok(false)));
}
