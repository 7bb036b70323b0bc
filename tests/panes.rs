use dir_diff::cli::Cli;
use dir_diff::loader::{LoadNote, ReadOutcome};
use dir_diff::state::{Line, PaneId, PaneView, State};

fn listing(names: &[&str]) -> ReadOutcome {
    ReadOutcome::Listing(names.iter().map(|n| Some(n.to_string())).collect())
}

fn texts(lines: &Vec<Line>) -> Vec<String> {
    assert!(lines.iter().all(|l| !l.striked));
    let mut v: Vec<String> = lines.iter().map(|l| l.text.clone()).collect();
    v.sort();
    v
}

fn strings(names: &[&str]) -> Vec<String> {
    names.iter().map(|n| n.to_string()).collect()
}

fn seeded(left: &[&str], right: &[&str]) -> State {
    let mut state = State::new();
    state.read_path(PaneId::Left, "/l".to_string(), listing(left));
    state.read_path(PaneId::Right, "/r".to_string(), listing(right));
    state
}

fn check_view(view: &PaneView, title: &str, lines: &[&str], diff: &[&str]) {
    assert_eq!(view.title, title);
    assert_eq!(texts(&view.lines), strings(lines));
    assert_eq!(texts(&view.diff), strings(diff));
}

#[test]
fn diff_never_holds_entries_of_other_side() {
    let state = seeded(&["a", "b", "c", "e"], &["b", "c", "d"]);
    let p = state.update();
    for line in &p.left.diff {
        assert!(!state.right.entries.contains(&line.text));
    }
    for line in &p.right.diff {
        assert!(!state.left.entries.contains(&line.text));
    }
    check_view(&p.left, "/l", &["a", "b", "c", "e"], &["a", "e"]);
}

#[test]
fn same_entries_give_empty_diffs() {
    let state = seeded(&["a", "b"], &["b", "a"]);
    let p = state.update();
    assert!(p.left.diff.is_empty());
    assert!(p.right.diff.is_empty());
    check_view(&p.left, "/l", &["a", "b"], &[]);
    check_view(&p.right, "/r", &["a", "b"], &[]);
}

#[test]
fn reload_twice_from_unchanged_directory() {
    let mut state = seeded(&["a"], &["b"]);
    let (first, _) = state.reload(PaneId::Left, listing(&["x", "y"]));
    let (second, note) = state.reload(PaneId::Left, listing(&["x", "y"]));
    assert_eq!(note, LoadNote::Listed { skipped: 0 });
    assert_eq!(texts(&first.left.lines), texts(&second.left.lines));
    assert_eq!(texts(&first.left.diff), texts(&second.left.diff));
    check_view(&second.left, "/l", &["x", "y"], &["x", "y"]);
}

#[test]
fn export_then_import_gives_same_set() {
    let mut state = seeded(&["a.txt", "b.txt", "sub"], &[]);
    let text = state.export_text(PaneId::Left);
    let note = state.read_path(PaneId::Right, "/out.json".to_string(), ReadOutcome::File(text.into_bytes()));
    assert_eq!(note, LoadNote::Imported);
    let p = state.update();
    check_view(&p.right, "/out.json", &["a.txt", "b.txt", "sub"], &[]);
    check_view(&p.left, "/l", &["a.txt", "b.txt", "sub"], &[]);
}

#[test]
fn export_writes_indented_json_array() {
    let state = seeded(&["a"], &[]);
    assert_eq!(state.export_text(PaneId::Left), "[\n  \"a\"\n]");
    assert_eq!(state.export_text(PaneId::Right), "[]");
}

#[test]
fn json_file_duplicates_collapse() {
    let mut state = State::new();
    let bytes = b"[\"x\",\"y\",\"y\"]".to_vec();
    let note = state.read_path(PaneId::Left, "/list.json".to_string(), ReadOutcome::File(bytes));
    assert_eq!(note, LoadNote::Imported);
    assert_eq!(state.left.entries.len(), 2);
    check_view(&state.update().left, "/list.json", &["x", "y"], &["x", "y"]);
}

#[test]
fn file_that_is_not_json_gives_empty_slot() {
    let mut state = seeded(&["a"], &["b"]);
    let note = state.read_path(PaneId::Left, "/notes.txt".to_string(), ReadOutcome::File(b"hello".to_vec()));
    assert_eq!(note, LoadNote::NotJson);
    let p = state.update();
    check_view(&p.left, "/notes.txt", &[], &[]);
    check_view(&p.right, "/r", &["b"], &["b"]);
}

#[test]
fn json_of_other_shape_gives_empty_slot() {
    let mut state = State::new();
    let note = state.read_path(PaneId::Left, "/n.json".to_string(), ReadOutcome::File(b"[1, 2]".to_vec()));
    assert_eq!(note, LoadNote::NotJson);
    assert_eq!(state.left.entries.len(), 0);
}

#[test]
fn unreadable_path_keeps_origin() {
    let mut state = seeded(&["a"], &["b"]);
    let note = state.read_path(PaneId::Right, "/gone".to_string(), ReadOutcome::Unreadable);
    assert_eq!(note, LoadNote::Unreadable);
    let p = state.update();
    check_view(&p.right, "/gone", &[], &[]);
    check_view(&p.left, "/l", &["a"], &["a"]);
}

#[test]
fn unreadable_entry_is_skipped() {
    let mut state = State::new();
    let read = ReadOutcome::Listing(vec![Some("a".to_string()), None, Some("c".to_string())]);
    let note = state.read_path(PaneId::Left, "/d".to_string(), read);
    assert_eq!(note, LoadNote::Listed { skipped: 1 });
    check_view(&state.update().left, "/d", &["a", "c"], &["a", "c"]);
}

#[test]
fn seeded_sides_show_their_own_entries() {
    let state = seeded(&["a", "b", "c"], &["b", "c", "d"]);
    let p = state.update();
    check_view(&p.left, "/l", &["a", "b", "c"], &["a"]);
    check_view(&p.right, "/r", &["b", "c", "d"], &["d"]);
}

#[test]
fn cancelled_open_changes_nothing() {
    let mut state = seeded(&["a", "b", "c"], &["b", "c", "d"]);
    assert!(state.open_picked(PaneId::Left, None).is_none());
    let p = state.update();
    check_view(&p.left, "/l", &["a", "b", "c"], &["a"]);
    check_view(&p.right, "/r", &["b", "c", "d"], &["d"]);
}

#[test]
fn picked_folder_replaces_slot_and_publishes_both() {
    let mut state = seeded(&["a", "b", "c"], &["b", "c", "d"]);
    let (p, note) = state.open_picked(PaneId::Left, Some(("/m".to_string(), listing(&["d", "e"])))).unwrap();
    assert_eq!(note, LoadNote::Listed { skipped: 0 });
    check_view(&p.left, "/m", &["d", "e"], &["e"]);
    check_view(&p.right, "/r", &["b", "c", "d"], &["b", "c"]);
}

#[test]
fn reload_after_directory_lost_a_file() {
    let mut state = seeded(&["a", "b", "c"], &["b", "c", "d"]);
    let (p, _) = state.reload(PaneId::Left, listing(&["a", "c"]));
    check_view(&p.left, "/l", &["a", "c"], &["a"]);
    check_view(&p.right, "/r", &["b", "c", "d"], &["b", "d"]);
}

#[test]
fn new_state_publishes_empty_slots() {
    let p = State::default().update();
    check_view(&p.left, "", &[], &[]);
    check_view(&p.right, "", &[], &[]);
}

#[test]
fn complement_of_each_side() {
    assert_eq!(State::complement_id(PaneId::Left), PaneId::Right);
    assert_eq!(State::complement_id(PaneId::Right), PaneId::Left);
}

#[test]
fn cli_gives_given_paths_left_first() {
    let cli = Cli { left: Some("/x".to_string()), right: Some("/y".to_string()) };
    assert_eq!(cli.panes(), vec![(PaneId::Left, "/x".to_string()), (PaneId::Right, "/y".to_string())]);
    let only_right = Cli { left: None, right: Some("/y".to_string()) };
    assert_eq!(only_right.panes(), vec![(PaneId::Right, "/y".to_string())]);
    let none = Cli { left: None, right: None };
    assert!(none.panes().is_empty());
}

#[test]
fn listing_is_in_display_order() {
    let state = seeded(&["b", "abc", "B", "\u{e4}", "ab", "a"], &["ab"]);
    let p = state.update();
    let raw: Vec<String> = p.left.lines.iter().map(|l| l.text.clone()).collect();
    assert_eq!(raw, strings(&["B", "a", "ab", "abc", "b", "\u{e4}"]));
    let diff: Vec<String> = p.left.diff.iter().map(|l| l.text.clone()).collect();
    assert_eq!(diff, strings(&["B", "a", "abc", "b", "\u{e4}"]));
}

#[test]
fn export_escapes_quotes_backslashes_and_controls() {
    let state = seeded(&["q\"\\\n\u{1}\u{e9}", "z"], &[]);
    let text = state.export_text(PaneId::Left);
    let a = "[\n  \"q\\\"\\\\\\n\\u0001\u{e9}\",\n  \"z\"\n]";
    let b = "[\n  \"z\",\n  \"q\\\"\\\\\\n\\u0001\u{e9}\"\n]";
    assert!(text == a || text == b, "{text}");
    let mut back = State::new();
    back.read_path(PaneId::Left, "/e.json".to_string(), ReadOutcome::File(text.into_bytes()));
    check_view(&back.update().left, "/e.json", &["q\"\\\n\u{1}\u{e9}", "z"], &["q\"\\\n\u{1}\u{e9}", "z"]);
}
