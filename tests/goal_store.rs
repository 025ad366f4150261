use goal::editing::{choose_editor, edit_goal, edit_seed};
use goal::error::GoalError;
use goal::record::{goal_from_fields, Goal};
use goal::store::{
    get_goal, goal_from_section, open_goal_file, parse_goal, remove_goal, set_goal,
    show_current_goal,
};

const EMPTY_DOC: &str = "[goal]\ntext = \"\"\"\"\"\"\ndeadline = \"\"\"\"\"\"\n";

fn read_back(doc: &str) -> Option<(String, Option<String>)> {
    parse_goal(doc).unwrap().map(|g| (g.text, g.deadline))
}

fn round_trip(text: &str, deadline: Option<&str>) -> Option<(String, Option<String>)> {
    read_back(&set_goal(text, deadline.map(|d| d.to_string())))
}

#[test]
fn round_trip_plain_text() {
    assert_eq!(round_trip("learn rust", None), Some(("learn rust".to_string(), None)));
}

#[test]
fn round_trip_with_deadline() {
    assert_eq!(
        round_trip("ship it", Some("friday")),
        Some(("ship it".to_string(), Some("friday".to_string())))
    );
}

#[test]
fn round_trip_multi_line_text() {
    let t = "first line\nsecond line\n\nfourth";
    assert_eq!(round_trip(t, Some("a\nb")), Some((t.to_string(), Some("a\nb".to_string()))));
}

#[test]
fn round_trip_quotes() {
    let t = "say \"hi\" and \"\"\"more\"\"\" then end with \"";
    assert_eq!(round_trip(t, Some("\"soon\"")), Some((t.to_string(), Some("\"soon\"".to_string()))));
}

#[test]
fn round_trip_backslashes_and_controls() {
    let t = "C:\\path\\to\\\n\ttab\rcr\u{1}x\u{7f}";
    assert_eq!(round_trip(t, None), Some((t.to_string(), None)));
}

#[test]
fn round_trip_leading_newline() {
    let t = "\nstarts with a newline";
    assert_eq!(round_trip(t, None), Some((t.to_string(), None)));
}

#[test]
fn round_trip_unicode() {
    let t = "écrire un livre ✍ 書く";
    assert_eq!(round_trip(t, Some("2024 — été")), Some((t.to_string(), Some("2024 — été".to_string()))));
}

#[test]
fn empty_text_reads_as_no_goal() {
    assert_eq!(round_trip("", None), None);
    assert_eq!(round_trip("", Some("tomorrow")), None);
}

#[test]
fn empty_deadline_reads_as_none() {
    assert_eq!(round_trip("a", Some("")), Some(("a".to_string(), None)));
}

#[test]
fn rendered_document_is_exact() {
    assert_eq!(
        set_goal("a\\b\"c", Some("d".to_string())),
        "[goal]\ntext = \"\"\"a\\\\b\\\"c\"\"\"\ndeadline = \"\"\"d\"\"\"\n"
    );
    assert_eq!(set_goal("\nx\u{1b}", None), "[goal]\ntext = \"\"\"\\nx\\u001b\"\"\"\ndeadline = \"\"\"\"\"\"\n");
}

#[test]
fn remove_gives_empty_document() {
    assert_eq!(remove_goal(), EMPTY_DOC);
    assert_eq!(read_back(&remove_goal()), None);
}

#[test]
fn remove_twice_same_as_once() {
    let once = remove_goal();
    let twice = remove_goal();
    assert_eq!(once, twice);
    assert_eq!(read_back(&twice), None);
}

#[test]
fn set_replaces_prior_deadline() {
    let first = set_goal("a", Some("X".to_string()));
    assert_eq!(read_back(&first), Some(("a".to_string(), Some("X".to_string()))));
    let second = set_goal("b", None);
    assert_eq!(read_back(&second), Some(("b".to_string(), None)));
}

fn current_after_set_a_x() -> Option<Goal> {
    parse_goal(&set_goal("a", Some("X".to_string()))).unwrap()
}

#[test]
fn edit_preserves_deadline_without_override() {
    let doc = edit_goal(true, "b", None, current_after_set_a_x()).unwrap();
    assert_eq!(read_back(&doc), Some(("b".to_string(), Some("X".to_string()))));
}

#[test]
fn edit_overrides_deadline() {
    let doc = edit_goal(true, "b", Some("Y".to_string()), current_after_set_a_x()).unwrap();
    assert_eq!(read_back(&doc), Some(("b".to_string(), Some("Y".to_string()))));
}

#[test]
fn edit_trims_edited_text() {
    let doc = edit_goal(true, " \t b c \n\n", None, None).unwrap();
    assert_eq!(read_back(&doc), Some(("b c".to_string(), None)));
    let doc = edit_goal(true, "\u{3000}x\u{a0}", None, None).unwrap();
    assert_eq!(read_back(&doc), Some(("x".to_string(), None)));
}

#[test]
fn edit_to_blank_removes_goal() {
    let doc = edit_goal(true, "  \n", None, current_after_set_a_x()).unwrap();
    assert_eq!(read_back(&doc), None);
}

#[test]
fn failed_editor_aborts_edit() {
    let r = edit_goal(false, "b", Some("Y".to_string()), current_after_set_a_x());
    assert_eq!(r, Err(GoalError::EditorFailed));
}

#[test]
fn edit_seed_holds_current_text() {
    assert_eq!(edit_seed(&current_after_set_a_x()), "a");
    assert_eq!(edit_seed(&None), "");
}

#[test]
fn choose_editor_prefers_given() {
    assert_eq!(choose_editor(Some("vim".to_string()), Some("nano".to_string())), Ok("vim".to_string()));
    assert_eq!(choose_editor(None, Some("nano".to_string())), Ok("nano".to_string()));
    assert_eq!(choose_editor(None, None), Err(GoalError::NoEditor));
}

#[test]
fn first_run_has_no_goal() {
    assert_eq!(open_goal_file(None), EMPTY_DOC);
    assert!(get_goal(None).unwrap().is_none());
    let shown = show_current_goal(&get_goal(None).unwrap());
    assert_eq!(shown, "There is no current goal");
}

#[test]
fn existing_file_is_kept() {
    let doc = set_goal("keep", None);
    assert_eq!(open_goal_file(Some(doc.clone())), doc);
    let g = get_goal(Some(doc)).unwrap().unwrap();
    assert_eq!(g.text, "keep");
}

#[test]
fn show_goal_and_deadline() {
    let g = Some(Goal::new("run".to_string(), Some("monday".to_string())));
    assert_eq!(show_current_goal(&g), "Current goal: run\nDeadline: monday");
    let g = Some(Goal::new("run".to_string(), None));
    assert_eq!(show_current_goal(&g), "Current goal: run\nDeadline: None");
}

#[test]
fn corrupt_documents_are_rejected() {
    let bad = [
        "not toml at all [",
        "[other]\ntext = \"a\"\ndeadline = \"\"\n",
        "goal = 3\n",
        "[goal]\ntext = 3\ndeadline = \"\"\n",
        "[goal]\ntext = \"a\"\n",
        "[goal]\ndeadline = \"a\"\n",
        "[goal]\ntext = \"a\"\ndeadline = true\n",
    ];
    for doc in bad {
        assert_eq!(parse_goal(doc).err(), Some(GoalError::CorruptData), "{}", doc);
        assert_eq!(get_goal(Some(doc.to_string())).err(), Some(GoalError::CorruptData));
    }
}

#[test]
fn hand_written_document_is_read() {
    let doc = "# my goal\n[goal]\ntext = 'plain'\ndeadline = \"soon\"\nextra = 1\n";
    assert_eq!(read_back(doc), Some(("plain".to_string(), Some("soon".to_string()))));
}

#[test]
fn section_fields_decide_goal() {
    let t: toml::Table = "text = \"a\"\ndeadline = \"d\"".parse().unwrap();
    let g = goal_from_section(&t).unwrap().unwrap();
    assert_eq!((g.text, g.deadline), ("a".to_string(), Some("d".to_string())));
    let t: toml::Table = "text = \"\"\ndeadline = \"d\"".parse().unwrap();
    assert!(goal_from_section(&t).unwrap().is_none());
    let t: toml::Table = "text = \"a\"".parse().unwrap();
    assert_eq!(goal_from_section(&t).err(), Some(GoalError::CorruptData));
}

#[test]
fn fields_normalize() {
    assert!(goal_from_fields(String::new(), "x".to_string()).is_none());
    let g = goal_from_fields("t".to_string(), String::new()).unwrap();
    assert_eq!((g.text, g.deadline), ("t".to_string(), None));
}
