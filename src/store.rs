use vstd::prelude::*;
use vstd::string::StringExecFns;
use crate::document::{deadline_field, document, empty_document, render_document};
use crate::error::GoalError;
use crate::record::{goal_from_fields, goal_of_fields, opt_goal_view, opt_view, Goal, GoalModel};
use crate::toml_items::{parse_table, table_get, table_strings, toml_sections_of, TomlEntry};

verus! {

/// The string stored under `key`, if the key is there and holds a string.
pub open spec fn string_field(m: Map<Seq<char>, Option<Seq<char>>>, key: Seq<char>) -> Option<
    Seq<char>,
> {
    if m.contains_key(key) {
        m[key]
    } else {
        None
    }
}

/// The goal that a `goal` section stands for, given what the section holds:
/// both fields must be present as strings.
pub open spec fn goal_of_section(m: Map<Seq<char>, Option<Seq<char>>>) -> Result<
    Option<GoalModel>,
    GoalError,
> {
    match (string_field(m, "text"@), string_field(m, "deadline"@)) {
        (Some(t), Some(d)) => Ok(goal_of_fields(t, d)),
        _ => Err(GoalError::CorruptData),
    }
}

/// The goal that a goal file's text stands for: it must be TOML with a
/// `goal` table, which `goal_of_section` reads.
pub open spec fn goal_of_text(s: Seq<char>) -> Result<Option<GoalModel>, GoalError> {
    match toml_sections_of(s) {
        Some(sections) => if sections.contains_key("goal"@) {
            goal_of_section(sections["goal"@])
        } else {
            Err(GoalError::CorruptData)
        },
        None => Err(GoalError::CorruptData),
    }
}

pub open spec fn read_view(r: Result<Option<Goal>, GoalError>) -> Result<
    Option<GoalModel>,
    GoalError,
> {
    match r {
        Ok(o) => Ok(opt_goal_view(o)),
        Err(e) => Err(e),
    }
}

/// A goal that was read back: when present, its text is not empty.
pub open spec fn read_is_normal(r: Result<Option<Goal>, GoalError>) -> bool {
    r matches Ok(Some(g)) ==> g.text@.len() > 0 && (g.deadline matches Some(d) ==> d@.len() > 0)
}

/// Reads the goal out of the `goal` section of the goal file.
pub fn goal_from_section(section: &toml::Table) -> (r: Result<Option<Goal>, GoalError>)
    ensures
        read_view(r) == goal_of_section(table_strings(*section)),
{
    let text = match table_get(section, "text") {
        Some(TomlEntry::Text(s)) => s,
        _ => return Err(GoalError::CorruptData),
    };
    let deadline = match table_get(section, "deadline") {
        Some(TomlEntry::Text(s)) => s,
        _ => return Err(GoalError::CorruptData),
    };
    Ok(goal_from_fields(text, deadline))
}

/// Parses the goal file. A text that is not TOML, or that lacks the `goal`
/// section or its string fields `text` and `deadline`, is corrupt.
pub fn parse_goal(text: &str) -> (r: Result<Option<Goal>, GoalError>)
    ensures
        read_view(r) == goal_of_text(text@),
        read_is_normal(r),
{
    let parsed = match parse_table(text) {
        Ok(t) => t,
        Err(_) => return Err(GoalError::CorruptData),
    };
    match table_get(&parsed, "goal") {
        Some(TomlEntry::Section(section)) => goal_from_section(&section),
        _ => Err(GoalError::CorruptData),
    }
}

/// The contents of the goal file once it is opened: what it held, or, where
/// it did not exist yet, the canonical empty document that the caller
/// creates it with.
pub fn open_goal_file(existing: Option<String>) -> (r: String)
    ensures
        r@ == match existing {
            Some(s) => s@,
            None => empty_document(),
        },
{
    match existing {
        Some(s) => s,
        None => {
            let r = render_document("", &None);
            proof {
                reveal_strlit("");
                assert(""@ =~= Seq::<char>::empty());
            }
            r
        },
    }
}

/// Reads the current goal from the goal file's contents, given as `None`
/// where the file does not exist yet: a new file holds no goal.
pub fn get_goal(existing: Option<String>) -> (r: Result<Option<Goal>, GoalError>)
    ensures
        existing matches Some(s) ==> read_view(r) == goal_of_text(s@),
        existing is None ==> r matches Ok(None),
        read_is_normal(r),
{
    match existing {
        Some(contents) => parse_goal(contents.as_str()),
        None => Ok(None),
    }
}

/// The goal file after setting a goal: the text and deadline replace
/// whatever was stored, and an absent deadline clears the stored one.
pub fn set_goal(new_goal: &str, deadline: Option<String>) -> (r: String)
    ensures
        r@ == document(new_goal@, deadline_field(opt_view(deadline))),
{
    render_document(new_goal, &deadline)
}

/// The goal file after removing the goal: the canonical empty document.
pub fn remove_goal() -> (r: String)
    ensures
        r@ == empty_document(),
{
    let r = render_document("", &None);
    proof {
        reveal_strlit("");
        assert(""@ =~= Seq::<char>::empty());
    }
    r
}

/// What is shown when there is no current goal.
pub open spec fn no_goal_message() -> Seq<char> {
    "There is no current goal"@
}

/// What is shown for the current goal.
pub open spec fn goal_message(goal: Option<GoalModel>) -> Seq<char> {
    match goal {
        Some(g) => "Current goal: "@ + g.text + "\nDeadline: "@ + match g.deadline {
            Some(d) => d,
            None => "None"@,
        },
        None => no_goal_message(),
    }
}

/// The message that shows the current goal and its deadline.
pub fn show_current_goal(goal: &Option<Goal>) -> (r: String)
    ensures
        r@ == goal_message(opt_goal_view(*goal)),
{
    let mut out = String::new();
    match goal {
        Some(g) => {
            out.append("Current goal: ");
            out.append(g.text.as_str());
            out.append("\nDeadline: ");
            match &g.deadline {
                Some(d) => out.append(d.as_str()),
                None => out.append("None"),
            }
        },
        None => out.append("There is no current goal"),
    }
    out
}

/// A goal written as a text and an optional deadline reads back as that goal
/// where the text is not empty, and as no goal where it is. An empty deadline
/// is stored as no deadline, so a given deadline must not be empty.
pub proof fn lemma_fields_round_trip(text: Seq<char>, deadline: Option<Seq<char>>)
    requires
        deadline matches Some(d) ==> d.len() > 0,
    ensures
        goal_of_section(
            map![
                "text"@ => Some(text),
                "deadline"@ => Some(deadline_field(deadline)),
            ],
        ) == Ok::<Option<GoalModel>, GoalError>(
            if text.len() > 0 {
                Some(GoalModel { text, deadline })
            } else {
                None
            },
        ),
{
    reveal_strlit("text");
    reveal_strlit("deadline");
    assert("text"@.len() != "deadline"@.len());
    let m = map!["text"@ => Some(text), "deadline"@ => Some(deadline_field(deadline))];
    assert(m["text"@] == Some(text));
    assert(m["deadline"@] == Some(deadline_field(deadline)));
}

/// Removing the goal twice leaves the same file as removing it once, and
/// that file holds no goal.
pub proof fn lemma_remove_twice(first: Seq<char>, second: Seq<char>)
    requires
        first == empty_document(),
        second == empty_document(),
    ensures
        first == second,
        goal_of_fields(Seq::empty(), Seq::empty()) is None,
{
}

/// Setting a goal without a deadline stores an empty deadline field, and
/// that field reads back as no deadline.
pub proof fn lemma_set_replaces_deadline(text: Seq<char>)
    requires
        text.len() > 0,
    ensures
        document(text, deadline_field(None)) == document(text, Seq::empty()),
        goal_of_fields(text, deadline_field(None)) == Some(GoalModel { text, deadline: None }),
{
}

} // verus!
