use vstd::prelude::*;
use vstd::string::StringExecFns;
use crate::document::{deadline_field, document, render_document};
use crate::error::GoalError;
use crate::record::{goal_of_fields, opt_goal_view, opt_view, Goal, GoalModel};
use crate::text::{trim, trimmed};

verus! {

/// The deadline that an edit stores: the one given with the edit, else the
/// one the current goal had.
pub open spec fn chosen_deadline(given: Option<Seq<char>>, current: Option<GoalModel>) -> Option<
    Seq<char>,
> {
    match given {
        Some(d) => Some(d),
        None => match current {
            Some(g) => g.deadline,
            None => None,
        },
    }
}

/// What the editor opens with: the current text, or nothing.
pub open spec fn seed_text(current: Option<GoalModel>) -> Seq<char> {
    match current {
        Some(g) => g.text,
        None => Seq::empty(),
    }
}

/// The editor to run: the one given, else the one the environment names.
pub fn choose_editor(given: Option<String>, from_env: Option<String>) -> (r: Result<
    String,
    GoalError,
>)
    ensures
        given matches Some(e) ==> (r matches Ok(x) && x@ == e@),
        (given is None && from_env is Some) ==> (r matches Ok(x) && x@ == from_env->0@),
        given is None && from_env is None ==> r == Err::<String, GoalError>(GoalError::NoEditor),
{
    match given {
        Some(e) => Ok(e),
        None => match from_env {
            Some(e) => Ok(e),
            None => Err(GoalError::NoEditor),
        },
    }
}

/// The text that the editor opens with.
pub fn edit_seed(current: &Option<Goal>) -> (r: String)
    ensures
        r@ == seed_text(opt_goal_view(*current)),
{
    let mut out = String::new();
    match current {
        Some(g) => out.append(g.text.as_str()),
        None => {},
    }
    out
}

/// Decides what an edit stores once the editor has exited. A failed editor
/// leaves the goal as it is; otherwise the edited text, trimmed, is stored
/// with the deadline given, or else the current one.
pub fn edit_goal(
    editor_succeeded: bool,
    edited: &str,
    new_deadline: Option<String>,
    current: Option<Goal>,
) -> (r: Result<String, GoalError>)
    ensures
        !editor_succeeded ==> r == Err::<String, GoalError>(GoalError::EditorFailed),
        editor_succeeded ==> (r matches Ok(doc) && doc@ == document(
            trimmed(edited@),
            deadline_field(chosen_deadline(opt_view(new_deadline), opt_goal_view(current))),
        )),
{
    if !editor_succeeded {
        return Err(GoalError::EditorFailed);
    }
    let text = trim(edited);
    let deadline = match new_deadline {
        Some(d) => Some(d),
        None => match current {
            Some(g) => g.deadline,
            None => None,
        },
    };
    Ok(render_document(text.as_str(), &deadline))
}

/// An edit without a deadline keeps the one that was stored with the goal.
pub proof fn lemma_edit_keeps_deadline(text: Seq<char>, deadline: Seq<char>, edited: Seq<char>)
    requires
        text.len() > 0,
        deadline.len() > 0,
        trimmed(edited).len() > 0,
    ensures
        goal_of_fields(
            trimmed(edited),
            deadline_field(chosen_deadline(None, goal_of_fields(text, deadline))),
        ) == Some(GoalModel { text: trimmed(edited), deadline: Some(deadline) }),
{
}

/// An edit with a deadline stores that deadline, whatever was stored before.
pub proof fn lemma_edit_overrides_deadline(
    current: Option<GoalModel>,
    given: Seq<char>,
    edited: Seq<char>,
)
    requires
        given.len() > 0,
        trimmed(edited).len() > 0,
    ensures
        goal_of_fields(trimmed(edited), deadline_field(chosen_deadline(Some(given), current)))
            == Some(GoalModel { text: trimmed(edited), deadline: Some(given) }),
{
}

} // verus!
