use vstd::prelude::*;

verus! {

/// What a goal is, mathematically.
pub struct GoalModel {
    pub text: Seq<char>,
    pub deadline: Option<Seq<char>>,
}

/// The user's current goal: a text and an optional deadline.
#[derive(Debug)]
pub struct Goal {
    pub text: String,
    pub deadline: Option<String>,
}

pub open spec fn opt_view(o: Option<String>) -> Option<Seq<char>> {
    match o {
        Some(s) => Some(s@),
        None => None,
    }
}

impl View for Goal {
    type V = GoalModel;

    open spec fn view(&self) -> GoalModel {
        GoalModel { text: self.text@, deadline: opt_view(self.deadline) }
    }
}

pub open spec fn opt_goal_view(o: Option<Goal>) -> Option<GoalModel> {
    match o {
        Some(g) => Some(g@),
        None => None,
    }
}

/// The goal that a stored pair of fields stands for. An empty text means
/// that there is no goal, whatever the deadline; an empty deadline means
/// that there is none.
pub open spec fn goal_of_fields(text: Seq<char>, deadline: Seq<char>) -> Option<GoalModel> {
    if text.len() == 0 {
        None
    } else if deadline.len() == 0 {
        Some(GoalModel { text, deadline: None })
    } else {
        Some(GoalModel { text, deadline: Some(deadline) })
    }
}

impl Goal {
    pub fn new(text: String, deadline: Option<String>) -> (r: Goal)
        ensures
            r.text@ == text@,
            opt_view(r.deadline) == opt_view(deadline),
    {
        Goal { text, deadline }
    }
}

/// Builds the goal that a stored text and deadline stand for.
pub fn goal_from_fields(text: String, deadline: String) -> (r: Option<Goal>)
    ensures
        opt_goal_view(r) == goal_of_fields(text@, deadline@),
{
    if text.as_str().is_empty() {
        None
    } else if deadline.as_str().is_empty() {
        Some(Goal::new(text, None))
    } else {
        Some(Goal::new(text, Some(deadline)))
    }
}

} // verus!
