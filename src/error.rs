use vstd::prelude::*;

verus! {

/// The failures that the goal logic itself can report.
#[derive(Clone, Copy, Debug, PartialEq, Eq, Structural)]
pub enum GoalError {
    /// The stored document does not parse, or lacks the `goal` section or
    /// one of its string fields.
    CorruptData,
    /// No editor was given and none is configured.
    NoEditor,
    /// The editor exited with a failure status.
    EditorFailed,
}

} // verus!
