//! Chat completions: the typed request/response model and the streaming
//! delta protocol, whose merge engine folds a stream of partial deltas
//! into one completion.

use vstd::prelude::*;

pub mod laws;
pub mod modules;
pub mod requests;
pub mod structured_output;
pub mod types;
pub mod utils;

verus! {

/// The author of a chat message.
#[derive(Clone, Copy, Debug, PartialEq, Eq)]
pub enum ChatCompletionMessageRole {
    System,
    User,
    Assistant,
    Function,
    Tool,
    Developer,
}

impl Default for ChatCompletionMessageRole {
    fn default() -> (r: Self)
        ensures
            r == ChatCompletionMessageRole::User,
    {
        ChatCompletionMessageRole::User
    }
}

/// How the model may pick tools; `Disabled` is sent on the wire as "none".
#[derive(Clone, Copy, Debug, PartialEq, Eq)]
pub enum ToolChoiceMode {
    Disabled,
    Auto,
    Required,
}

/// A protocol violation found while merging one streamed delta into the
/// accumulated one.
#[derive(Clone, Copy, Debug, PartialEq, Eq)]
pub enum ChatCompletionDeltaMergeError {
    /// The incoming delta belongs to a different completion stream.
    DifferentCompletionIds,
    /// A delta choice was merged into a choice with another index.
    DifferentCompletionChoiceIndices,
    /// Reserved for future type-safety violations; no merge path returns it.
    FunctionCallArgumentTypeMismatch,
}

impl ChatCompletionDeltaMergeError {
    /// A human-readable description of the violation.
    pub fn message(&self) -> (r: &'static str)
        ensures
            *self == ChatCompletionDeltaMergeError::DifferentCompletionIds ==> r@
                == "Different completion IDs"@,
            *self == ChatCompletionDeltaMergeError::DifferentCompletionChoiceIndices ==> r@
                == "Different completion choice indices"@,
            *self == ChatCompletionDeltaMergeError::FunctionCallArgumentTypeMismatch ==> r@
                == "Function call argument type mismatch"@,
    {
        match self {
            ChatCompletionDeltaMergeError::DifferentCompletionIds => "Different completion IDs",
            ChatCompletionDeltaMergeError::DifferentCompletionChoiceIndices => {
                "Different completion choice indices"
            },
            ChatCompletionDeltaMergeError::FunctionCallArgumentTypeMismatch => {
                "Function call argument type mismatch"
            },
        }
    }
}

} // verus!
