//! Runs: the lifecycle of one assistant execution, the actions it may
//! require, and the requests that steer it.

use vstd::prelude::*;

use crate::chat::types::ToolCall;
use crate::str_eq;

verus! {

/// The run state a wire name stands for; an unknown name is no state.
pub open spec fn spec_status_of(s: Seq<char>) -> Option<Status> {
    if s == "queued"@ {
        Some(Status::Queued)
    } else if s == "in_progress"@ {
        Some(Status::InProgress)
    } else if s == "requires_action"@ {
        Some(Status::RequiresAction)
    } else if s == "cancelling"@ {
        Some(Status::Cancelling)
    } else if s == "cancelled"@ {
        Some(Status::Cancelled)
    } else if s == "failed"@ {
        Some(Status::Failed)
    } else if s == "completed"@ {
        Some(Status::Completed)
    } else if s == "incomplete"@ {
        Some(Status::Incomplete)
    } else if s == "expired"@ {
        Some(Status::Expired)
    } else {
        None
    }
}

/// The lifecycle state of a run.
#[derive(Debug, Clone, Copy, PartialEq, Eq)]
pub enum Status {
    Queued,
    InProgress,
    RequiresAction,
    Cancelling,
    Cancelled,
    Failed,
    Completed,
    Incomplete,
    Expired,
}

impl Status {
    /// Whether the run has left the queue and stopped making progress:
    /// every state but queued and in-progress is terminal.
    pub fn is_terminal(&self) -> (r: bool)
        ensures
            r == !(*self == Status::InProgress || *self == Status::Queued),
    {
        !matches!(self, Status::InProgress | Status::Queued)
    }

    /// Decodes a run state from its wire name.
    pub fn from_api_name(s: &str) -> (r: Option<Status>)
        ensures
            r == spec_status_of(s@),
    {
        if str_eq(s, "queued") {
            Some(Status::Queued)
        } else if str_eq(s, "in_progress") {
            Some(Status::InProgress)
        } else if str_eq(s, "requires_action") {
            Some(Status::RequiresAction)
        } else if str_eq(s, "cancelling") {
            Some(Status::Cancelling)
        } else if str_eq(s, "cancelled") {
            Some(Status::Cancelled)
        } else if str_eq(s, "failed") {
            Some(Status::Failed)
        } else if str_eq(s, "completed") {
            Some(Status::Completed)
        } else if str_eq(s, "incomplete") {
            Some(Status::Incomplete)
        } else if str_eq(s, "expired") {
            Some(Status::Expired)
        } else {
            None
        }
    }
}

/// What a run needs from the caller before it can continue.
#[derive(Debug, Clone, PartialEq, Eq)]
pub enum RequiredAction {
    SubmitToolOutputs { tool_calls: Vec<ToolCall> },
}

/// The last error a run hit.
#[derive(Debug, Clone, PartialEq, Eq)]
pub struct LastError {
    pub code: String,
    pub message: String,
}

/// Token accounting for one run.
#[derive(Debug, Clone, Copy, PartialEq, Eq)]
pub struct Usage {
    pub prompt_tokens: u32,
    pub completion_tokens: u32,
    pub total_tokens: u32,
}

/// How the thread is truncated before a run.
#[derive(Debug, Clone, PartialEq, Eq)]
pub struct TruncationStrategy {
    pub kind: String,
    pub last_messages: Option<u32>,
}

/// How the model may pick tools during a run; `Disabled` is sent on the
/// wire as "none".
#[derive(Debug, Clone, Copy, PartialEq, Eq)]
pub enum ToolChoiceStrategy {
    Disabled,
    Auto,
    Required,
}

/// A specific tool the model is told to use.
#[derive(Debug, Clone, PartialEq, Eq)]
pub enum ToolChoiceFunction {
    FileSearch,
    Function { name: String },
}

/// The outputs of the tool calls a run asked for.
#[derive(Debug, Clone, PartialEq, Eq)]
pub struct SubmitToolOutputsRequest {
    pub tool_outputs: Vec<ToolOutput>,
}

/// One tool call's output.
#[derive(Debug, Clone, PartialEq, Eq)]
pub struct ToolOutput {
    pub tool_call_id: String,
    pub output: String,
}

} // verus!
