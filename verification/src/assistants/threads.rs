//! Threads: the conversation container a run works on.

use std::collections::HashMap;

use vstd::prelude::*;

use crate::assistants::assistants::ToolResources;

verus! {

/// One conversation thread.
#[derive(Debug, Clone, PartialEq, Eq)]
pub struct Thread {
    pub id: String,
    pub object: String,
    pub created_at: u32,
    /// The resources available to the assistant's tools on this thread.
    pub tool_resources: Option<ToolResources>,
    /// Caller-attached key-value pairs.
    pub metadata: Option<HashMap<String, String>>,
}

} // verus!
