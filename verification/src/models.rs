//! The models available in the API: plain descriptions of a model and
//! its permissions. Fetching one is an HTTP call and lives outside this
//! library.

use vstd::prelude::*;

verus! {

/// Basic information about a model.
#[derive(Debug, Clone, PartialEq, Eq)]
pub struct Model {
    pub id: String,
    pub object: String,
    pub created: u32,
    pub owned_by: String,
}

/// What a caller may do with a model.
#[derive(Debug, Clone, PartialEq, Eq)]
pub struct ModelPermission {
    pub id: String,
    pub created: u32,
    pub allow_create_engine: bool,
    pub allow_sampling: bool,
    pub allow_logprobs: bool,
    pub allow_search_indices: bool,
    pub allow_view: bool,
    pub allow_fine_tuning: bool,
    pub organization: String,
    pub group: Option<String>,
    pub is_blocking: bool,
}

} // verus!
