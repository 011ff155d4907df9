//! Vector stores: the retrieval indexes files are attached to.

use std::collections::HashMap;

use vstd::prelude::*;

verus! {

/// One vector store.
#[derive(Debug, Clone, PartialEq, Eq)]
pub struct VectorStore {
    pub id: String,
    pub object: String,
    pub created_at: u32,
    pub name: String,
    pub usage_bytes: u32,
    pub file_counts: FileCounts,
    pub status: VectorStoreStatus,
    pub expires_after: Option<ExpiresAfter>,
    pub expires_at: Option<u32>,
    pub last_active_at: Option<u32>,
    pub metadata: Option<HashMap<String, String>>,
}

/// How many files are in each processing state.
#[derive(Debug, Clone, Copy, PartialEq, Eq)]
pub struct FileCounts {
    pub in_progress: u32,
    pub completed: u32,
    pub failed: u32,
    pub cancelled: u32,
    pub total: u32,
}

/// The lifecycle state of a vector store.
#[derive(Debug, Clone, Copy, PartialEq, Eq)]
pub enum VectorStoreStatus {
    Expired,
    InProgress,
    Completed,
}

/// When a vector store expires.
#[derive(Debug, Clone, PartialEq, Eq)]
pub struct ExpiresAfter {
    pub anchor: String,
    pub days: u32,
}

/// A request to create a vector store.
#[derive(Debug, Clone, PartialEq, Eq, Default)]
pub struct CreateVectorStoreRequest {
    pub name: String,
    pub file_ids: Option<Vec<String>>,
    pub metadata: Option<HashMap<String, String>>,
    pub expires_after: Option<ExpiresAfter>,
}

/// The lifecycle state of a file attached to a vector store.
#[derive(Debug, Clone, Copy, PartialEq, Eq)]
pub enum VectorStoreFileStatus {
    InProgress,
    Completed,
    Cancelled,
    Failed,
}

} // verus!
