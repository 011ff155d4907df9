//! The shapes shared by every API operation: an empty reply and a
//! paginated list. The HTTP client that produces them lives outside
//! this library.

use vstd::prelude::*;

verus! {

/// A reply that carries nothing.
#[derive(Debug, Clone, PartialEq, Eq)]
pub struct Empty {}

/// One page of a paginated listing.
#[derive(Debug, Clone, PartialEq, Eq)]
pub struct List<T> {
    pub first_id: Option<String>,
    pub last_id: Option<String>,
    pub data: Vec<T>,
    pub has_more: bool,
}

} // verus!
