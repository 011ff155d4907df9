//! Messages in a thread: their content blocks and annotations.

use vstd::prelude::*;

verus! {

/// The lifecycle state of a message.
#[derive(Debug, Clone, Copy, PartialEq, Eq)]
pub enum Status {
    InProgress,
    Incomplete,
    Completed,
}

/// Why a message stayed incomplete.
#[derive(Debug, Clone, PartialEq, Eq)]
pub struct IncompleteDetails {
    pub reason: String,
}

/// Who produced a message.
#[derive(Debug, Clone, Copy, PartialEq, Eq)]
pub enum Role {
    User,
    Assistant,
}

/// One block of a message's content.
#[derive(Debug, Clone, PartialEq, Eq)]
pub enum Content {
    Text(Text),
    ImageFile(ImageFile),
    ImageUrl(ImageUrl),
    Refusal(Refusal),
}

/// A text block with its annotations.
#[derive(Debug, Clone, PartialEq, Eq)]
pub struct Text {
    pub value: String,
    pub annotations: Vec<Annotation>,
}

/// A span of a text block that cites a file.
#[derive(Debug, Clone, PartialEq, Eq)]
pub struct Annotation {
    pub kind: String,
    pub text: String,
    pub start_index: u32,
    pub end_index: u32,
    pub file_citation: FileCitation,
}

/// The file a span cites.
#[derive(Debug, Clone, PartialEq, Eq)]
pub struct FileCitation {
    pub file_id: String,
}

/// An image block referring to a stored file.
#[derive(Debug, Clone, PartialEq, Eq)]
pub struct ImageFile {
    pub file_id: String,
    pub detail: String,
}

/// An image block referring to a URL.
#[derive(Debug, Clone, PartialEq, Eq)]
pub struct ImageUrl {
    pub image_url: String,
}

/// A refusal block.
#[derive(Debug, Clone, PartialEq, Eq)]
pub struct Refusal {
    pub refusal: String,
}

} // verus!
