//! Files attached to the assistants API, and what they are for.

use vstd::prelude::*;

verus! {

/// A file stored for the assistants API.
#[derive(Debug, Clone, PartialEq, Eq)]
pub struct File {
    pub id: String,
    pub object: String,
    pub created_at: u32,
    pub bytes: u32,
    pub filename: String,
    pub purpose: FilePurpose,
}

/// What a stored file is for.
#[derive(Debug, Clone, Copy, PartialEq, Eq)]
pub enum FilePurpose {
    Assistants,
    AssistantsOutput,
    Batch,
    BatchOutput,
    FineTune,
    FineTuneResults,
    Vision,
}

impl FilePurpose {
    /// The purpose's name on the wire.
    pub fn api_name(&self) -> (r: &'static str)
        ensures
            *self == FilePurpose::Assistants ==> r@ == "assistants"@,
            *self == FilePurpose::AssistantsOutput ==> r@ == "assistants_output"@,
            *self == FilePurpose::Batch ==> r@ == "batch"@,
            *self == FilePurpose::BatchOutput ==> r@ == "batch_output"@,
            *self == FilePurpose::FineTune ==> r@ == "fine_tune"@,
            *self == FilePurpose::FineTuneResults ==> r@ == "fine_tune_results"@,
            *self == FilePurpose::Vision ==> r@ == "vision"@,
    {
        match self {
            FilePurpose::Assistants => "assistants",
            FilePurpose::AssistantsOutput => "assistants_output",
            FilePurpose::Batch => "batch",
            FilePurpose::BatchOutput => "batch_output",
            FilePurpose::FineTune => "fine_tune",
            FilePurpose::FineTuneResults => "fine_tune_results",
            FilePurpose::Vision => "vision",
        }
    }
}

} // verus!
