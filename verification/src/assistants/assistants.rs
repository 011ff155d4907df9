//! Plain data describing an assistant's tools and resources.

use std::collections::HashMap;

use vstd::prelude::*;

verus! {

/// The parameters of a function tool, as a flat schema.
#[derive(Debug, Clone, PartialEq, Eq)]
pub struct FunctionParameters {
    pub title: String,
    pub description: String,
    pub kind: String,
    pub required: Vec<String>,
    pub properties: HashMap<String, FunctionProperty>,
}

/// One property of a function tool's parameters.
#[derive(Debug, Clone, PartialEq, Eq)]
pub struct FunctionProperty {
    pub description: String,
    pub kind: String,
}

/// How many results the file-search tool may return.
#[derive(Debug, Clone, PartialEq, Eq)]
pub struct FileSearch {
    pub max_num_results: usize,
}

/// The resources an assistant's tools use.
#[derive(Debug, Clone, PartialEq, Eq)]
pub struct ToolResources {
    pub code_interpreter: Option<CodeInterpreterResources>,
    pub file_search: Option<FileSearchResources>,
}

/// The files available to the code-interpreter tool.
#[derive(Debug, Clone, PartialEq, Eq)]
pub struct CodeInterpreterResources {
    pub file_ids: Vec<String>,
}

/// The vector stores attached to the file-search tool.
#[derive(Debug, Clone, PartialEq, Eq)]
pub struct FileSearchResources {
    pub vector_store_ids: Vec<String>,
}

/// The response format an assistant defaults to.
#[derive(Debug, Clone, Copy, PartialEq, Eq)]
pub enum ResponseFormat {
    Auto,
}

} // verus!
