//! The data model for structured outputs: response-format schemas and
//! tool-call function definitions. Generating a JSON schema from a Rust
//! type is the job of an outside schema generator and lives with the
//! surrounding application code; here stand the plain shapes a request
//! carries.

use vstd::prelude::*;

verus! {

/// Which dialect of JSON schema the consumer of a request expects.
#[derive(Debug, Clone, Copy, PartialEq, Eq)]
pub enum JsonSchemaStyle {
    OpenAI,
    Grok,
}

/// A response format asking for strict JSON of a named schema.
#[derive(Debug, Clone, PartialEq)]
pub struct ChatCompletionResponseFormatJsonSchema {
    /// The name of the response format.
    pub name: String,
    /// What the response format is for.
    pub description: Option<String>,
    /// The schema itself, as a JSON value.
    pub schema: Option<serde_json::Value>,
    /// Whether the model must follow the schema exactly.
    pub strict: Option<bool>,
}

/// The parameters of a function the model may call.
#[derive(Debug, Clone, PartialEq)]
pub struct ToolCallFunctionDefinition {
    /// The name of the function to be called.
    pub name: String,
    /// What the function does, used by the model to choose when to call it.
    pub description: Option<String>,
    /// The parameters the function accepts, as a JSON schema value.
    pub parameters: Option<serde_json::Value>,
    /// Whether the model must follow the parameter schema exactly.
    pub strict: Option<bool>,
}

/// Rewrites a generated schema to the subset the consumers accept; the
/// traversal itself runs in the surrounding application code, which owns
/// the schema representation.
#[derive(Debug, Clone, Copy, PartialEq, Eq)]
pub struct SchemaPostProcessor {
    pub style: JsonSchemaStyle,
}

} // verus!
