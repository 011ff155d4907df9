//! Building a chat-completion request. The builder carries the request
//! value itself; every setter replaces one field and leaves the rest,
//! and its contract says so. Sampling parameters that are floating-point
//! on the wire (temperature, top_p, penalties) belong to the transport
//! layer around this library and are not modeled here.

use vstd::prelude::*;

use crate::Credentials;
use crate::chat::ToolChoiceMode;
use crate::chat::modules::ChatCompletionMessage;
use crate::chat::structured_output::ChatCompletionResponseFormatJsonSchema;

verus! {

/// A function the model may call, in the legacy single-function style.
#[derive(Debug, Clone, PartialEq)]
pub struct ChatCompletionFunctionDefinition {
    pub name: String,
    pub description: Option<String>,
    pub parameters: Option<serde_json::Value>,
}

/// The response format a request asks for.
#[derive(Debug, Clone, PartialEq)]
pub enum ChatCompletionResponseFormat {
    Text,
    JsonObject,
    JsonSchema(ChatCompletionResponseFormatJsonSchema),
}

impl ChatCompletionResponseFormat {
    /// Plain text output.
    pub fn text() -> (r: Self)
        ensures
            r == ChatCompletionResponseFormat::Text,
    {
        ChatCompletionResponseFormat::Text
    }

    /// Any well-formed JSON object.
    pub fn json_object() -> (r: Self)
        ensures
            r == ChatCompletionResponseFormat::JsonObject,
    {
        ChatCompletionResponseFormat::JsonObject
    }

    /// JSON following the given schema.
    pub fn json_schema(schema: ChatCompletionResponseFormatJsonSchema) -> (r: Self)
        ensures
            r == ChatCompletionResponseFormat::JsonSchema(schema),
    {
        ChatCompletionResponseFormat::JsonSchema(schema)
    }
}

/// A chat-completion request: the conversation so far and the options
/// that shape the reply.
#[derive(Debug, Clone, PartialEq, Default)]
pub struct ChatCompletionRequest {
    pub model: String,
    pub messages: Vec<ChatCompletionMessage>,
    pub max_completion_tokens: Option<u64>,
    pub n: Option<u16>,
    pub stop: Vec<String>,
    pub user: Option<String>,
    pub seed: Option<u64>,
    pub store: Option<bool>,
    pub response_format: Option<ChatCompletionResponseFormat>,
    pub functions: Vec<ChatCompletionFunctionDefinition>,
    pub tool_choice: Option<ToolChoiceMode>,
    pub credentials: Option<Credentials>,
}

/// Builds a [`ChatCompletionRequest`] setter by setter.
#[derive(Debug, Clone, PartialEq, Default)]
pub struct ChatCompletionBuilder {
    pub request: ChatCompletionRequest,
}

impl ChatCompletionBuilder {
    /// The request as built so far.
    pub fn build(self) -> (r: ChatCompletionRequest)
        ensures
            r == self.request,
    {
        self.request
    }

    pub fn max_completion_tokens(self, max_completion_tokens: u64) -> (r: Self)
        ensures
            r.request == (ChatCompletionRequest {
                max_completion_tokens: Some(max_completion_tokens),
                ..self.request
            }),
    {
        ChatCompletionBuilder {
            request: ChatCompletionRequest {
                max_completion_tokens: Some(max_completion_tokens),
                ..self.request
            },
        }
    }

    pub fn n(self, n: u16) -> (r: Self)
        ensures
            r.request == (ChatCompletionRequest { n: Some(n), ..self.request }),
    {
        ChatCompletionBuilder { request: ChatCompletionRequest { n: Some(n), ..self.request } }
    }

    pub fn stop(self, stop: Vec<String>) -> (r: Self)
        ensures
            r.request == (ChatCompletionRequest { stop, ..self.request }),
    {
        ChatCompletionBuilder { request: ChatCompletionRequest { stop, ..self.request } }
    }

    pub fn user(self, user: &str) -> (r: Self)
        ensures
            r.request.user matches Some(u) && u@ == user@,
            r.request == (ChatCompletionRequest { user: r.request.user, ..self.request }),
    {
        ChatCompletionBuilder {
            request: ChatCompletionRequest { user: Some(user.to_owned()), ..self.request },
        }
    }

    pub fn seed(self, seed: u64) -> (r: Self)
        ensures
            r.request == (ChatCompletionRequest { seed: Some(seed), ..self.request }),
    {
        ChatCompletionBuilder {
            request: ChatCompletionRequest { seed: Some(seed), ..self.request },
        }
    }

    pub fn store(self, store: bool) -> (r: Self)
        ensures
            r.request == (ChatCompletionRequest { store: Some(store), ..self.request }),
    {
        ChatCompletionBuilder {
            request: ChatCompletionRequest { store: Some(store), ..self.request },
        }
    }

    pub fn response_format(self, response_format: ChatCompletionResponseFormat) -> (r: Self)
        ensures
            r.request == (ChatCompletionRequest {
                response_format: Some(response_format),
                ..self.request
            }),
    {
        ChatCompletionBuilder {
            request: ChatCompletionRequest {
                response_format: Some(response_format),
                ..self.request
            },
        }
    }

    pub fn functions(self, functions: Vec<ChatCompletionFunctionDefinition>) -> (r: Self)
        ensures
            r.request == (ChatCompletionRequest { functions, ..self.request }),
    {
        ChatCompletionBuilder { request: ChatCompletionRequest { functions, ..self.request } }
    }

    pub fn tool_choice(self, tool_choice: ToolChoiceMode) -> (r: Self)
        ensures
            r.request == (ChatCompletionRequest {
                tool_choice: Some(tool_choice),
                ..self.request
            }),
    {
        ChatCompletionBuilder {
            request: ChatCompletionRequest { tool_choice: Some(tool_choice), ..self.request },
        }
    }

    pub fn credentials(self, credentials: Credentials) -> (r: Self)
        ensures
            r.request == (ChatCompletionRequest {
                credentials: Some(credentials),
                ..self.request
            }),
    {
        ChatCompletionBuilder {
            request: ChatCompletionRequest { credentials: Some(credentials), ..self.request },
        }
    }
}

} // verus!
