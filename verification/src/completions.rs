//! Text completions: given a prompt, the model returns one or more
//! predicted completions. Plain data and a request builder; the HTTP
//! call lives outside this library. Sampling parameters that are
//! floating-point on the wire are the transport layer's concern.

use vstd::prelude::*;

use crate::Usage;

verus! {

/// A buffered text completion.
#[derive(Debug, Clone, PartialEq, Eq)]
pub struct Completion {
    pub id: String,
    pub created: u32,
    pub model: String,
    pub choices: Vec<CompletionChoice>,
    pub usage: Usage,
}

/// One predicted completion.
#[derive(Debug, Clone, PartialEq, Eq)]
pub struct CompletionChoice {
    pub text: String,
    pub index: u16,
    pub logprobs: Option<u16>,
    pub finish_reason: String,
}

/// A text-completion request.
#[derive(Debug, Clone, PartialEq, Eq, Default)]
pub struct CompletionRequest {
    /// ID of the model to use.
    pub model: String,
    /// The prompt to generate completions for.
    pub prompt: Option<String>,
    /// The suffix that comes after a completion of inserted text.
    pub suffix: Option<String>,
    /// The maximum number of tokens to generate in the completion.
    pub max_tokens: Option<u16>,
    /// How many completions to generate for each prompt.
    pub n: Option<u16>,
    /// How many of the most likely tokens to report probabilities for.
    pub logprobs: Option<u8>,
    /// Echo back the prompt in addition to the completion.
    pub echo: Option<bool>,
    /// Up to 4 sequences where the API will stop generating further tokens.
    pub stop: Vec<String>,
    /// How many completions to generate server-side before picking the best.
    pub best_of: Option<u16>,
    /// A unique identifier representing the end-user.
    pub user: Option<String>,
}

/// Builds a [`CompletionRequest`] setter by setter.
#[derive(Debug, Clone, PartialEq, Eq, Default)]
pub struct CompletionBuilder {
    pub request: CompletionRequest,
}

impl Completion {
    /// Starts building a completion request for the given model.
    pub fn builder(model: &str) -> (r: CompletionBuilder)
        ensures
            r.request.model@ == model@,
            r.request.prompt is None,
            r.request.suffix is None,
            r.request.max_tokens is None,
            r.request.n is None,
            r.request.logprobs is None,
            r.request.echo is None,
            r.request.stop@.len() == 0,
            r.request.best_of is None,
            r.request.user is None,
    {
        CompletionBuilder {
            request: CompletionRequest {
                model: model.to_owned(),
                prompt: None,
                suffix: None,
                max_tokens: None,
                n: None,
                logprobs: None,
                echo: None,
                stop: Vec::new(),
                best_of: None,
                user: None,
            },
        }
    }
}

impl CompletionBuilder {
    /// The request as built so far.
    pub fn build(self) -> (r: CompletionRequest)
        ensures
            r == self.request,
    {
        self.request
    }

    pub fn prompt(self, prompt: &str) -> (r: Self)
        ensures
            r.request.prompt matches Some(p) && p@ == prompt@,
            r.request == (CompletionRequest { prompt: r.request.prompt, ..self.request }),
    {
        CompletionBuilder {
            request: CompletionRequest { prompt: Some(prompt.to_owned()), ..self.request },
        }
    }

    pub fn suffix(self, suffix: &str) -> (r: Self)
        ensures
            r.request.suffix matches Some(s) && s@ == suffix@,
            r.request == (CompletionRequest { suffix: r.request.suffix, ..self.request }),
    {
        CompletionBuilder {
            request: CompletionRequest { suffix: Some(suffix.to_owned()), ..self.request },
        }
    }

    pub fn max_tokens(self, max_tokens: u16) -> (r: Self)
        ensures
            r.request == (CompletionRequest { max_tokens: Some(max_tokens), ..self.request }),
    {
        CompletionBuilder {
            request: CompletionRequest { max_tokens: Some(max_tokens), ..self.request },
        }
    }

    pub fn n(self, n: u16) -> (r: Self)
        ensures
            r.request == (CompletionRequest { n: Some(n), ..self.request }),
    {
        CompletionBuilder { request: CompletionRequest { n: Some(n), ..self.request } }
    }

    pub fn logprobs(self, logprobs: u8) -> (r: Self)
        ensures
            r.request == (CompletionRequest { logprobs: Some(logprobs), ..self.request }),
    {
        CompletionBuilder {
            request: CompletionRequest { logprobs: Some(logprobs), ..self.request },
        }
    }

    pub fn echo(self, echo: bool) -> (r: Self)
        ensures
            r.request == (CompletionRequest { echo: Some(echo), ..self.request }),
    {
        CompletionBuilder { request: CompletionRequest { echo: Some(echo), ..self.request } }
    }

    pub fn stop(self, stop: Vec<String>) -> (r: Self)
        ensures
            r.request == (CompletionRequest { stop, ..self.request }),
    {
        CompletionBuilder { request: CompletionRequest { stop, ..self.request } }
    }

    pub fn best_of(self, best_of: u16) -> (r: Self)
        ensures
            r.request == (CompletionRequest { best_of: Some(best_of), ..self.request }),
    {
        CompletionBuilder {
            request: CompletionRequest { best_of: Some(best_of), ..self.request },
        }
    }

    pub fn user(self, user: &str) -> (r: Self)
        ensures
            r.request.user matches Some(u) && u@ == user@,
            r.request == (CompletionRequest { user: r.request.user, ..self.request }),
    {
        CompletionBuilder {
            request: CompletionRequest { user: Some(user.to_owned()), ..self.request },
        }
    }
}

} // verus!
