//! Moderations: given an input text, the model reports whether it
//! violates the content policy. The boolean category flags are plain
//! data; the per-category scores are floating-point and live with the
//! application code around this library.

use vstd::prelude::*;

use crate::Credentials;

verus! {

/// Which policy categories an input was flagged for.
#[derive(Debug, Clone, Copy, PartialEq, Eq)]
pub struct Categories {
    pub hate: bool,
    pub hate_threatening: bool,
    pub self_harm: bool,
    pub sexual: bool,
    pub sexual_minors: bool,
    pub violence: bool,
    pub violence_graphic: bool,
}

/// A moderation request.
#[derive(Debug, Clone, PartialEq, Default)]
pub struct ModerationRequest {
    /// The input text to classify.
    pub input: String,
    /// ID of the model to use.
    pub model: Option<String>,
    /// The credentials to use for this request.
    pub credentials: Option<Credentials>,
}

/// Builds a [`ModerationRequest`] setter by setter.
#[derive(Debug, Clone, PartialEq, Default)]
pub struct ModerationBuilder {
    pub request: ModerationRequest,
}

/// Starts building a moderation request for the given input.
pub fn moderation_builder(input: &str) -> (r: ModerationBuilder)
    ensures
        r.request.input@ == input@,
        r.request.model is None,
        r.request.credentials is None,
{
    ModerationBuilder {
        request: ModerationRequest { input: input.to_owned(), model: None, credentials: None },
    }
}

impl ModerationBuilder {
    /// The request as built so far.
    pub fn build(self) -> (r: ModerationRequest)
        ensures
            r == self.request,
    {
        self.request
    }

    pub fn model(self, model: &str) -> (r: Self)
        ensures
            r.request.model matches Some(m) && m@ == model@,
            r.request == (ModerationRequest { model: r.request.model, ..self.request }),
    {
        ModerationBuilder {
            request: ModerationRequest { model: Some(model.to_owned()), ..self.request },
        }
    }

    pub fn credentials(self, credentials: Credentials) -> (r: Self)
        ensures
            r.request == (ModerationRequest { credentials: Some(credentials), ..self.request }),
    {
        ModerationBuilder {
            request: ModerationRequest { credentials: Some(credentials), ..self.request },
        }
    }
}

} // verus!
