//! Audio transcription: the request builder and the reply. Opening the
//! audio file and sending it is I/O and lives outside this library.

use vstd::prelude::*;

verus! {

/// The transcribed text of an audio file.
#[derive(Debug, Clone, PartialEq, Eq)]
pub struct Transcription {
    pub text: String,
}

/// A transcription request: which model to use and which file to send.
#[derive(Debug, Clone, PartialEq, Eq)]
pub struct TranscriptionRequest {
    /// ID of the model to use.
    pub model: String,
    pub file_name: String,
}

/// Builds a [`TranscriptionRequest`]; the file name must be set before
/// it can be built.
#[derive(Debug, Clone, PartialEq, Eq, Default)]
pub struct TranscriptionBuilder {
    pub model: Option<String>,
    pub file_name: Option<String>,
}

impl Transcription {
    /// Starts building a transcription request for the given model.
    pub fn builder(model: &str) -> (r: TranscriptionBuilder)
        ensures
            r.model matches Some(m) && m@ == model@,
            r.file_name is None,
    {
        TranscriptionBuilder { model: Some(model.to_owned()), file_name: None }
    }
}

impl TranscriptionBuilder {
    pub fn file_name(self, file_name: &str) -> (r: Self)
        ensures
            r.file_name matches Some(f) && f@ == file_name@,
            r.model == self.model,
    {
        TranscriptionBuilder { model: self.model, file_name: Some(file_name.to_owned()) }
    }

    /// The request, once both fields are set; nothing otherwise.
    pub fn build(self) -> (r: Option<TranscriptionRequest>)
        ensures
            (self.model is Some && self.file_name is Some) <==> r is Some,
            r matches Some(req) ==> req.model == self.model.unwrap() && req.file_name
                == self.file_name.unwrap(),
    {
        match (self.model, self.file_name) {
            (Some(model), Some(file_name)) => Some(TranscriptionRequest { model, file_name }),
            _ => None,
        }
    }
}

} // verus!
