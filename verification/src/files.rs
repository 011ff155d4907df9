//! File storage: descriptions of uploaded files and the upload request
//! builder. Reading a file from disk and sending it is I/O and lives
//! outside this library; the builder hands back a plain request value.

use vstd::prelude::*;

use crate::OpenAiError;

verus! {

/// The error reported when the file to upload is not there.
pub fn file_not_found_error(file_path: &str) -> (r: OpenAiError)
    ensures
        r.message@ == "File "@ + file_path@ + " not found"@,
        r.error_type@ == "internal"@,
        r.param is None,
        r.code is None,
{
    let mut message = "File ".to_owned();
    message.append(file_path);
    message.append(" not found");
    OpenAiError { message, error_type: "internal".to_owned(), param: None, code: None }
}

/// The error reported when reading the file to upload fails; the caller
/// hands in the description of what went wrong.
pub fn io_error(description: &str) -> (r: OpenAiError)
    ensures
        r.message@ == "IO Error "@ + description@,
        r.error_type@ == "internal"@,
        r.param is None,
        r.code is None,
{
    let mut message = "IO Error ".to_owned();
    message.append(description);
    OpenAiError { message, error_type: "internal".to_owned(), param: None, code: None }
}

/// A stored file.
#[derive(Debug, Clone, PartialEq, Eq)]
pub struct File {
    pub id: String,
    pub object: String,
    pub bytes: usize,
    pub created_at: usize,
    pub filename: String,
    pub purpose: String,
}

/// The acknowledgement of a deletion.
#[derive(Debug, Clone, PartialEq, Eq)]
pub struct DeletedFile {
    pub id: String,
    pub object: String,
    pub deleted: bool,
}

/// A listing of stored files.
#[derive(Debug, Clone, PartialEq, Eq)]
pub struct Files {
    pub data: Vec<File>,
    pub object: String,
}

/// A file-upload request: which file to send, and for what purpose.
#[derive(Debug, Clone, PartialEq, Eq)]
pub struct FileUploadRequest {
    pub file_name: String,
    pub purpose: String,
}

/// Builds a [`FileUploadRequest`]; both fields must be set before it
/// can be built.
#[derive(Debug, Clone, PartialEq, Eq, Default)]
pub struct FileUploadBuilder {
    pub file_name: Option<String>,
    pub purpose: Option<String>,
}

impl File {
    /// Starts building a file-upload request with nothing set.
    pub fn builder() -> (r: FileUploadBuilder)
        ensures
            r.file_name is None,
            r.purpose is None,
    {
        FileUploadBuilder { file_name: None, purpose: None }
    }
}

impl FileUploadBuilder {
    pub fn file_name(self, file_name: &str) -> (r: Self)
        ensures
            r.file_name matches Some(f) && f@ == file_name@,
            r.purpose == self.purpose,
    {
        FileUploadBuilder { file_name: Some(file_name.to_owned()), purpose: self.purpose }
    }

    pub fn purpose(self, purpose: &str) -> (r: Self)
        ensures
            r.purpose matches Some(p) && p@ == purpose@,
            r.file_name == self.file_name,
    {
        FileUploadBuilder { file_name: self.file_name, purpose: Some(purpose.to_owned()) }
    }

    /// The request, once both fields are set; nothing otherwise.
    pub fn build(self) -> (r: Option<FileUploadRequest>)
        ensures
            (self.file_name is Some && self.purpose is Some) <==> r is Some,
            r matches Some(req) ==> req.file_name == self.file_name.unwrap()
                && req.purpose == self.purpose.unwrap(),
    {
        match (self.file_name, self.purpose) {
            (Some(file_name), Some(purpose)) => Some(FileUploadRequest { file_name, purpose }),
            _ => None,
        }
    }
}

} // verus!
