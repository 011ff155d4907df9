//! Client-side data model for an OpenAI-compatible HTTP API, with a verified
//! core: the streaming chat-completion delta protocol (merging a stream of
//! partial deltas into one completion) and the plain request/response types
//! around it.
//!
//! HTTP transport, authentication and other I/O live outside this library;
//! callers hand in plain values and get plain values back.

use vstd::prelude::*;
use vstd::string::StringSliceAdditionalSpecFns;

pub mod assistants;
pub mod audio;
pub mod chat;
pub mod client;
pub mod completions;
pub mod edits;
pub mod embeddings;
pub mod files;
pub mod json;
pub mod models;
pub mod moderations;

verus! {

/// Token accounting reported by the API.
#[derive(Clone, Copy, Debug, PartialEq, Eq)]
pub struct Usage {
    pub prompt_tokens: u32,
    pub completion_tokens: u32,
    pub total_tokens: u32,
}

/// An error returned by an OpenAI-compatible API, or raised around a call.
#[derive(Debug, PartialEq, Eq)]
pub struct OpenAiError {
    pub message: String,
    pub error_type: String,
    pub param: Option<String>,
    pub code: Option<String>,
}

impl OpenAiError {
    pub fn new(message: String, error_type: String) -> (r: OpenAiError)
        ensures
            r.message == message,
            r.error_type == error_type,
            r.param is None,
            r.code is None,
    {
        OpenAiError { message, error_type, param: None, code: None }
    }
}

impl Clone for OpenAiError {
    fn clone(&self) -> (r: Self)
        ensures
            r == *self,
    {
        let r = OpenAiError {
            message: self.message.clone(),
            error_type: self.error_type.clone(),
            param: self.param.clone(),
            code: self.code.clone(),
        };
        proof {
            assert(r.param == self.param);
            assert(r.code == self.code);
        }
        r
    }
}

/// The body of an API reply: either the expected value or an API error.
#[derive(Debug, PartialEq, Eq)]
pub enum ApiResponse<T> {
    Failure { error: OpenAiError },
    Success(T),
}

/// The result of one API operation.
pub type ApiResponseOrError<T> = Result<T, OpenAiError>;

/// A rough token count for a piece of text.
pub trait Tokens {
    fn tokens(&self) -> u64;
}

impl Tokens for String {
    /// Estimates tokens as one per four bytes of text.
    fn tokens(&self) -> (r: u64)
        ensures
            r == vstd::utf8::encode_utf8(self@).len() as usize as u64 / 4,
    {
        self.as_str().len() as u64 / 4
    }
}

impl Tokens for str {
    /// Estimates tokens as one per four bytes of text.
    fn tokens(&self) -> (r: u64)
        ensures
            r == self.spec_bytes().len() as usize as u64 / 4,
    {
        self.len() as u64 / 4
    }
}

/// Whether two pieces of text are equal, character for character.
pub(crate) fn str_eq(a: &str, b: &str) -> (r: bool)
    ensures
        r == (a@ == b@),
{
    a.to_owned() == b.to_owned()
}

/// Returns the base URL used when a caller supplies none.
pub open spec fn default_base_url_spec() -> Seq<char> {
    "https://api.openai.com/v1/"@
}

/// The base URL used when a caller supplies an empty one.
pub fn default_base_url() -> (r: String)
    ensures
        r@ == default_base_url_spec(),
{
    "https://api.openai.com/v1/".to_owned()
}

/// Holds the API key and base URL for an OpenAI-compatible API.
#[derive(Debug, PartialEq, Eq)]
pub struct Credentials {
    api_key: String,
    base_url: String,
}

/// A base URL with a trailing slash added when it lacks one.
pub open spec fn with_trailing_slash(s: Seq<char>) -> Seq<char> {
    if s.len() > 0 && s.last() == '/' {
        s
    } else {
        s + seq!['/']
    }
}

/// Appends a trailing slash to the URL unless it already ends with one.
pub fn parse_base_url(value: String) -> (r: String)
    ensures
        r@ == with_trailing_slash(value@),
{
    proof {
        reveal_strlit("/");
    }
    let n = value.as_str().unicode_len();
    if n > 0 && value.as_str().get_char(n - 1) == '/' {
        value
    } else {
        let mut v = value;
        v.append("/");
        v
    }
}

impl Credentials {
    /// The API key, as contracts see it.
    pub closed spec fn spec_api_key(&self) -> Seq<char> {
        self.api_key@
    }

    /// The base URL, as contracts see it.
    pub closed spec fn spec_base_url(&self) -> Seq<char> {
        self.base_url@
    }

    /// Creates credentials with the given API key and base URL.
    ///
    /// If the base URL is empty, the default is used; otherwise a trailing
    /// slash is added when missing.
    pub fn new(api_key: &str, base_url: &str) -> (r: Credentials)
        ensures
            r.spec_api_key() == api_key@,
            r.spec_base_url() == (if base_url@.len() == 0 {
                default_base_url_spec()
            } else {
                with_trailing_slash(base_url@)
            }),
    {
        let base_url = if base_url.is_empty() {
            default_base_url()
        } else {
            parse_base_url(base_url.to_owned())
        };
        Credentials { api_key: api_key.to_owned(), base_url }
    }

    pub fn api_key(&self) -> (r: &str)
        ensures
            r@ == self.spec_api_key(),
    {
        self.api_key.as_str()
    }

    pub fn base_url(&self) -> (r: &str)
        ensures
            r@ == self.spec_base_url(),
    {
        self.base_url.as_str()
    }
}

impl Clone for Credentials {
    fn clone(&self) -> (r: Self)
        ensures
            r == *self,
    {
        Credentials { api_key: self.api_key.clone(), base_url: self.base_url.clone() }
    }
}

/// Replaces the API key of a caller-owned set of credentials.
pub fn set_key(credentials: &mut Credentials, value: String)
    ensures
        final(credentials).spec_api_key() == value@,
        final(credentials).spec_base_url() == old(credentials).spec_base_url(),
{
    credentials.api_key = value;
}

/// Replaces the base URL of a caller-owned set of credentials, adding a
/// trailing slash when missing; an empty value leaves the credentials as
/// they were.
pub fn set_base_url(credentials: &mut Credentials, value: String)
    ensures
        value@.len() == 0 ==> *final(credentials) == *old(credentials),
        value@.len() > 0 ==> final(credentials).spec_base_url() == with_trailing_slash(value@)
            && final(credentials).spec_api_key() == old(credentials).spec_api_key(),
{
    if value.as_str().is_empty() {
        return ;
    }
    credentials.base_url = parse_base_url(value);
}

} // verus!
