//! Error values of the dispatch core: runtime handler errors, pattern
//! parsing errors, and registration conflicts.

use vstd::prelude::*;

use crate::pattern::Pattern;

verus! {

/// A runtime error produced by a handler or an extractor: an HTTP status
/// code together with a message destined for the response body.
#[derive(Debug)]
pub struct HttpError {
    pub status: u16,
    pub message: String,
}

impl HttpError {
    /// Builds an error from a message and a status code.
    pub fn new(message: &str, status: u16) -> (r: HttpError)
        ensures
            r.status == status,
            r.message@ == message@,
    {
        HttpError { message: message.to_owned(), status }
    }

    /// Wraps an arbitrary error message under the default status 500.
    pub fn err(message: &str) -> (r: HttpError)
        ensures
            r.status == 500,
            r.message@ == message@,
    {
        HttpError::new(message, 500)
    }

    /// Replaces the status code, keeping the message.
    pub fn status(self, status: u16) -> (r: HttpError)
        ensures
            r.status == status,
            r.message@ == self.message@,
    {
        HttpError { status, ..self }
    }

    /// Replaces the message, keeping the status code.
    pub fn message(self, message: String) -> (r: HttpError)
        ensures
            r.status == self.status,
            r.message@ == message@,
    {
        HttpError { message, ..self }
    }
}

impl From<String> for HttpError {
    /// A bare string converts to a status-500 error carrying it as message.
    fn from(value: String) -> (r: HttpError)
    {
        HttpError { message: value, status: 500 }
    }
}

impl vstd::std_specs::convert::FromSpecImpl<String> for HttpError {
    open spec fn obeys_from_spec() -> bool {
        true
    }

    open spec fn from_spec(value: String) -> HttpError {
        HttpError { message: value, status: 500 }
    }
}

/// A route string refused at registration time.
#[derive(Debug)]
pub enum PatternError {
    UnsupportedMethod,
    MissingPath,
    PathMustStartWithSlash,
    InvalidHost(String),
    InvalidChars,
    WildcardPosition,
    InvalidDynamic,
}

impl PatternError {
    /// A human-readable description of the parse failure.
    pub fn message(&self) -> (r: String)
        ensures
            r@ == self.spec_message(),
    {
        match self {
            PatternError::UnsupportedMethod => "unsupported or invalid method".to_owned(),
            PatternError::MissingPath => "missing path".to_owned(),
            PatternError::PathMustStartWithSlash => "path must start with '/'".to_owned(),
            PatternError::InvalidHost(host) => {
                let mut m = "invalid host ".to_owned();
                m.append(host.as_str());
                m
            },
            PatternError::InvalidChars => "found invalid chars".to_owned(),
            PatternError::WildcardPosition => "wildcard (*) is only allowed as last chunk".to_owned(),
            PatternError::InvalidDynamic => "invalid dynamic pattern definition".to_owned(),
        }
    }

    /// The description `message` returns.
    pub open spec fn spec_message(&self) -> Seq<char> {
        match self {
            PatternError::UnsupportedMethod => "unsupported or invalid method"@,
            PatternError::MissingPath => "missing path"@,
            PatternError::PathMustStartWithSlash => "path must start with '/'"@,
            PatternError::InvalidHost(host) => "invalid host "@ + host@,
            PatternError::InvalidChars => "found invalid chars"@,
            PatternError::WildcardPosition => "wildcard (*) is only allowed as last chunk"@,
            PatternError::InvalidDynamic => "invalid dynamic pattern definition"@,
        }
    }
}

/// A conflict that would make a route tree ambiguous. The taxonomy is
/// declared for registering callers to report; insertion itself keeps
/// first-match-wins order and does not reject duplicates.
#[derive(Debug)]
pub enum RegisterError {
    InvalidPattern(PatternError),
    DuplicatePattern(Pattern),
    DuplicateDynamicSegment(String, String),
    DuplicateWildcardSegment,
}

} // verus!
