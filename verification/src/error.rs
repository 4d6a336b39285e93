//! The error envelope every command returns on failure.

use vstd::prelude::*;
use vstd::string::*;

verus! {

/// Spec-level shape of a [`CommandError`]: the failure kind together with
/// the text of its message.
pub enum ErrorSpec {
    Docker(Seq<char>),
    Unexpected(Seq<char>),
}

/// A failed command carries exactly one of two kinds of error: the runtime
/// rejected or failed the request (`DockerError`), or a local failure
/// occurred, such as failing to deliver a streamed event (`UnexpectedError`).
/// Both carry only a human-readable message.
#[derive(Debug, PartialEq, Eq)]
pub enum CommandError {
    DockerError(String),
    UnexpectedError(String),
}

impl View for CommandError {
    type V = ErrorSpec;

    open spec fn view(&self) -> ErrorSpec {
        match self {
            CommandError::DockerError(m) => ErrorSpec::Docker(m@),
            CommandError::UnexpectedError(m) => ErrorSpec::Unexpected(m@),
        }
    }
}

/// The rendering of an error as a single line: a kind label followed by
/// the message.
pub open spec fn spec_rendered(e: ErrorSpec) -> Seq<char> {
    match e {
        ErrorSpec::Docker(m) => "Docker API error: "@ + m,
        ErrorSpec::Unexpected(m) => "Unexpected error: "@ + m,
    }
}

impl CommandError {
    /// True exactly when the failure came from the runtime.
    pub fn is_docker(&self) -> (r: bool)
        ensures
            r == (self@ is Docker),
    {
        match self {
            CommandError::DockerError(_) => true,
            CommandError::UnexpectedError(_) => false,
        }
    }

    /// The message carried by the error, whatever its kind.
    pub fn message(&self) -> (m: &String)
        ensures
            self@ is Docker ==> m@ == self@->Docker_0,
            self@ is Unexpected ==> m@ == self@->Unexpected_0,
    {
        match self {
            CommandError::DockerError(m) => m,
            CommandError::UnexpectedError(m) => m,
        }
    }

    /// One-line rendering with a kind label, for presentation to a caller.
    pub fn rendered(&self) -> (m: String)
        ensures
            m@ == spec_rendered(self@),
    {
        match self {
            CommandError::DockerError(m) => prefixed("Docker API error: ", m.as_str()),
            CommandError::UnexpectedError(m) => prefixed("Unexpected error: ", m.as_str()),
        }
    }
}

/// Builds the string `prefix` followed by `cause`.
pub fn prefixed(prefix: &str, cause: &str) -> (m: String)
    ensures
        m@ == prefix@ + cause@,
{
    String::from_str(prefix).concat(cause)
}

} // verus!
