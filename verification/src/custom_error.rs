//! An error type with four kinds, each with a message.

use crate::timeout_result::TimeoutResultError;
use vstd::prelude::*;

verus! {

/// What went wrong, with a message for the reader.
#[derive(Debug)]
pub enum CustomError {
    /// The caller had no right to do what it asked for.
    Unauthorized(String),
    /// What was asked for does not exist; the message names it.
    ResourceNotFound(String),
    /// An operation took too long.
    Timeout(String),
    /// Anything else.
    Unknown(String),
}

/// `format!` of two strings: the text of `head`, then the text of `tail`.
#[verifier::external_body]
fn joined(head: &str, tail: &str) -> (text: String)
    ensures
        text@ == head@ + tail@,
{
    format!("{}{}", head, tail)
}

impl CustomError {
    /// The message that the error was made with.
    pub open spec fn detail(self) -> Seq<char> {
        match self {
            CustomError::Unauthorized(msg) => msg@,
            CustomError::ResourceNotFound(msg) => msg@,
            CustomError::Timeout(msg) => msg@,
            CustomError::Unknown(msg) => msg@,
        }
    }

    /// What introduces the message when the error is shown.
    pub open spec fn heading(self) -> Seq<char> {
        match self {
            CustomError::Unauthorized(_) => "Unauthorized: "@,
            CustomError::ResourceNotFound(_) => "Resource not found: "@,
            CustomError::Timeout(_) => "Operation timed out: "@,
            CustomError::Unknown(_) => "Unknown error: "@,
        }
    }

    /// An error for a caller without the right to do what was asked.
    pub fn unauthorized(msg: String) -> (error: Self)
        ensures
            error == CustomError::Unauthorized(msg),
    {
        CustomError::Unauthorized(msg)
    }

    /// An error for a resource that does not exist.
    pub fn not_found(resource: String) -> (error: Self)
        ensures
            error == CustomError::ResourceNotFound(resource),
    {
        CustomError::ResourceNotFound(resource)
    }

    /// An error for an operation that took too long.
    pub fn timeout(msg: String) -> (error: Self)
        ensures
            error == CustomError::Timeout(msg),
    {
        CustomError::Timeout(msg)
    }

    /// An error of no known kind.
    pub fn unknown(msg: String) -> (error: Self)
        ensures
            error == CustomError::Unknown(msg),
    {
        CustomError::Unknown(msg)
    }

    /// The error as a line of text: the heading of its kind, then the
    /// message.
    pub fn message(&self) -> (text: String)
        ensures
            text@ == self.heading() + self.detail(),
    {
        match self {
            CustomError::Unauthorized(msg) => joined("Unauthorized: ", msg.as_str()),
            CustomError::ResourceNotFound(msg) => joined("Resource not found: ", msg.as_str()),
            CustomError::Timeout(msg) => joined("Operation timed out: ", msg.as_str()),
            CustomError::Unknown(msg) => joined("Unknown error: ", msg.as_str()),
        }
    }
}

/// The message of the error that stands for a time limit that ran out.
pub open spec fn timed_out_text() -> Seq<char> {
    "Operation did not complete within the allotted time"@
}

/// What a failed operation with a time limit becomes as a `CustomError`: its
/// own error where it has one, a `Timeout` with a fixed message otherwise.
pub open spec fn converts_to(err: TimeoutResultError<CustomError>, error: CustomError) -> bool {
    match err {
        TimeoutResultError::Error(inner) => error == inner,
        TimeoutResultError::TimedOut => error matches CustomError::Timeout(msg) && msg@
            == timed_out_text(),
    }
}

impl From<TimeoutResultError<CustomError>> for CustomError {
    fn from(err: TimeoutResultError<CustomError>) -> (error: CustomError)
        ensures
            converts_to(err, error),
    {
        match err {
            TimeoutResultError::Error(inner) => inner,
            TimeoutResultError::TimedOut => CustomError::Timeout(
                "Operation did not complete within the allotted time".to_owned(),
            ),
        }
    }
}

impl vstd::std_specs::convert::FromSpecImpl<TimeoutResultError<CustomError>> for CustomError {
    /// Two strings with the same text are not one value to the verifier, so
    /// the conversion is stated by `converts_to` and not as a function.
    open spec fn obeys_from_spec() -> bool {
        false
    }

    open spec fn from_spec(err: TimeoutResultError<CustomError>) -> CustomError {
        match err {
            TimeoutResultError::Error(inner) => inner,
            TimeoutResultError::TimedOut => arbitrary(),
        }
    }
}

} // verus!
