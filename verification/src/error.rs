//! The failures that the player reports to its caller.
use vstd::prelude::*;

verus! {

/// A failed request.
#[derive(Debug)]
pub enum Error {
    /// The request itself cannot be served: no open player, a stale session,
    /// an unknown action, track or backend.
    InvalidRequest(String),
    /// The native engine or the native surface refused to do its part.
    Pipeline(String),
    /// The engine that the request needs is not part of this build.
    RuntimeUnavailable(String),
}

/// What an [`Error`] says, as characters.
pub enum Failure {
    InvalidRequest(Seq<char>),
    Pipeline(Seq<char>),
    RuntimeUnavailable(Seq<char>),
}

impl View for Error {
    type V = Failure;

    open spec fn view(&self) -> Failure {
        match self {
            Error::InvalidRequest(text) => Failure::InvalidRequest(text@),
            Error::Pipeline(text) => Failure::Pipeline(text@),
            Error::RuntimeUnavailable(text) => Failure::RuntimeUnavailable(text@),
        }
    }
}

/// `result` is an error that says exactly `failure`.
pub open spec fn fails<T>(result: Result<T, Error>, failure: Failure) -> bool {
    result matches Err(error) && error@ == failure
}

/// `result` succeeds when `failure` is `None`, and otherwise fails with it.
pub open spec fn answers<T>(result: Result<T, Error>, failure: Option<Failure>) -> bool {
    match failure {
        None => result is Ok,
        Some(failure) => fails(result, failure),
    }
}

impl Error {
    /// An [`Error::InvalidRequest`] with a fixed text.
    pub fn invalid(text: &str) -> (error: Error)
        ensures
            error@ == Failure::InvalidRequest(text@),
    {
        Error::InvalidRequest(text.to_owned())
    }

    /// An [`Error::Pipeline`] with a fixed text.
    pub fn pipeline(text: &str) -> (error: Error)
        ensures
            error@ == Failure::Pipeline(text@),
    {
        Error::Pipeline(text.to_owned())
    }

    /// An [`Error::RuntimeUnavailable`] with a fixed text.
    pub fn runtime(text: &str) -> (error: Error)
        ensures
            error@ == Failure::RuntimeUnavailable(text@),
    {
        Error::RuntimeUnavailable(text.to_owned())
    }
}

/// An error says its text, and keeps its kind.
pub proof fn errors_say_their_text(error: Error)
    ensures
        error matches Error::InvalidRequest(text) ==> error@ == Failure::InvalidRequest(text@),
        error matches Error::Pipeline(text) ==> error@ == Failure::Pipeline(text@),
        error matches Error::RuntimeUnavailable(text) ==> error@ == Failure::RuntimeUnavailable(
            text@,
        ),
{
}

/// A result cannot both succeed and fail, and fails with one failure only.
pub proof fn answers_are_definite<T>(result: Result<T, Error>, failure: Failure, other: Failure)
    ensures
        result is Ok <==> answers(result, None),
        answers(result, Some(failure)) ==> result is Err,
        answers(result, Some(failure)) && answers(result, Some(other)) ==> failure == other,
{
}

} // verus!
