//! Video textures that the web view shows.
use crate::error::Error;
use crate::error::Failure;
use crate::text;
use vstd::prelude::*;

pub mod d3d11;
pub mod presenter;
pub mod targets;

verus! {

/// The failure of a native call, by what it was to do and what it said.
pub open spec fn texture_failure(context: Seq<char>, detail: Seq<char>) -> Failure {
    Failure::Pipeline("failed to "@ + context + ": "@ + detail)
}

/// The error of a native call.
pub fn texture_error(context: &str, detail: &str) -> (error: Error)
    ensures
        error@ == texture_failure(context@, detail@),
{
    let mut message = text::enclose("failed to ", context, ": ");
    message.append(detail);
    Error::Pipeline(message)
}

} // verus!
