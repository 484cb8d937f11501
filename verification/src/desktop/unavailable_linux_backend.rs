//! The stand-in for an engine that is not part of the build.
use crate::error;
use crate::error::Error;
use crate::error::Failure;
use crate::models::NativeControlRequest;
use crate::models::NativeLayoutRequest;
use crate::models::NativeOpenRequest;
use crate::models::NativePlaybackSnapshot;
use crate::models::NativeSessionRequest;
use vstd::prelude::*;

verus! {

/// The failure of every request that needs the engine.
pub open spec fn missing() -> Failure {
    Failure::RuntimeUnavailable("the requested Linux playback backend was not compiled"@)
}

/// The answer to every request that needs the engine.
pub fn unavailable<T>() -> (result: Result<T, Error>)
    ensures
        error::fails(result, missing()),
{
    Err(Error::runtime("the requested Linux playback backend was not compiled"))
}

/// Nothing can be opened.
pub fn open(_payload: &NativeOpenRequest) -> (result: Result<NativePlaybackSnapshot, Error>)
    ensures
        error::fails(result, missing()),
{
    unavailable()
}

/// Nothing can be controlled.
pub fn control(_payload: &NativeControlRequest) -> (result: Result<NativePlaybackSnapshot, Error>)
    ensures
        error::fails(result, missing()),
{
    unavailable()
}

/// Nothing can be moved.
pub fn layout(_payload: &NativeLayoutRequest) -> (result: Result<(), Error>)
    ensures
        error::fails(result, missing()),
{
    unavailable()
}

/// Nothing can be reported.
pub fn stats(_payload: &NativeSessionRequest) -> (result: Result<NativePlaybackSnapshot, Error>)
    ensures
        error::fails(result, missing()),
{
    unavailable()
}

/// What was never open is closed.
pub fn close(_payload: &NativeSessionRequest) -> (result: Result<(), Error>)
    ensures
        result is Ok,
{
    Ok(())
}

/// What was never open makes room.
pub fn force_close() -> (result: Result<(), Error>)
    ensures
        result is Ok,
{
    Ok(())
}

} // verus!
