//! Requests on Windows, where GStreamer is the only engine.
use crate::error;
use crate::error::Error;
use crate::error::Failure;
use crate::models;
use crate::models::NativeControlRequest;
use crate::models::NativeLayoutRequest;
use crate::models::NativeOpenRequest;
use crate::models::NativeSessionRequest;
use crate::text;
use vstd::prelude::*;

pub mod gstreamer;
pub mod texture_stream;

verus! {

/// Who serves a request that is let through.
#[derive(Clone, Copy, Debug, PartialEq, Eq, Structural)]
pub enum Served {
    /// The engine has to serve it.
    ByEngine,
    /// There is nothing to do.
    AtOnce,
}

/// Why an open request is turned away; `None` when it goes to the engine.
pub open spec fn open_failure(compiled: bool, requested: Option<Seq<char>>) -> Option<Failure> {
    let goes_to_engine = match requested {
        None => true,
        Some(name) => name == "gstreamer"@,
    };
    if goes_to_engine {
        if compiled {
            None
        } else {
            Some(gstreamer::missing())
        }
    } else if requested == Some("mpv"@) {
        Some(
            Failure::RuntimeUnavailable(
                "the mpv backend is not implemented on Windows; use gstreamer"@,
            ),
        )
    } else {
        Some(
            Failure::InvalidRequest(
                "backend '"@ + requested->0 + "' is not available on Windows"@,
            ),
        )
    }
}

/// The engine serves the request when it is part of the build.
pub open spec fn served(compiled: bool, result: Result<Served, Error>) -> bool {
    if compiled {
        result == Ok::<Served, Error>(Served::ByEngine)
    } else {
        error::fails(result, gstreamer::missing())
    }
}

/// The answer of the engine, or of its stand-in.
fn serve<T>(compiled: bool, answer: Result<T, Error>) -> (result: Result<Served, Error>)
    requires
        error::fails(answer, gstreamer::missing()),
    ensures
        served(compiled, result),
{
    if compiled {
        return Ok(Served::ByEngine);
    }
    match answer {
        Ok(_) => Ok(Served::AtOnce),
        Err(error) => Err(error),
    }
}

/// Lets the preparation of a texture stream through to the engine.
pub fn prepare_texture_stream(compiled: bool, stream_id: &str) -> (result: Result<Served, Error>)
    ensures
        served(compiled, result),
{
    serve(compiled, gstreamer::prepare_texture_stream(stream_id))
}

/// Lets an open request through to the engine.
pub fn open(compiled: bool, payload: &NativeOpenRequest) -> (result: Result<Served, Error>)
    ensures
        match open_failure(compiled, models::optional(payload.backend)) {
            Some(failure) => error::fails(result, failure),
            None => result == Ok::<Served, Error>(Served::ByEngine),
        },
{
    match &payload.backend {
        None => serve(compiled, gstreamer::open(payload)),
        Some(name) => if text::same(name.as_str(), "gstreamer") {
            serve(compiled, gstreamer::open(payload))
        } else if text::same(name.as_str(), "mpv") {
            Err(Error::runtime("the mpv backend is not implemented on Windows; use gstreamer"))
        } else {
            Err(
                Error::InvalidRequest(
                    text::enclose("backend '", name.as_str(), "' is not available on Windows"),
                ),
            )
        },
    }
}

/// Lets a control request through to the engine.
pub fn control(compiled: bool, payload: &NativeControlRequest) -> (result: Result<Served, Error>)
    ensures
        served(compiled, result),
{
    serve(compiled, gstreamer::control(payload))
}

/// Lets a layout request through to the engine.
pub fn layout(compiled: bool, payload: &NativeLayoutRequest) -> (result: Result<Served, Error>)
    ensures
        served(compiled, result),
{
    serve(compiled, gstreamer::layout(payload))
}

/// Lets a request for a snapshot through to the engine.
pub fn stats(compiled: bool, payload: &NativeSessionRequest) -> (result: Result<Served, Error>)
    ensures
        served(compiled, result),
{
    serve(compiled, gstreamer::stats(payload))
}

/// Lets a close request through to the engine; without one there is nothing
/// to close.
pub fn close(compiled: bool, payload: &NativeSessionRequest) -> (result: Result<Served, Error>)
    ensures
        result == Ok::<Served, Error>(
            if compiled {
                Served::ByEngine
            } else {
                Served::AtOnce
            },
        ),
{
    if compiled {
        return Ok(Served::ByEngine);
    }
    match gstreamer::close(payload) {
        Ok(_) => Ok(Served::AtOnce),
        Err(error) => Err(error),
    }
}

/// Only requests for GStreamer reach the engine.
pub proof fn only_gstreamer_opens(compiled: bool, requested: Option<Seq<char>>)
    requires
        open_failure(compiled, requested) is None,
    ensures
        compiled,
        requested is None || requested == Some("gstreamer"@),
{
}

/// A request for GStreamer, by name or by naming none, goes to the engine where
/// it is compiled; every other one is turned away by its name.
pub proof fn requests_are_sorted_by_name(compiled: bool, name: Seq<char>)
    ensures
        compiled ==> open_failure(compiled, None) is None,
        compiled ==> open_failure(compiled, Some("gstreamer"@)) is None,
        !compiled ==> open_failure(compiled, None) == Some(
            Failure::RuntimeUnavailable(
                "Windows playback requires the gstreamer-runtime feature"@,
            ),
        ),
        !compiled ==> open_failure(compiled, Some("gstreamer"@)) == open_failure(compiled, None),
        open_failure(compiled, Some("mpv"@)) == Some(
            Failure::RuntimeUnavailable(
                "the mpv backend is not implemented on Windows; use gstreamer"@,
            ),
        ),
        name != "gstreamer"@ && name != "mpv"@ ==> open_failure(compiled, Some(name)) == Some(
            Failure::InvalidRequest("backend '"@ + name + "' is not available on Windows"@),
        ),
{
    reveal_strlit("gstreamer");
    reveal_strlit("mpv");
    assert("gstreamer"@.len() != "mpv"@.len());
}

/// Other requests reach the engine exactly where it is compiled.
pub proof fn compiled_engines_serve(result: Result<Served, Error>)
    ensures
        served(true, result) <==> result == Ok::<Served, Error>(Served::ByEngine),
        served(false, result) <==> error::fails(
            result,
            Failure::RuntimeUnavailable(
                "Windows playback requires the gstreamer-runtime feature"@,
            ),
        ),
{
}

} // verus!
