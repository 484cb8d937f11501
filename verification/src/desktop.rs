//! The player on the desktop platforms.
use crate::error;
use crate::error::Error;
use crate::error::Failure;
use crate::text;
use vstd::prelude::*;

pub mod access;
pub mod linux;
pub mod linux_gstreamer;
pub mod linux_mpv;
pub mod linux_surface;
pub mod unavailable_linux_backend;
pub mod windows;

verus! {

/// How many jobs may wait for the user-interface thread.
pub const MAIN_QUEUE: usize = 32;

/// How long a caller waits for the user-interface thread, in seconds.
pub const MAIN_TIMEOUT_SECONDS: u64 = 15;

/// A step of opening a source.
#[derive(Clone, Copy, Debug, PartialEq, Eq, Structural)]
pub enum OpenStep {
    InitializeLibrary,
    /// See to it that there is a layer for the video.
    EnsureLayer,
    /// Make a player, which is given up unless it is kept.
    Create,
    Load,
    /// Take the first report, which is the answer to the request.
    Report,
    Keep,
}

/// The steps of opening a source on an engine that is ready, in order; each
/// is taken only when all before it succeeded. A player that is there loads
/// the source; a new one is kept behind its first report.
pub open spec fn opening(player_open: bool) -> Seq<OpenStep> {
    if player_open {
        seq![OpenStep::EnsureLayer, OpenStep::Load, OpenStep::Report]
    } else {
        seq![
            OpenStep::EnsureLayer,
            OpenStep::Create,
            OpenStep::Load,
            OpenStep::Report,
            OpenStep::Keep,
        ]
    }
}

/// Adds the steps of opening a source to a list.
pub(crate) fn push_opening(steps: &mut Vec<OpenStep>, player_open: bool)
    ensures
        final(steps)@ == old(steps)@ + opening(player_open),
{
    let ghost earlier = steps@;
    steps.push(OpenStep::EnsureLayer);
    if !player_open {
        steps.push(OpenStep::Create);
    }
    steps.push(OpenStep::Load);
    steps.push(OpenStep::Report);
    if !player_open {
        steps.push(OpenStep::Keep);
    }
    assert(steps@ =~= earlier + opening(player_open));
}

/// What became of a job for the user-interface thread.
pub enum MainThread<T> {
    /// The job could not be handed over.
    Unreachable(String),
    /// No answer came in time.
    Silent(String),
    /// The job ran and gave its result.
    Answered(Result<T, Error>),
}

/// The result of a job that was sent to the user-interface thread.
pub fn run_on_main<T>(outcome: MainThread<T>) -> (result: Result<T, Error>)
    ensures
        match outcome {
            MainThread::Unreachable(detail) => error::fails(
                result,
                Failure::Pipeline("native UI dispatcher is unavailable: "@ + detail@),
            ),
            MainThread::Silent(detail) => error::fails(
                result,
                Failure::Pipeline("native UI thread timed out: "@ + detail@),
            ),
            MainThread::Answered(answer) => result == answer,
        },
{
    match outcome {
        MainThread::Unreachable(detail) => Err(
            Error::Pipeline(text::join("native UI dispatcher is unavailable: ", detail.as_str())),
        ),
        MainThread::Silent(detail) => Err(
            Error::Pipeline(text::join("native UI thread timed out: ", detail.as_str())),
        ),
        MainThread::Answered(answer) => answer,
    }
}

/// The answer to every request on a platform without native surfaces.
pub fn unsupported<T>() -> (result: Result<T, Error>)
    ensures
        error::fails(
            result,
            Failure::InvalidRequest(
                "native desktop surfaces are currently implemented on Linux and Windows"@,
            ),
        ),
{
    Err(Error::invalid("native desktop surfaces are currently implemented on Linux and Windows"))
}

/// Whatever is opened is reported behind its loading, on a layer that is there.
/// A player is made, and kept behind its report, exactly where there is none.
pub proof fn openings_stand_in_order(player_open: bool)
    ensures
        ({
            let steps = opening(player_open);
            let made = if player_open {
                0int
            } else {
                1
            };
            &&& steps[0] == OpenStep::EnsureLayer
            &&& !player_open ==> steps[1] == OpenStep::Create
            &&& steps[1 + made] == OpenStep::Load
            &&& steps[2 + made] == OpenStep::Report
            &&& !player_open ==> steps[3 + made] == OpenStep::Keep
            &&& steps.len() == 3 + 2 * made
        }),
{
}

} // verus!
