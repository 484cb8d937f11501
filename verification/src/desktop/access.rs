//! Which requests an open player listens to.
use crate::error;
use crate::error::Error;
use crate::error::Failure;
use crate::text;
use vstd::prelude::*;

verus! {

/// Why a request is turned away: no player is open, or the request belongs to
/// another session than the open one. `None` when it is let through.
pub open spec fn refusal(active: Option<Seq<char>>, requested: Seq<char>) -> Option<Failure> {
    match active {
        None => Some(Failure::InvalidRequest("native player is not open"@)),
        Some(key) => if key == requested {
            None
        } else {
            Some(Failure::InvalidRequest("native player session is stale"@))
        },
    }
}

/// The error for a request without a player.
pub fn not_open() -> (error: Error)
    ensures
        error@ == Failure::InvalidRequest("native player is not open"@),
{
    Error::invalid("native player is not open")
}

/// Lets a request through when it belongs to the open session.
pub fn ensure_session(active: &str, requested: &str) -> (result: Result<(), Error>)
    ensures
        error::answers(result, refusal(Some(active@), requested@)),
{
    if text::same(active, requested) {
        Ok(())
    } else {
        Err(Error::invalid("native player session is stale"))
    }
}

/// A request is let through exactly when a player is open and the request
/// names its session.
pub proof fn only_the_open_session_is_served(active: Option<Seq<char>>, requested: Seq<char>)
    ensures
        refusal(active, requested) is None <==> active == Some(requested),
        active is None ==> refusal(active, requested) == Some(
            Failure::InvalidRequest("native player is not open"@),
        ),
        active is Some && active->0 != requested ==> refusal(active, requested) == Some(
            Failure::InvalidRequest("native player session is stale"@),
        ),
{
}

/// The names of the actions are different from each other.
pub proof fn action_names_differ()
    ensures
        "play"@ != "pause"@,
        "play"@ != "seek"@,
        "play"@ != "volume"@,
        "play"@ != "fit"@,
        "play"@ != "crop"@,
        "play"@ != "stretch"@,
        "play"@ != "zoom"@,
        "play"@ != "track"@,
        "play"@ != "deselectTrack"@,
        "pause"@ != "seek"@,
        "pause"@ != "volume"@,
        "pause"@ != "fit"@,
        "pause"@ != "crop"@,
        "pause"@ != "stretch"@,
        "pause"@ != "zoom"@,
        "pause"@ != "track"@,
        "pause"@ != "deselectTrack"@,
        "seek"@ != "volume"@,
        "seek"@ != "fit"@,
        "seek"@ != "crop"@,
        "seek"@ != "stretch"@,
        "seek"@ != "zoom"@,
        "seek"@ != "track"@,
        "seek"@ != "deselectTrack"@,
        "volume"@ != "fit"@,
        "volume"@ != "crop"@,
        "volume"@ != "stretch"@,
        "volume"@ != "zoom"@,
        "volume"@ != "track"@,
        "volume"@ != "deselectTrack"@,
        "fit"@ != "crop"@,
        "fit"@ != "stretch"@,
        "fit"@ != "zoom"@,
        "fit"@ != "track"@,
        "fit"@ != "deselectTrack"@,
        "crop"@ != "stretch"@,
        "crop"@ != "zoom"@,
        "crop"@ != "track"@,
        "crop"@ != "deselectTrack"@,
        "stretch"@ != "zoom"@,
        "stretch"@ != "track"@,
        "stretch"@ != "deselectTrack"@,
        "zoom"@ != "track"@,
        "zoom"@ != "deselectTrack"@,
        "track"@ != "deselectTrack"@,
{
    reveal_strlit("play");
    reveal_strlit("pause");
    reveal_strlit("seek");
    reveal_strlit("volume");
    reveal_strlit("fit");
    reveal_strlit("crop");
    reveal_strlit("stretch");
    reveal_strlit("zoom");
    reveal_strlit("track");
    reveal_strlit("deselectTrack");
    assert("play"@[0] == 'p' && "seek"@[0] == 's' && "crop"@[0] == 'c' && "zoom"@[0] == 'z');
    assert("pause"@[0] == 'p' && "track"@[0] == 't');
    assert("play"@.len() == 4 && "pause"@.len() == 5 && "seek"@.len() == 4);
    assert("volume"@.len() == 6 && "fit"@.len() == 3 && "crop"@.len() == 4);
    assert("stretch"@.len() == 7 && "zoom"@.len() == 4 && "track"@.len() == 5);
    assert("deselectTrack"@.len() == 13);
}

} // verus!
