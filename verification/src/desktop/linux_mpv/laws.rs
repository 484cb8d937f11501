//! What holds of the mpv player as a whole.
use crate::desktop::linux_mpv;
use crate::desktop::linux_mpv::Call;
use crate::desktop::linux_mpv::MpvBufferDefaults;
use crate::desktop::linux_mpv::MpvProperty;
use crate::desktop::linux_mpv::Player;
use crate::desktop::linux_mpv::TrackTarget;
use crate::desktop::linux_mpv::Value;
use crate::desktop::linux_mpv::session;
use crate::desktop::linux_mpv::session::Commit;
use crate::desktop::linux_mpv::session::Reading;
use crate::desktop::linux_mpv::session::Readings;
use crate::double::Double;
use crate::error::Failure;
use crate::latch;
use crate::latch::Latch;
use crate::models;
use crate::models::NativeOpenRequest;
use crate::ordered;
use vstd::prelude::*;

verus! {

/// Each listed track stands beside the track of the engine that it is: at its
/// own place, with the same index and the same kind.
pub proof fn targets_match_tracks(list: Seq<Reading>, at: int)
    ensures
        session::tracks_of(list).len() == session::targets_of(list).len() <= list.len(),
        0 <= at < session::tracks_of(list).len() ==> {
            &&& session::tracks_of(list)[at].index == at as i32
            &&& session::targets_of(list)[at].public_index == at as i32
            &&& session::targets_of(list)[at].kind == session::tracks_of(list)[at].kind
        },
    decreases list.len(),
{
    if list.len() > 0 {
        targets_match_tracks(list.drop_last(), at);
    }
}

proof fn lemma_first_target(list: Seq<TrackTarget>, index: i32, at: int)
    requires
        0 <= at < list.len(),
        list[at].public_index == index,
        forall|i: int| 0 <= i < at ==> (#[trigger] list[i]).public_index != index,
    ensures
        session::first_target(list, index) == Some(list[at]),
    decreases at,
{
    if at > 0 {
        assert(list[0].public_index != index);
        assert forall|i: int| 0 <= i < at - 1 implies (#[trigger] list.drop_first()[i]).public_index
            != index by {
            assert(list[i + 1].public_index != index);
        }
        lemma_first_target(list.drop_first(), index, at - 1);
    }
}

/// Every listed track can be chosen by its index, and turned off.
pub proof fn listed_tracks_can_be_chosen(list: Seq<Reading>, at: int)
    requires
        list.len() <= i32::MAX,
        0 <= at < session::tracks_of(list).len(),
    ensures
        ({
            let track = session::tracks_of(list)[at];
            let targets = session::targets_of(list);
            let property = session::track_property(track.kind);
            &&& session::selection(targets, track.index, true) == Ok::<Call, Failure>(
                Call::SetProperty(property, Value::Integer(targets[at].mpv_id)),
            )
            &&& session::selection(targets, track.index, false) == Ok::<
                Call,
                Failure,
            >(Call::SetProperty(property, Value::Text("no"@)))
        }),
{
    let targets = session::targets_of(list);
    targets_match_tracks(list, at);
    assert forall|i: int| 0 <= i < at implies (#[trigger] targets[i]).public_index != at as i32 by {
        targets_match_tracks(list, i);
    }
    lemma_first_target(targets, at as i32, at);
}

/// The position is never negative, and what is reported as buffered lies
/// between it and the end, or at it where the end lies before it.
pub proof fn buffered_lies_ahead(readings: Readings)
    ensures
        ({
            let position = session::position_of(readings);
            let duration = session::length_of(readings).unwrap_or(Double { bits: 0 });
            let buffered = session::buffered_until(readings);
            &&& !position.is_nan_spec()
            &&& !buffered.is_nan_spec()
            &&& 0 <= position.rank() <= buffered.rank()
            &&& buffered.rank() <= duration.max_spec(position).rank()
        }),
{
}

/// The source can be played from no negative position on.
pub proof fn windows_start_at_zero(readings: Readings)
    ensures
        !session::window_start(readings).is_nan_spec(),
        session::window_start(readings).rank() >= 0,
{
}

/// A volume lies between none and full, whatever number is asked for.
pub proof fn volumes_are_fractions(targets: Seq<TrackTarget>, value: Double, index: i32)
    requires
        !value.is_nan_spec(),
    ensures
        session::action_call(targets, "volume"@, value, index) matches Ok(
            Call::SetProperty(property, Value::Percent(level)),
        ) && property == MpvProperty::Volume && 0 <= level.rank() <= (Double {
            bits: 0x3ff0_0000_0000_0000,
        }).rank(),
{
    reveal_strlit("volume");
    reveal_strlit("play");
    reveal_strlit("pause");
    reveal_strlit("seek");
    assert("volume"@.len() == 6);
    assert("pause"@.len() == 5);
    assert("play"@.len() == 4);
    assert("seek"@.len() == 4);
}

/// The cookies and the referrer of a request replace headers of their names;
/// every other header stays.
pub proof fn credentials_replace_headers(payload: NativeOpenRequest)
    requires
        ordered::ascending(ordered::names_of(payload.headers@)),
    ensures
        ({
            let own = ordered::table(payload.headers@);
            let with_cookies = match models::present(payload.cookies) {
                Some(value) => own.insert("Cookie"@, value),
                None => own,
            };
            ordered::table(linux_mpv::request_headers(payload)) == match models::present(
                payload.referrer,
            ) {
                Some(value) => with_cookies.insert("Referer"@, value),
                None => with_cookies,
            }
        }),
{
    let own = payload.headers@;
    let with_cookies = match models::present(payload.cookies) {
        Some(value) => {
            ordered::entries_are_a_table(own, "Cookie"@, value);
            ordered::with_entry(own, "Cookie"@, value)
        },
        None => own,
    };
    if let Some(value) = models::present(payload.referrer) {
        ordered::entries_are_a_table(with_cookies, "Referer"@, value);
    }
}

/// A source opens at the position that was asked for: the engine learns the
/// position before it loads the source, and is never told to seek.
pub proof fn sources_open_at_their_start(defaults: MpvBufferDefaults, payload: NativeOpenRequest)
    ensures
        ({
            let list = linux_mpv::source_calls(defaults, payload);
            let start = payload.start_at_seconds.max_spec(Double { bits: 0 });
            &&& list.len() == 15
            &&& list[11] == Call::SetProperty(MpvProperty::Start, Value::Offset(start))
            &&& list[13] == Call::LoadFile(payload.uri@)
            &&& forall|i: int| 0 <= i < list.len() ==> !(#[trigger] list[i] is Seek)
        }),
{
}

/// However many layouts are committed before a redraw runs, they share one:
/// only the first can order it, and does unless one waits already.
pub proof fn layouts_share_a_redraw(
    states: Seq<(Player, Latch)>,
    telemetry: Seq<bool>,
    times: Seq<u64>,
    list: Seq<Commit>,
)
    requires
        list.len() > 0,
        states.len() == list.len() + 1,
        forall|i: int|
            0 <= i < list.len() ==> session::commits(
                states[i],
                states[i + 1],
                telemetry[i],
                times[i],
                #[trigger] list[i],
            ),
    ensures
        list[0].redraw == !states[0].1.pending,
        forall|i: int| 0 < i < list.len() ==> !(#[trigger] list[i]).redraw,
        states.last().1.pending,
{
    let latches = states.map_values(|state: (Player, Latch)| state.1);
    let orders = list.map_values(|commit: Commit| commit.redraw);
    assert forall|i: int| 0 <= i < orders.len() implies latches[i].asked(
        latches[i + 1],
        #[trigger] orders[i],
    ) by {
        assert(session::commits(states[i], states[i + 1], telemetry[i], times[i], list[i]));
    }
    latch::waiting_jobs_are_ordered_once(latches, orders);
    assert forall|i: int| 0 < i < list.len() implies !(#[trigger] list[i]).redraw by {
        assert(!orders[i]);
    }
    assert(orders[0] == list[0].redraw);
}

/// Once a redraw has run, the next committed layout orders another.
pub proof fn layouts_redraw_again(
    before: (Player, Latch),
    after: (Player, Latch),
    telemetry: bool,
    now: u64,
    commit: Commit,
)
    requires
        !before.1.pending,
        session::commits(before, after, telemetry, now, commit),
    ensures
        commit.redraw,
{
    latch::finished_jobs_are_ordered_again(before.1, after.1, commit.redraw);
}

} // verus!
