//! What holds of the GStreamer player as a whole.
use crate::desktop::linux_gstreamer;
use crate::desktop::linux_gstreamer::Call;
use crate::desktop::linux_gstreamer::EngineState;
use crate::desktop::linux_gstreamer::Player;
use crate::desktop::linux_gstreamer::session;
use crate::desktop::linux_gstreamer::session::BusMessage;
use crate::desktop::linux_gstreamer::session::Readings;
use crate::desktop::linux_gstreamer::session::Stream;
use crate::double::Double;
use crate::models;
use crate::models::NativeOpenRequest;
use crate::models::Track;
use crate::ordered;
use crate::ordered::Entry;
use crate::text;
use crate::tracks;
use vstd::prelude::*;

verus! {

/// Each track is marked as selected exactly when its stream is selected.
pub open spec fn marks_agree(player: Player) -> bool {
    forall|i: int|
        0 <= i < player.tracks.len() ==> (#[trigger] player.tracks[i]).selected
            == player.selected.contains(player.tracks[i].id)
}

/// After a choice exactly these streams are selected: the chosen one, unless
/// its kind was turned off, and those that were selected before and are known
/// to be of another kind. So no second stream of the chosen kind is left.
pub proof fn choices_are_exclusive(player: Player, index: i32, enabled: bool, id: Seq<char>)
    requires
        session::selection(player, index, enabled) is Ok,
    ensures
        ({
            let chosen = tracks::first_with_index(player.tracks, index)->0;
            let after = session::selection(player, index, enabled)->Ok_0.0;
            after.selected.contains(id) == (enabled && id == chosen.id || player.selected.contains(
                id,
            ) && (tracks::first_with_id(player.tracks, id) matches Some(track) && track.kind
                != chosen.kind))
        }),
{
    let chosen = tracks::first_with_index(player.tracks, index)->0;
    let kept = session::kept_streams(player, chosen.kind);
    let keep = |id: Seq<char>|
        match tracks::first_with_id(player.tracks, id) {
            Some(track) => track.kind != chosen.kind,
            None => false,
        };
    ordered::filters_keep_what_they_should(player.selected, keep, id);
    ordered::inserted_names_are_contained(kept, chosen.id, id);
}

/// The tracks agree with the selection once the engine took it.
pub proof fn taken_choices_are_marked(player: Player, ids: Seq<Seq<char>>)
    ensures
        marks_agree(session::after_call(player, Call::SelectStreams(ids))),
{
}

proof fn lemma_listed_marks(list: Seq<Option<Stream>>, selected: Seq<Seq<char>>, at: int)
    requires
        0 <= at < session::tracks_of(list, selected).len(),
    ensures
        session::tracks_of(list, selected)[at].selected == selected.contains(
            session::tracks_of(list, selected)[at].id,
        ),
    decreases list.len(),
{
    if at < session::tracks_of(list.drop_last(), selected).len() {
        lemma_listed_marks(list.drop_last(), selected, at);
    }
}

/// No message of the engine lets tracks and selection fall apart.
pub proof fn messages_keep_marks(player: Player, message: BusMessage)
    requires
        marks_agree(player),
    ensures
        marks_agree(session::message_effect(player, message).0),
{
    match message {
        BusMessage::StreamCollection(list) => {
            let after = session::message_effect(player, message).0;
            assert forall|i: int| 0 <= i < after.tracks.len() implies (
            #[trigger] after.tracks[i]).selected == after.selected.contains(
                after.tracks[i].id,
            ) by {
                lemma_listed_marks(session::streams(list@), player.selected, i);
            }
        },
        _ => {},
    }
}

proof fn lemma_listed_index(list: Seq<Option<Stream>>, selected: Seq<Seq<char>>, at: int)
    requires
        list.len() <= i32::MAX,
        0 <= at < session::tracks_of(list, selected).len(),
    ensures
        0 <= session::tracks_of(list, selected)[at].index < list.len(),
        forall|i: int|
            0 <= i < at ==> (#[trigger] session::tracks_of(list, selected)[i]).index
                < session::tracks_of(list, selected)[at].index,
    decreases list.len(),
{
    let all = session::tracks_of(list, selected);
    let earlier = session::tracks_of(list.drop_last(), selected);
    if at < earlier.len() {
        lemma_listed_index(list.drop_last(), selected, at);
        assert forall|i: int| 0 <= i < at implies (#[trigger] all[i]).index < all[at].index by {
            assert(earlier[i].index < earlier[at].index);
        }
    } else {
        assert forall|i: int| 0 <= i < at implies (#[trigger] all[i]).index < all[at].index by {
            lemma_listed_index(list.drop_last(), selected, i);
        }
    }
}

proof fn lemma_first_found(list: Seq<Track>, wanted: spec_fn(Track) -> bool, at: int)
    requires
        0 <= at < list.len(),
        wanted(list[at]),
        forall|i: int| 0 <= i < at ==> !wanted(#[trigger] list[i]),
    ensures
        tracks::first(list, wanted) == Some(list[at]),
    decreases at,
{
    if at > 0 {
        assert(!wanted(list[0]));
        assert forall|i: int| 0 <= i < at - 1 implies !wanted(#[trigger] list.drop_first()[i]) by {
            assert(!wanted(list[i + 1]));
        }
        lemma_first_found(list.drop_first(), wanted, at - 1);
    }
}

/// Every listed track can be chosen by its index.
pub proof fn listed_tracks_are_found(
    list: Seq<Option<Stream>>,
    selected: Seq<Seq<char>>,
    at: int,
)
    requires
        list.len() <= i32::MAX,
        0 <= at < session::tracks_of(list, selected).len(),
    ensures
        tracks::first_with_index(
            session::tracks_of(list, selected),
            session::tracks_of(list, selected)[at].index,
        ) == Some(session::tracks_of(list, selected)[at]),
{
    let all = session::tracks_of(list, selected);
    let wanted = |track: Track| track.index == all[at].index;
    lemma_listed_index(list, selected, at);
    assert forall|i: int| 0 <= i < at implies !wanted(#[trigger] all[i]) by {
        assert(all[i].index < all[at].index);
    }
    lemma_first_found(all, wanted, at);
}

/// A message sets the engine in motion only when the caller wants it to play
/// and the message says that the buffer is full; no message changes what the
/// caller wants. In particular a paused player stays paused.
pub proof fn messages_respect_pauses(player: Player, message: BusMessage)
    ensures
        session::message_effect(player, message).0.desired_playing == player.desired_playing,
        session::message_effect(player, message).1 matches Ok(Some(call)) ==> {
            &&& message is Buffering
            &&& call == Call::SetState(EngineState::Playing) || call == Call::SetState(
                EngineState::Paused,
            )
            &&& call == Call::SetState(EngineState::Playing) <==> player.desired_playing
                && message->Buffering_0 >= 100
        },
{
}

/// An error of the engine stays as it is until another one comes, a source is
/// loaded or the player is put to rest.
pub proof fn errors_are_kept(
    player: Player,
    message: BusMessage,
    action: Seq<char>,
    value: Double,
    index: i32,
    call: Call,
)
    requires
        player.error is Some,
    ensures
        session::message_effect(player, message).0.error is Some,
        !(message is Failed) ==> session::message_effect(player, message).0.error
            == player.error,
        session::action_effect(player, action, value, index) matches Ok((after, _))
            ==> after.error == player.error,
        session::after_call(player, call).error == player.error,
{
}

/// What is reported as buffered lies at or behind the position, and for a
/// source with an end not behind both that end and the position.
pub proof fn buffered_lies_ahead(player: Player, readings: Readings, now: u64)
    requires
        player.buffering_percent >= 0,
    ensures
        ({
            let position = models::or_zero(readings.position);
            let duration = models::or_zero(readings.duration);
            let live = session::snapshot_of(player, readings, now).live;
            let buffered = session::buffered_until(player, live, position, duration);
            position <= buffered && (!live ==> buffered <= session::larger(
                duration as int,
                position as int,
            ))
        }),
{
    if let Some(milliseconds) = player.buffer_duration_ms {
        assert(milliseconds * player.buffering_percent >= 0) by (nonlinear_arith)
            requires
                milliseconds >= 0,
                player.buffering_percent >= 0,
        ;
    }
}

/// A volume lies between none and full, whatever number is asked for.
pub proof fn volumes_are_fractions(muted: bool, volume: Double)
    requires
        !volume.is_nan_spec(),
    ensures
        !linux_gstreamer::request_volume(muted, volume).is_nan_spec(),
        0 <= linux_gstreamer::request_volume(muted, volume).rank() <= (Double {
            bits: 0x3ff0_0000_0000_0000,
        }).rank(),
{
}

/// The referrer of a request reaches the source exactly once: the headers of
/// the request stay as they are, and give it, or it stands behind them.
pub proof fn referrers_are_given_once(headers: Seq<Entry>, referrer: Seq<char>)
    ensures
        ({
            let all = linux_gstreamer::request_headers(headers, Some(referrer));
            &&& all.take(headers.len() as int) == headers
            &&& exists|i: int|
                0 <= i < all.len() && linux_gstreamer::names_referer(#[trigger] all[i])
            &&& all.len() > headers.len() ==> all == headers.push(("Referer"@, referrer)) && (
            forall|i: int|
                0 <= i < headers.len() ==> !linux_gstreamer::names_referer(#[trigger] headers[i]))
        }),
{
    let all = linux_gstreamer::request_headers(headers, Some(referrer));
    assert(all.take(headers.len() as int) =~= headers);
    if all.len() > headers.len() {
        reveal_strlit("Referer");
        reveal_strlit("referer");
        assert(text::same_without_case("Referer"@, "referer"@));
        assert(linux_gstreamer::names_referer(all[headers.len() as int]));
    } else {
        let at = choose|i: int|
            0 <= i < headers.len() && linux_gstreamer::names_referer(#[trigger] headers[i]);
        assert(linux_gstreamer::names_referer(all[at]));
    }
}

/// Until the last call of a loading has succeeded, the player keeps its
/// session; then it is the one of the request.
pub proof fn sessions_change_with_the_last_call(
    player: Player,
    payload: NativeOpenRequest,
    left: int,
    rendered: u64,
    now: u64,
)
    ensures
        linux_gstreamer::behind_load_call(player, payload, left, rendered, now).session_key
            == if left == 0 {
            payload.session_key@
        } else {
            player.session_key
        },
{
}

/// Nothing of an earlier source is left on the player once a source is loaded:
/// no error, no track, no selection and no buffering.
pub proof fn loading_starts_afresh(
    player: Player,
    payload: NativeOpenRequest,
    rendered: u64,
    now: u64,
    later: u64,
)
    ensures
        ({
            let set_up = linux_gstreamer::behind_load_call(player, payload, 1, rendered, now);
            let loaded = linux_gstreamer::behind_load_call(set_up, payload, 0, rendered, later);
            &&& loaded.error is None
            &&& loaded.tracks.len() == 0
            &&& loaded.selected.len() == 0
            &&& loaded.buffering_percent == 0
            &&& loaded.desired_playing == payload.autoplay
            &&& loaded.session_key == payload.session_key@
            &&& marks_agree(loaded)
        }),
{
}

} // verus!
