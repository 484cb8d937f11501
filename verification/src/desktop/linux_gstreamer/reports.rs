//! What the answers of the GStreamer engine are reported as.
use crate::desktop::linux_gstreamer::Creation;
use crate::desktop::linux_gstreamer::EngineState;
use crate::desktop::linux_gstreamer::Progress;
use crate::desktop::linux_gstreamer;
use crate::desktop::linux_gstreamer::Call;
use crate::desktop::linux_gstreamer::Player;
use crate::desktop::linux_gstreamer::SinkStep;
use crate::desktop::linux_gstreamer::session;
use crate::desktop::linux_gstreamer::session::BusMessage;
use crate::desktop::linux_gstreamer::session::Readings;
use crate::desktop::linux_gstreamer::session::Stream;
use crate::desktop::linux_gstreamer::session::StreamReading;
use crate::error::Failure;
use crate::models::MediaTime;
use crate::models::NativeOpenRequest;
use crate::models::Track;
use crate::models::TrackKind;
use crate::ordered;
use crate::text;
use vstd::prelude::*;

verus! {

/// What the report says in nanoseconds.
pub open spec fn nanoseconds(time: MediaTime) -> int {
    match time {
        MediaTime::Nanoseconds(count) => count as int,
        MediaTime::Seconds(_) => -1,
    }
}

/// The report gives the position and the length that the engine gave, and none
/// where it gave none; without a length, or where the engine says so, the source
/// is live.
pub proof fn positions_are_reported(player: Player, readings: Readings, now: u64)
    ensures
        ({
            let report = session::snapshot_of(player, readings, now);
            &&& report.position is Nanoseconds
            &&& report.duration is Nanoseconds
            &&& readings.position matches Some(time) ==> nanoseconds(report.position) == time
            &&& readings.position is None ==> nanoseconds(report.position) == 0
            &&& readings.duration matches Some(time) ==> nanoseconds(report.duration) == time
            &&& readings.duration is None ==> nanoseconds(report.duration) == 0
            &&& report.live == (nanoseconds(report.duration) == 0 || readings.latency == Some(true))
        }),
{
}

/// The window in which can be sought is exactly the one that the engine gave
/// when its end lies behind its start. Otherwise it starts where the engine
/// said, and ends at the larger of the length and what is buffered. Without an
/// answer the whole source can be sought, unless it is live.
pub proof fn windows_are_those_of_the_engine(player: Player, readings: Readings, now: u64)
    ensures
        ({
            let report = session::snapshot_of(player, readings, now);
            let duration = nanoseconds(report.duration);
            let buffered = nanoseconds(report.buffered);
            let start = nanoseconds(report.seekable_start);
            let end = nanoseconds(report.seekable_end);
            let furthest = if duration > buffered { duration } else { buffered };
            match readings.seeking {
                Some(answer) => {
                    let from = match answer.start {
                        Some(time) => time as int,
                        None => 0,
                    };
                    let to = match answer.end {
                        Some(time) => time as int,
                        None => 0,
                    };
                    &&& report.seekable == answer.seekable
                    &&& start == from
                    &&& to > from ==> end == to
                    &&& to <= from ==> end == furthest
                },
                None => {
                    &&& report.seekable == !report.live
                    &&& start == 0
                    &&& duration > 0 ==> end == duration
                    &&& duration == 0 ==> end == furthest
                },
            }
        }),
{
    lemma_times_fit(player);
}

proof fn lemma_times_fit(player: Player)
    ensures
        forall|live: bool, position: u64, duration: u64|
            -0x1_0000_0000_0000_0000_0000_0000 <= #[trigger] session::buffered_until(
                player,
                live,
                position,
                duration,
            ) <= 0x1_0000_0000_0000_0000_0000_0000,
{
    assert forall|live: bool, position: u64, duration: u64|
        -0x1_0000_0000_0000_0000_0000_0000 <= #[trigger] session::buffered_until(
            player,
            live,
            position,
            duration,
        ) <= 0x1_0000_0000_0000_0000_0000_0000 by {
        lemma_buffer_fits(player);
    }
}

proof fn lemma_buffer_fits(player: Player)
    ensures
        player.buffer_duration_ms matches Some(milliseconds) ==> -0x1_0000_0000_0000_0000
            <= milliseconds * player.buffering_percent <= 0x1_0000_0000_0000_0000,
{
    if let Some(milliseconds) = player.buffer_duration_ms {
        let percent = player.buffering_percent as int;
        assert(-0x1_0000_0000_0000_0000 <= milliseconds * percent <= 0x1_0000_0000_0000_0000)
            by (nonlinear_arith)
            requires
                0 <= milliseconds <= 0xffff_ffff,
                -0x8000_0000 <= percent <= 0x7fff_ffff,
        ;
    }
}

/// A buffer that is full to a percentage reaches that part of its length ahead
/// of the position; for a source with an end it stops there, and for one without
/// it never falls behind the position. Without a buffer of a known length
/// nothing is ahead.
pub proof fn buffers_reach_ahead(player: Player, readings: Readings, now: u64)
    ensures
        ({
            let report = session::snapshot_of(player, readings, now);
            let position = nanoseconds(report.position);
            let duration = nanoseconds(report.duration);
            let buffered = nanoseconds(report.buffered);
            let part = match player.buffer_duration_ms {
                Some(milliseconds) => milliseconds * 1_000_000 * player.buffering_percent,
                None => 0,
            };
            let last = if duration > position { duration } else { position };
            &&& report.live && part >= 0 ==> (buffered - position) * 100 == part
            &&& report.live && part < 0 ==> buffered == position
            &&& !report.live && position * 100 + part <= last * 100 ==> (buffered - position) * 100
                == part
            &&& !report.live && position * 100 + part > last * 100 ==> buffered == last
        }),
{
    lemma_times_fit(player);
    if let Some(milliseconds) = player.buffer_duration_ms {
        let percent = player.buffering_percent as int;
        assert(milliseconds * 1_000_000 * percent == milliseconds * percent * 10_000 * 100)
            by (nonlinear_arith);
    }
}

/// The bytes that are reported are the percentage of those that were asked for,
/// rounded down, as long as they can be counted.
pub proof fn buffered_bytes_are_a_percentage(player: Player, readings: Readings, now: u64)
    ensures
        ({
            let bytes = session::snapshot_of(player, readings, now).encoded_bytes_buffered;
            match player.target_buffer_bytes {
                None => bytes == 0,
                Some(target) => {
                    &&& player.buffering_percent <= 0 ==> bytes == 0
                    &&& player.buffering_percent > 0 && target * player.buffering_percent
                        <= u64::MAX ==> bytes * 100 <= target * player.buffering_percent < (bytes
                        + 1) * 100
                    &&& player.buffering_percent > 0 && target * player.buffering_percent
                        > u64::MAX ==> bytes == u64::MAX / 100
                },
            }
        }),
{
    if let Some(target) = player.target_buffer_bytes {
        let percent = player.buffering_percent as int;
        if percent > 0 {
            assert(target * percent >= 0) by (nonlinear_arith)
                requires
                    target >= 0,
                    percent > 0,
            ;
        } else {
            assert(target * 0 == 0) by (nonlinear_arith);
        }
    }
}

/// The rest of the report is what the player wants and holds, and what the
/// engine counted.
pub proof fn counts_are_reported(player: Player, readings: Readings, now: u64)
    ensures
        ({
            let report = session::snapshot_of(player, readings, now);
            &&& report.playing == player.desired_playing
            &&& report.tracks == player.tracks
            &&& readings.rendered matches Some(count) ==> report.presented_frames == count
            &&& readings.rendered is None ==> report.presented_frames == 0
            &&& readings.dropped matches Some(count) ==> report.dropped_frames == count
            &&& readings.dropped is None ==> report.dropped_frames == 0
            &&& readings.width is Some && readings.width->0 >= 0 ==> report.video_size.0
                == readings.width->0
            &&& readings.height is Some && readings.height->0 >= 0 ==> report.video_size.1
                == readings.height->0
            &&& readings.width is None || readings.width->0 < 0 ==> report.video_size.0 == 0
            &&& readings.height is None || readings.height->0 < 0 ==> report.video_size.1 == 0
            &&& now < player.meter.last_sample_at + 500_000_000 ==> report.measured_fps
                == player.meter.measured
            &&& now >= player.meter.last_sample_at + 500_000_000 ==> player.meter.last_sample_at
                + report.measured_fps.nanoseconds == now
            &&& now >= player.meter.last_sample_at + 500_000_000 && report.presented_frames
                >= player.meter.last_frames ==> player.meter.last_frames
                + report.measured_fps.frames == report.presented_frames
            &&& now >= player.meter.last_sample_at + 500_000_000 && report.presented_frames
                < player.meter.last_frames ==> report.measured_fps.frames == 0
            &&& report.average_frame_processing_us.bits == 0
            &&& report.backend == "gstreamer"@
            &&& report.hardware_backend == "gstreamer-va-gl-gtk"@
        }),
{
}

/// A stream that can be played gives one track, behind those of the streams
/// before it, with its place as index and with what is known of it; any other
/// gives none.
pub proof fn streams_become_their_tracks(
    list: Seq<Option<Stream>>,
    selected: Seq<Seq<char>>,
    at: int,
)
    requires
        0 <= at < list.len() <= i32::MAX,
    ensures
        ({
            let all = session::tracks_of(list, selected);
            let place = session::tracks_of(list.take(at), selected).len() as int;
            let behind = session::tracks_of(list.take(at + 1), selected).len();
            match list[at] {
                None => behind == place,
                Some(stream) => {
                    &&& stream.kind is None ==> behind == place
                    &&& stream.kind is Some ==> {
                        let track = all[place];
                        &&& behind == place + 1 <= all.len()
                        &&& track.index == at
                        &&& Some(track.kind) == stream.kind
                        &&& stream.id matches Some(id) ==> track.id == id
                        &&& stream.id is None ==> track.id == "native-"@ + text::decimal(at as nat)
                        &&& track.language == stream.language
                        &&& track.codec == stream.codec
                        &&& track.selected == selected.contains(track.id)
                        &&& stream.title.len() > 0 ==> track.label == stream.title
                        &&& stream.title.len() == 0 && stream.language.len() > 0 ==> track.label
                            == text::uppercase(stream.language)
                        &&& stream.title.len() == 0 && stream.language.len() == 0 ==> track.label
                            == "Track "@ + text::decimal((at + 1) as nat)
                    }
                },
            }
        }),
    decreases list.len(),
{
    assert(list.take(at + 1).drop_last() =~= list.take(at));
    assert(list.take(at + 1).last() == list[at]);
    if at == list.len() - 1 {
        assert(list.take(at + 1) =~= list);
    } else {
        let rest = list.drop_last();
        streams_become_their_tracks(rest, selected, at);
        assert(rest.take(at) =~= list.take(at));
        assert(rest.take(at + 1) =~= list.take(at + 1));
    }
}

/// All tracks come from streams.
pub proof fn no_streams_no_tracks(selected: Seq<Seq<char>>)
    ensures
        session::tracks_of(Seq::empty(), selected).len() == 0,
{
}

/// The kind of a stream is one that it has, and video comes before audio and
/// audio before text.
pub proof fn kinds_are_those_of_the_stream(reading: StreamReading)
    ensures
        reading@.kind == Some(TrackKind::Video) <==> reading.video,
        reading@.kind == Some(TrackKind::Audio) <==> !reading.video && reading.audio,
        reading@.kind == Some(TrackKind::Subtitle) <==> !reading.video && !reading.audio
            && reading.text,
        reading.id matches Some(id) ==> reading@.id == Some(id@),
        reading.id is None ==> reading@.id is None,
        reading.language matches Some(language) ==> reading@.language == language@,
        reading.language is None ==> reading@.language.len() == 0,
        reading.title matches Some(title) ==> reading@.title == title@,
        reading.title is None ==> reading@.title.len() == 0,
        reading.codec matches Some(codec) ==> reading@.codec == codec@,
        reading.codec is None ==> reading@.codec.len() == 0,
{
}

/// Each stream of a collection stays at its place.
pub proof fn streams_stay_at_their_places(list: Seq<Option<StreamReading>>, at: int)
    requires
        0 <= at < list.len(),
    ensures
        session::streams(list).len() == list.len(),
        list[at] is None ==> session::streams(list)[at] is None,
        list[at] matches Some(reading) ==> session::streams(list)[at] == Some(reading@),
{
}

/// The streams that the engine says it plays are exactly the selected ones.
pub proof fn answered_streams_are_selected(list: Seq<Option<String>>, id: Seq<char>)
    ensures
        session::selected_ids(list).contains(id) <==> exists|i: int|
            0 <= i < list.len() && (#[trigger] list[i] matches Some(given) && given@ == id),
    decreases list.len(),
{
    if list.len() > 0 {
        let rest = list.drop_last();
        answered_streams_are_selected(rest, id);
        let earlier = session::selected_ids(rest);
        if let Some(last) = list.last() {
            ordered::inserted_names_are_contained(earlier, last@, id);
        }
        if exists|i: int| 0 <= i < rest.len() && (#[trigger] rest[i] matches Some(given) && given@
            == id) {
            let i = choose|i: int|
                0 <= i < rest.len() && (#[trigger] rest[i] matches Some(given) && given@ == id);
            assert(list[i] == rest[i]);
        }
        if exists|i: int| 0 <= i < list.len() && (#[trigger] list[i] matches Some(given) && given@
            == id) {
            let i = choose|i: int|
                0 <= i < list.len() && (#[trigger] list[i] matches Some(given) && given@ == id);
            if i < rest.len() {
                assert(rest[i] == list[i]);
            }
        }
        assert(list[list.len() - 1] == list.last());
    }
}

/// A message changes only what it speaks of: the buffering its percentage, a
/// collection the tracks, an answer the selection and the marks, a failure the
/// error, which is reported at once.
pub proof fn messages_change_what_they_speak_of(player: Player, message: BusMessage)
    ensures
        ({
            let (after, answer) = session::message_effect(player, message);
            &&& after.session_key == player.session_key
            &&& after.meter == player.meter
            &&& after.buffer_duration_ms == player.buffer_duration_ms
            &&& after.target_buffer_bytes == player.target_buffer_bytes
            &&& message matches BusMessage::Buffering(percent) ==> after == (Player {
                buffering_percent: percent,
                ..player
            }) && answer == Ok::<Option<Call>, Failure>(
                Some(
                    Call::SetState(
                        if player.desired_playing && percent >= 100 {
                            EngineState::Playing
                        } else {
                            EngineState::Paused
                        },
                    ),
                ),
            )
            &&& message matches BusMessage::StreamCollection(list) ==> after == (Player {
                tracks: session::tracks_of(session::streams(list@), player.selected),
                ..player
            }) && answer == Ok::<Option<Call>, Failure>(None)
            &&& message matches BusMessage::StreamsSelected(list) ==> {
                &&& after.selected == session::selected_ids(list@)
                &&& after.tracks.len() == player.tracks.len()
                &&& forall|i: int|
                    0 <= i < player.tracks.len() ==> #[trigger] after.tracks[i] == (Track {
                        selected: after.selected.contains(player.tracks[i].id),
                        ..player.tracks[i]
                    })
                &&& after.error == player.error
                &&& after.buffering_percent == player.buffering_percent
                &&& answer == Ok::<Option<Call>, Failure>(None)
            }
            &&& message matches BusMessage::Failed { error, debug } ==> {
                let words = error@ + ": "@ + (match debug {
                    Some(debug) => debug@,
                    None => Seq::empty(),
                });
                &&& after == (Player { error: Some(words), ..player })
                &&& answer == Err::<Option<Call>, Failure>(Failure::Pipeline(words))
            }
            &&& message is Other ==> after == player && answer == Ok::<Option<Call>, Failure>(None)
        }),
{
}

/// A call that the engine took changes nothing but the marks of the tracks; a
/// call that it refused is reported with what the engine said.
pub proof fn calls_change_only_marks(player: Player, call: Call, detail: Seq<char>)
    ensures
        !(call is SelectStreams) ==> session::after_call(player, call) == player,
        session::after_call(player, call) == (Player {
            tracks: session::after_call(player, call).tracks,
            ..player
        }),
        session::after_call(player, call).tracks.len() == player.tracks.len(),
        call is SelectStreams ==> forall|i: int|
            0 <= i < player.tracks.len() ==> #[trigger] session::after_call(player, call).tracks[i]
                == (Track {
                selected: player.selected.contains(player.tracks[i].id),
                ..player.tracks[i]
            }),
        call is Settle ==> session::call_failure(call, detail) == Failure::Pipeline(
            "native pipeline state did not settle before seek: "@ + detail,
        ),
        call is SelectStreams ==> session::call_failure(call, detail) == Failure::Pipeline(
            "decoder rejected track selection"@,
        ),
        !(call is Settle) && !(call is SelectStreams) ==> session::call_failure(call, detail)
            == Failure::Pipeline(detail),
{
}

/// The steps to a sink that keeps subtitles lead through each other, every one
/// before the next, to the last.
pub proof fn sink_steps_stand_in_order()
    ensures
        linux_gstreamer::next_sink_step(SinkStep::MakeCompositor) == Some(
            SinkStep::ParseCaps,
        ),
        linux_gstreamer::next_sink_step(SinkStep::ParseCaps) == Some(
            SinkStep::MakeCapsFilter,
        ),
        linux_gstreamer::next_sink_step(SinkStep::MakeCapsFilter) == Some(
            SinkStep::AddElements,
        ),
        linux_gstreamer::next_sink_step(SinkStep::AddElements) == Some(
            SinkStep::LinkElements,
        ),
        linux_gstreamer::next_sink_step(SinkStep::LinkElements) == Some(
            SinkStep::FindCompositorPad,
        ),
        linux_gstreamer::next_sink_step(SinkStep::FindCompositorPad) == Some(
            SinkStep::BuildGhostPad,
        ),
        linux_gstreamer::next_sink_step(SinkStep::BuildGhostPad) == Some(
            SinkStep::ActivateGhostPad,
        ),
        linux_gstreamer::next_sink_step(SinkStep::ActivateGhostPad) == Some(
            SinkStep::AddGhostPad,
        ),
        linux_gstreamer::next_sink_step(SinkStep::AddGhostPad) is None,
{
}

/// Each step to such a sink leads to the next when it succeeds, and the last one
/// to the sink. Without a compositor the sink is used as it is; any other step
/// that fails ends the opening, with what the engine said.
pub proof fn sinks_are_built_or_given_up(step: SinkStep, detail: Seq<char>)
    ensures
        ({
            let taken = linux_gstreamer::sink_progress(step, Ok(()));
            let failed = linux_gstreamer::sink_progress(step, Err(detail));
            &&& step == SinkStep::AddGhostPad <==> taken is Composited
            &&& step != SinkStep::AddGhostPad ==> taken is Next
            &&& taken matches Progress::Next(next) ==> linux_gstreamer::next_sink_step(step)
                == Some(next)
            &&& step == SinkStep::MakeCompositor <==> failed is Bare
            &&& step == SinkStep::FindCompositorPad ==> failed == Progress::Failed(
                Failure::Pipeline("gloverlaycompositor has no sink pad"@),
            )
            &&& step != SinkStep::MakeCompositor && step != SinkStep::FindCompositorPad ==> failed
                == Progress::Failed(Failure::Pipeline(detail))
        }),
{
}

/// The pipeline is at rest exactly when its change of state succeeded and it is
/// ready; otherwise it is said where it stands.
pub proof fn pipelines_rest_when_ready(
    detail: Seq<char>,
    current: EngineState,
    pending: EngineState,
)
    ensures
        linux_gstreamer::rest_failure(Ok(()), current, pending) is None <==> current
            == EngineState::Ready,
        linux_gstreamer::rest_failure(Err(detail), current, pending) == Some(
            Failure::Pipeline(
                "failed to park native pipeline before source change: "@ + detail,
            ),
        ),
        current != EngineState::Ready ==> linux_gstreamer::rest_failure(Ok(()), current, pending)
            == Some(
            Failure::Pipeline(
                "native pipeline did not reach READY before source change (current: "@
                    + linux_gstreamer::state_name(current) + ", pending: "@
                    + linux_gstreamer::state_name(pending) + ")"@,
            ),
        ),
{
}

/// A step to a player that fails names the element that is missing, or says what
/// the engine said.
pub proof fn missing_elements_are_named(step: Creation, detail: Seq<char>)
    ensures
        step is MakeVideoSink ==> linux_gstreamer::creation_failure(step, detail)
            == Failure::Pipeline("gtkglsink is unavailable: "@ + detail),
        step is MakeGlSink ==> linux_gstreamer::creation_failure(step, detail)
            == Failure::Pipeline("glsinkbin is unavailable: "@ + detail),
        step is MakePipeline ==> linux_gstreamer::creation_failure(step, detail)
            == Failure::Pipeline("playbin3 is unavailable: "@ + detail),
        !(step is MakeVideoSink) && !(step is MakeGlSink) && !(step is MakePipeline)
            ==> linux_gstreamer::creation_failure(step, detail) == Failure::Pipeline(detail),
{
}

/// A new player belongs to no session, holds nothing, wants what the request
/// wants, and measures from now on.
pub proof fn new_players_hold_nothing(payload: NativeOpenRequest, now: u64)
    ensures
        ({
            let player = linux_gstreamer::created(payload, now);
            &&& player.session_key.len() == 0
            &&& player.tracks.len() == 0
            &&& player.selected.len() == 0
            &&& player.error is None
            &&& player.buffering_percent == 0
            &&& player.desired_playing == payload.autoplay
            &&& player.meter.last_frames == 0
            &&& player.meter.last_sample_at == now
            &&& player.meter.measured.frames == 0
            &&& player.meter.measured.nanoseconds == 500_000_000
        }),
{
}

/// A header gives the referrer exactly when it has its name, in whatever case.
pub proof fn referrers_are_known_by_name(name: Seq<char>, value: Seq<char>)
    ensures
        linux_gstreamer::names_referer((name, value)) ==> name.len() == 7,
        linux_gstreamer::names_referer(("referer"@, value)),
        linux_gstreamer::names_referer(("Referer"@, value)),
        linux_gstreamer::names_referer(("REFERER"@, value)),
        linux_gstreamer::names_referer((name, value)) <==> text::same_without_case(
            name,
            "referer"@,
        ),
{
    reveal_strlit("referer");
    reveal_strlit("Referer");
    reveal_strlit("REFERER");
}

/// What the engine said is kept, word for word.
pub proof fn words_are_kept(outcome: Result<(), String>)
    ensures
        outcome is Ok ==> linux_gstreamer::said(outcome) is Ok,
        outcome matches Err(detail) ==> linux_gstreamer::said(outcome) == Err::<(), Seq<char>>(
            detail@,
        ),
{
}

/// Versions before 1.26 use the sink as it is, and no later one does; those
/// begin with the compositor.
pub proof fn versions_decide_on_compositors(major: u32, minor: u32)
    ensures
        linux_gstreamer::first_progress(major, minor) is Bare <==> major == 0 || (major == 1
            && minor < 26),
        !(linux_gstreamer::first_progress(major, minor) is Bare)
            ==> linux_gstreamer::first_progress(major, minor) == Progress::Next(
            SinkStep::MakeCompositor,
        ),
{
}

} // verus!
