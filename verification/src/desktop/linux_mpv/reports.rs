//! What the answers of the mpv engine are reported as.
use crate::desktop::linux_mpv;
use crate::desktop::linux_mpv::LayoutMeter;
use crate::desktop::linux_mpv::Player;
use crate::desktop::linux_mpv::session;
use crate::desktop::linux_mpv::session::MpvEvent;
use crate::desktop::linux_mpv::session::Reading;
use crate::desktop::linux_mpv::session::Readings;
use crate::desktop::linux_mpv::session::TrackReading;
use crate::double::Double;
use crate::error::Failure;
use crate::models::MediaTime;
use crate::models::TrackKind;
use crate::text;
use vstd::prelude::*;

verus! {

/// What the report says in seconds.
pub open spec fn seconds(time: MediaTime) -> Double {
    match time {
        MediaTime::Seconds(number) => number,
        MediaTime::Nanoseconds(_) => Double { bits: 0xffff_ffff_ffff_ffff },
    }
}

/// A reading is a number and not below zero.
pub open spec fn at_least_zero(reading: Option<Double>) -> bool {
    reading is Some && !reading->0.is_nan_spec() && reading->0.rank() >= 0
}

/// The report gives the position and the length that the engine gave, and zero
/// where it gave none that can be; exactly a source without a length is live.
pub proof fn positions_are_reported(player: Player, rendered: u64, readings: Readings, now: u64)
    ensures
        ({
            let report = session::snapshot_of(player, rendered, readings, now);
            let ends = at_least_zero(readings.duration) && readings.duration->0.rank() > 0;
            &&& at_least_zero(readings.position) ==> seconds(report.position)
                == readings.position->0
            &&& !at_least_zero(readings.position) ==> seconds(report.position).bits == 0
            &&& ends ==> seconds(report.duration) == readings.duration->0 && !report.live
            &&& !ends ==> seconds(report.duration).bits == 0 && report.live
            &&& readings.seekable matches Some(seekable) ==> report.seekable == seekable
            &&& readings.seekable is None ==> report.seekable == !report.live
        }),
{
}

/// What the engine says is cached is reported as buffered, held between the
/// position and the later of the position and the end.
pub proof fn caches_are_reported(player: Player, rendered: u64, readings: Readings, now: u64)
    ensures
        ({
            let report = session::snapshot_of(player, rendered, readings, now);
            let position = seconds(report.position).rank();
            let duration = seconds(report.duration).rank();
            let last = if duration > position { duration } else { position };
            let buffered = seconds(report.buffered);
            match readings.cached_until {
                None => buffered == seconds(report.position),
                Some(cached) => {
                    &&& cached.is_nan_spec() || cached.rank() < position ==> buffered
                        == seconds(report.position)
                    &&& !cached.is_nan_spec() && position <= cached.rank() <= last ==> buffered
                        == cached
                    &&& !cached.is_nan_spec() && cached.rank() > last ==> buffered.rank() == last
                },
            }
        }),
{
}

/// The window in which can be sought is the one that the engine gave when its
/// end lies behind its start; otherwise it ends at the larger of the length and
/// what is buffered. It never starts before zero.
pub proof fn windows_are_those_of_the_engine(
    player: Player,
    rendered: u64,
    readings: Readings,
    now: u64,
)
    ensures
        ({
            let report = session::snapshot_of(player, rendered, readings, now);
            let start = seconds(report.seekable_start);
            let end = seconds(report.seekable_end);
            let duration = seconds(report.duration).rank();
            let buffered = seconds(report.buffered).rank();
            let given = readings.seekable_end is Some && !readings.seekable_end->0.is_nan_spec()
                && readings.seekable_end->0.rank() > start.rank();
            &&& at_least_zero(readings.seekable_start) ==> start == readings.seekable_start->0
            &&& !at_least_zero(readings.seekable_start) ==> start.bits == 0
            &&& given ==> end == readings.seekable_end->0
            &&& !given ==> end.rank() == if duration > buffered { duration } else { buffered }
        }),
{
}

/// The rest of the report is what the player holds and what the engine counted.
pub proof fn counts_are_reported(player: Player, rendered: u64, readings: Readings, now: u64)
    requires
        readings.cache_used is Some ==> readings.cache_used->0 * 1024 <= u64::MAX,
    ensures
        ({
            let report = session::snapshot_of(player, rendered, readings, now);
            &&& report.playing == (readings.paused is Some && !readings.paused->0)
            &&& report.tracks == player.tracks
            &&& report.presented_frames == rendered
            &&& report.dropped_frames == if readings.dropped is Some && readings.dropped->0 > 0 {
                readings.dropped->0 as int
            } else {
                0
            }
            &&& readings.width is Some && 0 <= readings.width->0 <= u32::MAX
                ==> report.video_size.0 == readings.width->0
            &&& readings.height is Some && 0 <= readings.height->0 <= u32::MAX
                ==> report.video_size.1 == readings.height->0
            &&& readings.width is None || readings.width->0 < 0 ==> report.video_size.0 == 0
            &&& readings.height is None || readings.height->0 < 0 ==> report.video_size.1 == 0
            &&& report.encoded_bytes_buffered == if readings.cache_used is Some
                && readings.cache_used->0 > 0 {
                readings.cache_used->0 * 1024
            } else {
                0
            }
            &&& now < player.meter.last_sample_at + 500_000_000 ==> report.measured_fps
                == player.meter.measured
            &&& now >= player.meter.last_sample_at + 500_000_000 ==> player.meter.last_sample_at
                + report.measured_fps.nanoseconds == now
            &&& now >= player.meter.last_sample_at + 500_000_000 && rendered
                >= player.meter.last_frames ==> player.meter.last_frames
                + report.measured_fps.frames == rendered
            &&& now >= player.meter.last_sample_at + 500_000_000 && rendered
                < player.meter.last_frames ==> report.measured_fps.frames == 0
            &&& report.backend == "mpv"@
            &&& readings.hardware matches Some(hardware) ==> (readings.decoder matches Some(
                decoder,
            ) ==> report.hardware_backend == "mpv:"@ + hardware@ + ":"@ + decoder@
                + ":gtk-glarea"@)
            &&& readings.hardware is None ==> (readings.decoder matches Some(decoder)
                ==> report.hardware_backend == "mpv:"@ + "software"@ + ":"@ + decoder@
                + ":gtk-glarea"@)
            &&& readings.decoder is None ==> (readings.hardware matches Some(hardware)
                ==> report.hardware_backend == "mpv:"@ + hardware@ + ":"@ + Seq::<char>::empty()
                + ":gtk-glarea"@)
            &&& readings.width is Some && readings.width->0 > u32::MAX
                ==> report.video_size.0 == readings.width->0 as int % 0x1_0000_0000
            &&& readings.height is Some && readings.height->0 > u32::MAX
                ==> report.video_size.1 == readings.height->0 as int % 0x1_0000_0000
            &&& report.average_frame_processing_us.bits == 0
        }),
{
}

/// A reading keeps what the engine said, and fills what it did not say.
pub proof fn readings_keep_what_was_said(reading: TrackReading)
    ensures
        reading.track_type matches Some(name) ==> reading@.track_type == name@,
        reading.track_type is None ==> reading@.track_type.len() == 0,
        reading@.id == reading.id,
        reading.language matches Some(language) ==> reading@.language == language@,
        reading.language is None ==> reading@.language == "und"@,
        reading.title matches Some(title) ==> reading@.title == title@,
        reading.title is None ==> reading@.title.len() == 0,
        reading.codec matches Some(codec) ==> reading@.codec == codec@,
        reading.codec is None ==> reading@.codec.len() == 0,
        reading.selected matches Some(selected) ==> reading@.selected == selected,
        reading.selected is None ==> !reading@.selected,
{
}

/// The kinds by what the engine calls them.
pub proof fn kinds_have_their_names(name: Seq<char>)
    ensures
        session::kind_of("video"@) == Some(TrackKind::Video),
        session::kind_of("audio"@) == Some(TrackKind::Audio),
        session::kind_of("sub"@) == Some(TrackKind::Subtitle),
        name != "video"@ && name != "audio"@ && name != "sub"@ ==> session::kind_of(name) is None,
{
    reveal_strlit("video");
    reveal_strlit("audio");
    reveal_strlit("sub");
    assert("video"@[0] == 'v' && "audio"@[0] == 'a' && "sub"@[0] == 's');
}

/// A reading of a known kind gives one track and one target, side by side
/// behind those of the readings before it. The track says what was read; the
/// target carries the number that the engine gave, the same that the track is
/// named by. Any other reading gives neither.
pub proof fn readings_become_their_tracks(list: Seq<Reading>, at: int)
    requires
        0 <= at < list.len() <= i32::MAX,
    ensures
        ({
            let reading = list[at];
            let place = session::tracks_of(list.take(at)).len() as int;
            let behind = session::tracks_of(list.take(at + 1)).len();
            let track = session::tracks_of(list)[place];
            let target = session::targets_of(list)[place];
            &&& session::targets_of(list.take(at)).len() == place
            &&& session::kind_of(reading.track_type) is None ==> behind == place
            &&& session::kind_of(reading.track_type) matches Some(kind) ==> {
                &&& behind == place + 1 <= session::tracks_of(list).len()
                &&& session::tracks_of(list).len() == session::targets_of(list).len()
                &&& track.index == place
                &&& target.public_index == place
                &&& track.kind == kind
                &&& target.kind == kind
                &&& reading.id matches Some(id) ==> target.mpv_id == id
                &&& reading.id is None ==> target.mpv_id == at
                &&& track.id == "mpv-"@ + reading.track_type + "-"@ + text::signed_decimal(
                    target.mpv_id as int,
                )
                &&& track.language == reading.language
                &&& track.codec == reading.codec
                &&& track.selected == reading.selected
                &&& reading.title.len() > 0 ==> track.label == reading.title
                &&& reading.title.len() == 0 && reading.language != "und"@ ==> track.label
                    == text::uppercase(reading.language)
                &&& reading.title.len() == 0 && reading.language == "und"@ ==> track.label
                    == reading.track_type
            }
        }),
    decreases list.len(),
{
    lemma_side_by_side(list);
    lemma_side_by_side(list.take(at));
    lemma_side_by_side(list.take(at + 1));
    assert(list.take(at + 1).drop_last() =~= list.take(at));
    assert(list.take(at + 1).last() == list[at]);
    if at == list.len() - 1 {
        assert(list.take(at + 1) =~= list);
    } else {
        let rest = list.drop_last();
        lemma_side_by_side(rest);
        readings_become_their_tracks(rest, at);
        assert(rest.take(at) =~= list.take(at));
        assert(rest.take(at + 1) =~= list.take(at + 1));
    }
}

proof fn lemma_side_by_side(list: Seq<Reading>)
    ensures
        session::tracks_of(list).len() == session::targets_of(list).len() <= list.len(),
    decreases list.len(),
{
    if list.len() > 0 {
        lemma_side_by_side(list.drop_last());
    }
}

/// Each reading stays at its place.
pub proof fn readings_stay_at_their_places(list: Seq<TrackReading>, at: int)
    requires
        0 <= at < list.len(),
    ensures
        session::readings_of(list).len() == list.len(),
        session::readings_of(list)[at] == list[at]@,
{
}

/// Choosing a listed track by its index sets the property of its kind to the
/// number that the engine gave in the very reading that the track was made of.
pub proof fn listed_tracks_are_chosen_by_their_number(list: Seq<Reading>, at: int, id: i64)
    requires
        0 <= at < list.len() <= i32::MAX,
        session::kind_of(list[at].track_type) is Some,
        list[at].id == Some(id),
    ensures
        ({
            let place = session::tracks_of(list.take(at)).len() as int;
            let track = session::tracks_of(list)[place];
            let property = match session::kind_of(list[at].track_type)->0 {
                TrackKind::Video => linux_mpv::MpvProperty::Vid,
                TrackKind::Audio => linux_mpv::MpvProperty::Aid,
                TrackKind::Subtitle => linux_mpv::MpvProperty::Sid,
            };
            session::selection(session::targets_of(list), track.index, true) == Ok::<
                linux_mpv::Call,
                Failure,
            >(linux_mpv::Call::SetProperty(property, linux_mpv::Value::Integer(id)))
        }),
{
    let place = session::tracks_of(list.take(at)).len() as int;
    readings_become_their_tracks(list, at);
    linux_mpv::laws::listed_tracks_can_be_chosen(list, place);
}

/// Only a shutdown and a failed event end a report, and only what loads or
/// reconfigures lets the tracks be read again.
pub proof fn events_mean_what_they_say(event: MpvEvent, detail: String)
    ensures
        session::event_failure(Ok(event)) is Some <==> event == MpvEvent::Shutdown,
        session::event_failure(Ok(MpvEvent::Shutdown)) == Some(
            Failure::Pipeline("mpv shut down"@),
        ),
        session::event_failure(Err(detail)) == Some(
            Failure::Pipeline("mpv backend: "@ + detail@),
        ),
        session::changes_tracks(event) <==> event == MpvEvent::StartFile || event
            == MpvEvent::FileLoaded || event == MpvEvent::VideoReconfig || event
            == MpvEvent::AudioReconfig,
{
}

/// A committed layout counts as one, as far as can be counted. What is reported
/// is all commits since the last report and the time since then, and only when
/// it is asked for and half a second old.
pub proof fn commits_are_counted(meter: LayoutMeter, telemetry: bool, now: u64)
    ensures
        ({
            let due = telemetry && now >= meter.sample_at + 500_000_000;
            let count = if meter.commits < u64::MAX {
                meter.commits + 1
            } else {
                u64::MAX as int
            };
            &&& due ==> (session::commit_report(meter, telemetry, now) matches Some((commits, passed))
                && commits == count && meter.sample_at + passed == now)
            &&& due ==> session::committed(meter, telemetry, now).commits == 0
                && session::committed(meter, telemetry, now).sample_at == now
            &&& !due ==> session::commit_report(meter, telemetry, now) is None
            &&& !due ==> session::committed(meter, telemetry, now).commits == count
                && session::committed(meter, telemetry, now).sample_at == meter.sample_at
        }),
{
}

/// The picture has as many device pixels as it has points, at the scale, and at
/// least one.
pub proof fn pictures_fill_their_place(allocated: i32, scale: i32)
    ensures
        allocated >= 1 && scale >= 1 && allocated * scale <= i32::MAX ==> linux_mpv::device_pixels(
            allocated,
            scale,
        ) == allocated * scale,
        allocated >= 1 && scale < 1 ==> linux_mpv::device_pixels(allocated, scale) == allocated,
        allocated < 1 && scale >= 1 ==> linux_mpv::device_pixels(allocated, scale) == scale,
        allocated >= 1 && scale >= 1 && allocated * scale > i32::MAX ==> linux_mpv::device_pixels(
            allocated,
            scale,
        ) == i32::MAX,
{
    assert(allocated * 1 == allocated && 1 * scale == scale) by (nonlinear_arith);
}

/// Behind an event that may bring other tracks they are read again; any other
/// event, and a failed one, changes nothing.
pub proof fn events_ask_for_tracks(player: Player, event: MpvEvent, detail: String)
    ensures
        ({
            let after = session::after_event(player, Ok(event));
            let asks = event == MpvEvent::StartFile || event == MpvEvent::FileLoaded || event
                == MpvEvent::VideoReconfig || event == MpvEvent::AudioReconfig;
            &&& asks ==> after == (Player { tracks_dirty: true, ..player })
            &&& !asks ==> after == player
            &&& session::after_event(player, Err(detail)) == player
        }),
{
}

} // verus!
