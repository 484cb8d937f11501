//! What callers ask of the player and what it answers.
use crate::double::Double;
use crate::ordered::NameMap;
use vstd::prelude::*;

verus! {

/// What a track carries.
#[derive(Clone, Copy, Debug, PartialEq, Eq, Structural)]
pub enum TrackKind {
    Video,
    Audio,
    Subtitle,
}

/// A request to open a source.
pub struct NativeOpenRequest {
    pub session_key: String,
    pub uri: String,
    /// The engine that the caller asks for; `None` leaves the choice open.
    pub backend: Option<String>,
    pub headers: NameMap,
    pub cookies: Option<String>,
    pub referrer: Option<String>,
    pub user_agent: Option<String>,
    pub tls_ca_file: Option<String>,
    pub max_buffer_ms: Option<u32>,
    pub target_buffer_bytes: Option<u64>,
    pub muted: bool,
    pub volume: Double,
    pub start_at_seconds: Double,
    pub autoplay: bool,
    pub x: Double,
    pub y: Double,
    pub width: Double,
    pub height: Double,
}

/// A request to act on the open source.
pub struct NativeControlRequest {
    pub session_key: String,
    pub action: String,
    pub value: Double,
    pub index: i32,
}

/// A request to move the video.
pub struct NativeLayoutRequest {
    pub session_key: String,
    pub x: Double,
    pub y: Double,
    pub width: Double,
    pub height: Double,
}

/// A request that only names its session.
pub struct NativeSessionRequest {
    pub session_key: String,
}

/// A track of the open source.
#[derive(Debug)]
pub struct NativeTrackInfo {
    pub id: String,
    pub index: i32,
    pub kind: TrackKind,
    pub language: String,
    pub label: String,
    pub codec: String,
    pub selected: bool,
}

/// What a [`NativeTrackInfo`] holds.
pub struct Track {
    pub id: Seq<char>,
    pub index: i32,
    pub kind: TrackKind,
    pub language: Seq<char>,
    pub label: Seq<char>,
    pub codec: Seq<char>,
    pub selected: bool,
}

impl View for NativeTrackInfo {
    type V = Track;

    open spec fn view(&self) -> Track {
        Track {
            id: self.id@,
            index: self.index,
            kind: self.kind,
            language: self.language@,
            label: self.label@,
            codec: self.codec@,
            selected: self.selected,
        }
    }
}

impl Clone for NativeTrackInfo {
    fn clone(&self) -> (copy: NativeTrackInfo)
        ensures
            copy@ == self@,
    {
        NativeTrackInfo {
            id: self.id.clone(),
            index: self.index,
            kind: self.kind,
            language: self.language.clone(),
            label: self.label.clone(),
            codec: self.codec.clone(),
            selected: self.selected,
        }
    }
}

/// What each track holds.
pub open spec fn tracks(list: Seq<NativeTrackInfo>) -> Seq<Track> {
    list.map_values(|track: NativeTrackInfo| track@)
}

/// A copy of a list of tracks.
pub fn clone_tracks(list: &Vec<NativeTrackInfo>) -> (copy: Vec<NativeTrackInfo>)
    ensures
        tracks(copy@) == tracks(list@),
{
    let mut copy: Vec<NativeTrackInfo> = Vec::new();
    let mut i: usize = 0;
    while i < list.len()
        invariant
            i <= list@.len(),
            tracks(copy@) == tracks(list@).take(i as int),
        decreases list@.len() - i,
    {
        let ghost earlier = tracks(copy@);
        copy.push(list[i].clone());
        i = i + 1;
        assert(tracks(copy@) =~= earlier.push(list@[i - 1]@));
        assert(tracks(list@).take(i as int) =~= tracks(list@).take(i - 1).push(list@[i - 1]@));
    }
    assert(tracks(list@).take(i as int) =~= tracks(list@));
    copy
}

/// A position or a length on the timeline, in the unit that the engine
/// reports.
#[derive(Clone, Copy, Debug, PartialEq, Eq, Structural)]
pub enum MediaTime {
    Seconds(Double),
    Nanoseconds(i128),
}

/// Frames over the nanoseconds in which they were presented.
#[derive(Clone, Copy, Debug, PartialEq, Eq, Structural)]
pub struct FrameRate {
    pub frames: u64,
    pub nanoseconds: u64,
}

/// The state of the player as it is reported to the caller.
#[derive(Debug)]
pub struct NativePlaybackSnapshot {
    pub duration_seconds: MediaTime,
    pub current_time_seconds: MediaTime,
    pub buffered_seconds: MediaTime,
    pub live: bool,
    pub seekable: bool,
    pub seekable_start_seconds: MediaTime,
    pub seekable_end_seconds: MediaTime,
    pub playing: bool,
    pub video_width: u32,
    pub video_height: u32,
    pub tracks: Vec<NativeTrackInfo>,
    pub presented_frames: u64,
    pub dropped_frames: u64,
    pub measured_fps: FrameRate,
    pub hardware_backend: String,
    pub backend: String,
    pub encoded_bytes_buffered: u64,
    pub average_frame_processing_us: Double,
}

/// What a [`NativePlaybackSnapshot`] holds.
pub struct Snapshot {
    pub duration: MediaTime,
    pub position: MediaTime,
    pub buffered: MediaTime,
    pub live: bool,
    pub seekable: bool,
    pub seekable_start: MediaTime,
    pub seekable_end: MediaTime,
    pub playing: bool,
    pub video_size: (u32, u32),
    pub tracks: Seq<Track>,
    pub presented_frames: u64,
    pub dropped_frames: u64,
    pub measured_fps: FrameRate,
    pub hardware_backend: Seq<char>,
    pub backend: Seq<char>,
    pub encoded_bytes_buffered: u64,
    pub average_frame_processing_us: Double,
}

impl View for NativePlaybackSnapshot {
    type V = Snapshot;

    open spec fn view(&self) -> Snapshot {
        Snapshot {
            duration: self.duration_seconds,
            position: self.current_time_seconds,
            buffered: self.buffered_seconds,
            live: self.live,
            seekable: self.seekable,
            seekable_start: self.seekable_start_seconds,
            seekable_end: self.seekable_end_seconds,
            playing: self.playing,
            video_size: (self.video_width, self.video_height),
            tracks: tracks(self.tracks@),
            presented_frames: self.presented_frames,
            dropped_frames: self.dropped_frames,
            measured_fps: self.measured_fps,
            hardware_backend: self.hardware_backend@,
            backend: self.backend@,
            encoded_bytes_buffered: self.encoded_bytes_buffered,
            average_frame_processing_us: self.average_frame_processing_us,
        }
    }
}

/// A reading, or zero where there is none.
pub open spec fn or_zero(reading: Option<u64>) -> u64 {
    match reading {
        Some(value) => value,
        None => 0,
    }
}

/// The characters of an optional text.
pub open spec fn optional(text: Option<String>) -> Option<Seq<char>> {
    match text {
        Some(text) => Some(text@),
        None => None,
    }
}

/// The characters of an optional text, or of none.
pub open spec fn text_or(text: Option<String>, otherwise: Seq<char>) -> Seq<char> {
    match text {
        Some(text) => text@,
        None => otherwise,
    }
}

/// A copy of an optional text, or of a given one.
pub fn copy_or(text: &Option<String>, otherwise: &str) -> (copy: String)
    ensures
        copy@ == text_or(*text, otherwise@),
{
    match text {
        Some(text) => text.clone(),
        None => otherwise.to_owned(),
    }
}

/// The optional text when it is there and not empty.
pub open spec fn present(text: Option<String>) -> Option<Seq<char>> {
    match text {
        Some(text) => if text@.len() > 0 { Some(text@) } else { None },
        None => None,
    }
}

/// A track shows each of its fields.
pub proof fn tracks_show_their_fields(list: Seq<NativeTrackInfo>, at: int)
    requires
        0 <= at < list.len(),
    ensures
        tracks(list).len() == list.len(),
        tracks(list)[at].id == list[at].id@,
        tracks(list)[at].index == list[at].index,
        tracks(list)[at].kind == list[at].kind,
        tracks(list)[at].language == list[at].language@,
        tracks(list)[at].label == list[at].label@,
        tracks(list)[at].codec == list[at].codec@,
        tracks(list)[at].selected == list[at].selected,
{
}

/// A report shows each of its fields.
pub proof fn reports_show_their_fields(report: NativePlaybackSnapshot)
    ensures
        report@.duration == report.duration_seconds,
        report@.position == report.current_time_seconds,
        report@.buffered == report.buffered_seconds,
        report@.live == report.live,
        report@.seekable == report.seekable,
        report@.seekable_start == report.seekable_start_seconds,
        report@.seekable_end == report.seekable_end_seconds,
        report@.playing == report.playing,
        report@.video_size.0 == report.video_width,
        report@.video_size.1 == report.video_height,
        report@.tracks == tracks(report.tracks@),
        report@.presented_frames == report.presented_frames,
        report@.dropped_frames == report.dropped_frames,
        report@.measured_fps == report.measured_fps,
        report@.hardware_backend == report.hardware_backend@,
        report@.backend == report.backend@,
        report@.encoded_bytes_buffered == report.encoded_bytes_buffered,
        report@.average_frame_processing_us == report.average_frame_processing_us,
{
}

/// What was given is kept: a text as it is, unless an empty one counts as none,
/// and a number.
pub proof fn given_values_are_kept(text: String, otherwise: Seq<char>, number: u64)
    ensures
        optional(Some(text)) == Some(text@),
        optional(None) is None,
        text_or(Some(text), otherwise) == text@,
        text_or(None, otherwise) == otherwise,
        text@.len() > 0 ==> present(Some(text)) == Some(text@),
        text@.len() == 0 ==> present(Some(text)) is None,
        present(None) is None,
        or_zero(Some(number)) == number,
        or_zero(None) == 0,
{
}

} // verus!
