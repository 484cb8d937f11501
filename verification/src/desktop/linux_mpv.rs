//! The mpv engine: what it is told, and what its answers mean.
use crate::desktop;
use crate::desktop::OpenStep;
use crate::desktop::linux_mpv::list::encode_mpv_list;
use crate::double::Double;
use crate::error::Error;
use crate::error::Failure;
use crate::latch::Latch;
use crate::meter;
use crate::meter::FrameMeter;
use crate::models;
use crate::models::NativeOpenRequest;
use crate::models::NativePlaybackSnapshot;
use crate::models::NativeTrackInfo;
use crate::models::Track;
use crate::models::TrackKind;
use crate::ordered;
use crate::ordered::Entry;
use crate::ordered::NameMap;
use crate::text;
use vstd::prelude::*;

pub mod laws;
pub mod list;
pub mod reports;
pub mod requests;
pub mod session;

verus! {

/// A property of the engine that the player sets.
#[derive(Clone, Copy, Debug, PartialEq, Eq, Structural)]
pub enum MpvProperty {
    HttpHeaderFields,
    UserAgent,
    TlsCaFile,
    CacheSecs,
    DemuxerReadaheadSecs,
    DemuxerMaxBytes,
    DemuxerMaxBackBytes,
    DemuxerDonateBuffer,
    DemuxerHysteresisSecs,
    Volume,
    Start,
    Pause,
    Panscan,
    VideoUnscaled,
    VideoZoom,
    Vid,
    Aid,
    Sid,
}

impl MpvProperty {
    /// The name by which the engine knows the property.
    pub open spec fn named(self) -> Seq<char> {
        match self {
            MpvProperty::HttpHeaderFields => "http-header-fields"@,
            MpvProperty::UserAgent => "user-agent"@,
            MpvProperty::TlsCaFile => "tls-ca-file"@,
            MpvProperty::CacheSecs => "cache-secs"@,
            MpvProperty::DemuxerReadaheadSecs => "demuxer-readahead-secs"@,
            MpvProperty::DemuxerMaxBytes => "demuxer-max-bytes"@,
            MpvProperty::DemuxerMaxBackBytes => "demuxer-max-back-bytes"@,
            MpvProperty::DemuxerDonateBuffer => "demuxer-donate-buffer"@,
            MpvProperty::DemuxerHysteresisSecs => "demuxer-hysteresis-secs"@,
            MpvProperty::Volume => "volume"@,
            MpvProperty::Start => "start"@,
            MpvProperty::Pause => "pause"@,
            MpvProperty::Panscan => "panscan"@,
            MpvProperty::VideoUnscaled => "video-unscaled"@,
            MpvProperty::VideoZoom => "video-zoom"@,
            MpvProperty::Vid => "vid"@,
            MpvProperty::Aid => "aid"@,
            MpvProperty::Sid => "sid"@,
        }
    }

    /// The name by which the engine knows the property.
    pub fn name(self) -> (name: &'static str)
        ensures
            name@ == self.named(),
    {
        match self {
            MpvProperty::HttpHeaderFields => "http-header-fields",
            MpvProperty::UserAgent => "user-agent",
            MpvProperty::TlsCaFile => "tls-ca-file",
            MpvProperty::CacheSecs => "cache-secs",
            MpvProperty::DemuxerReadaheadSecs => "demuxer-readahead-secs",
            MpvProperty::DemuxerMaxBytes => "demuxer-max-bytes",
            MpvProperty::DemuxerMaxBackBytes => "demuxer-max-back-bytes",
            MpvProperty::DemuxerDonateBuffer => "demuxer-donate-buffer",
            MpvProperty::DemuxerHysteresisSecs => "demuxer-hysteresis-secs",
            MpvProperty::Volume => "volume",
            MpvProperty::Start => "start",
            MpvProperty::Pause => "pause",
            MpvProperty::Panscan => "panscan",
            MpvProperty::VideoUnscaled => "video-unscaled",
            MpvProperty::VideoZoom => "video-zoom",
            MpvProperty::Vid => "vid",
            MpvProperty::Aid => "aid",
            MpvProperty::Sid => "sid",
        }
    }
}

/// A value for a property.
#[derive(Debug)]
pub enum MpvValue {
    Text(String),
    Flag(bool),
    Integer(i64),
    Number(Double),
    /// A number in seconds, given in milliseconds.
    Milliseconds(u32),
    /// A number in percent, given as a fraction.
    Percent(Double),
    /// A start position: a plus sign and the seconds with three decimals.
    Offset(Double),
    /// The binary logarithm of a factor.
    Log2(Double),
}

/// What an [`MpvValue`] says.
pub enum Value {
    Text(Seq<char>),
    Flag(bool),
    Integer(i64),
    Number(Double),
    Milliseconds(u32),
    Percent(Double),
    Offset(Double),
    Log2(Double),
}

impl View for MpvValue {
    type V = Value;

    open spec fn view(&self) -> Value {
        match self {
            MpvValue::Text(text) => Value::Text(text@),
            MpvValue::Flag(flag) => Value::Flag(*flag),
            MpvValue::Integer(number) => Value::Integer(*number),
            MpvValue::Number(number) => Value::Number(*number),
            MpvValue::Milliseconds(number) => Value::Milliseconds(*number),
            MpvValue::Percent(fraction) => Value::Percent(*fraction),
            MpvValue::Offset(seconds) => Value::Offset(*seconds),
            MpvValue::Log2(factor) => Value::Log2(*factor),
        }
    }
}

/// A call on the engine or its widget.
#[derive(Debug)]
pub enum MpvCall {
    Stop,
    SetProperty(MpvProperty, MpvValue),
    /// Load a source in place of the one that plays.
    LoadFile(String),
    /// Play on exactly at this many seconds.
    Seek(Double),
    PlaceWidget,
    HideWidget,
}

/// What an [`MpvCall`] says.
pub enum Call {
    Stop,
    SetProperty(MpvProperty, Value),
    LoadFile(Seq<char>),
    Seek(Double),
    PlaceWidget,
    HideWidget,
}

impl View for MpvCall {
    type V = Call;

    open spec fn view(&self) -> Call {
        match self {
            MpvCall::Stop => Call::Stop,
            MpvCall::SetProperty(property, value) => Call::SetProperty(*property, value@),
            MpvCall::LoadFile(uri) => Call::LoadFile(uri@),
            MpvCall::Seek(seconds) => Call::Seek(*seconds),
            MpvCall::PlaceWidget => Call::PlaceWidget,
            MpvCall::HideWidget => Call::HideWidget,
        }
    }
}

/// What each call says.
pub open spec fn calls(list: Seq<MpvCall>) -> Seq<Call> {
    list.map_values(|call: MpvCall| call@)
}

/// Adds the setting of a property to a list.
fn push_property(list: &mut Vec<MpvCall>, property: MpvProperty, value: MpvValue)
    ensures
        calls(final(list)@) == calls(old(list)@).push(Call::SetProperty(property, value@)),
{
    let ghost earlier = calls(list@);
    let ghost said = value@;
    list.push(MpvCall::SetProperty(property, value));
    assert(calls(list@) =~= earlier.push(Call::SetProperty(property, said)));
}

/// An option of the engine before it starts.
#[derive(Debug)]
pub struct EngineOption {
    pub name: &'static str,
    pub value: MpvValue,
}

/// What each option says.
pub open spec fn options(list: Seq<EngineOption>) -> Seq<(Seq<char>, Value)> {
    list.map_values(|option: EngineOption| (option.name@, option.value@))
}

/// The options with which the engine starts. It renders on the thread of the
/// user interface, so it must not wait there for the time of a frame; and it
/// brings no controls of its own.
pub open spec fn engine_options() -> Seq<(Seq<char>, Value)> {
    seq![
        ("vo"@, Value::Text("libmpv"@)),
        ("hwdec"@, Value::Text("auto-safe"@)),
        ("gpu-api"@, Value::Text("opengl"@)),
        ("video-timing-offset"@, Value::Number(Double { bits: 0 })),
        ("keep-open"@, Value::Text("yes"@)),
        ("osc"@, Value::Text("no"@)),
        ("osd-level"@, Value::Text("0"@)),
        ("input-default-bindings"@, Value::Text("no"@)),
        ("cache"@, Value::Text("yes"@)),
    ]
}

fn text_option(name: &'static str, value: &str) -> (option: EngineOption)
    ensures
        option.name@ == name@,
        option.value@ == Value::Text(value@),
{
    EngineOption { name, value: MpvValue::Text(value.to_owned()) }
}

/// A call on an engine that has just started.
#[derive(Clone, Copy, Debug, PartialEq, Eq, Structural)]
pub enum EngineCall {
    DisableDeprecatedEvents,
    DisableTickEvent,
}

/// The calls on an engine that has just started, in order: it is not to report
/// what is deprecated, nor every tick.
pub open spec fn engine_calls() -> Seq<EngineCall> {
    seq![EngineCall::DisableDeprecatedEvents, EngineCall::DisableTickEvent]
}

/// How the engine is made.
#[derive(Debug)]
pub struct EngineSetup {
    /// Set before the engine starts.
    pub options: Vec<EngineOption>,
    /// Made once it has started.
    pub calls: Vec<EngineCall>,
}

/// How the engine is made: its options, and then the calls on it.
pub fn create_engine() -> (setup: EngineSetup)
    ensures
        options(setup.options@) == engine_options(),
        setup.calls@ == engine_calls(),
{
    let mut list: Vec<EngineOption> = Vec::new();
    list.push(text_option("vo", "libmpv"));
    list.push(text_option("hwdec", "auto-safe"));
    list.push(text_option("gpu-api", "opengl"));
    list.push(
        EngineOption {
            name: "video-timing-offset",
            value: MpvValue::Number(Double::zero()),
        },
    );
    list.push(text_option("keep-open", "yes"));
    list.push(text_option("osc", "no"));
    list.push(text_option("osd-level", "0"));
    list.push(text_option("input-default-bindings", "no"));
    list.push(text_option("cache", "yes"));
    assert(options(list@) =~= engine_options());
    let mut calls: Vec<EngineCall> = Vec::new();
    calls.push(EngineCall::DisableDeprecatedEvents);
    calls.push(EngineCall::DisableTickEvent);
    assert(calls@ =~= engine_calls());
    EngineSetup { options: list, calls }
}

/// The buffering that the engine starts with.
#[derive(Clone, Copy, Debug, PartialEq, Eq, Structural)]
pub struct MpvBufferDefaults {
    pub cache_seconds: Double,
    pub readahead_seconds: Double,
    pub forward_bytes: i64,
    pub backward_bytes: i64,
    pub donate_buffer: bool,
    pub hysteresis_seconds: Double,
}

/// What the engine says about its buffering.
#[derive(Clone, Copy, Debug, PartialEq, Eq, Structural)]
pub struct BufferReadings {
    pub cache_seconds: Option<Double>,
    pub readahead_seconds: Option<Double>,
    pub forward_bytes: Option<i64>,
    pub backward_bytes: Option<i64>,
    pub donate_buffer: Option<bool>,
    pub hysteresis_seconds: Option<Double>,
}

impl MpvBufferDefaults {
    /// The buffering behind what the engine says.
    pub open spec fn said(readings: BufferReadings) -> MpvBufferDefaults {
        MpvBufferDefaults {
            cache_seconds: readings.cache_seconds.unwrap_or(
                Double { bits: 0x414b_7740_0000_0000 },
            ),
            readahead_seconds: readings.readahead_seconds.unwrap_or(
                Double { bits: 0x3ff0_0000_0000_0000 },
            ),
            forward_bytes: readings.forward_bytes.unwrap_or(157_286_400),
            backward_bytes: readings.backward_bytes.unwrap_or(52_428_800),
            donate_buffer: readings.donate_buffer.unwrap_or(true),
            hysteresis_seconds: readings.hysteresis_seconds.unwrap_or(Double { bits: 0 }),
        }
    }

    /// Keeps what the engine says; where it says nothing, a thousand hours of
    /// cache, a second ahead, 150 MiB forward, 50 MiB backward, a
    /// donated buffer and no hysteresis.
    pub fn read(readings: BufferReadings) -> (defaults: MpvBufferDefaults)
        ensures
            defaults == MpvBufferDefaults::said(readings),
    {
        MpvBufferDefaults {
            cache_seconds: readings.cache_seconds.unwrap_or(
                Double { bits: 0x414b_7740_0000_0000 },
            ),
            readahead_seconds: readings.readahead_seconds.unwrap_or(Double::one()),
            forward_bytes: readings.forward_bytes.unwrap_or(157_286_400),
            backward_bytes: readings.backward_bytes.unwrap_or(52_428_800),
            donate_buffer: readings.donate_buffer.unwrap_or(true),
            hysteresis_seconds: readings.hysteresis_seconds.unwrap_or(Double::zero()),
        }
    }
}

/// The error of a call on the engine.
pub fn mpv_error(detail: &str) -> (error: Error)
    ensures
        error@ == engine_failure(detail@),
{
    Error::Pipeline(text::join("mpv backend: ", detail))
}

/// The failure of a call on the engine.
pub open spec fn engine_failure(detail: Seq<char>) -> Failure {
    Failure::Pipeline("mpv backend: "@ + detail)
}

/// The headers of a request, with its cookies and its referrer in place of
/// headers of these names.
pub open spec fn request_headers(payload: NativeOpenRequest) -> Seq<Entry> {
    let own = payload.headers@;
    let with_cookies = match models::present(payload.cookies) {
        Some(value) => ordered::with_entry(own, "Cookie"@, value),
        None => own,
    };
    match models::present(payload.referrer) {
        Some(value) => ordered::with_entry(with_cookies, "Referer"@, value),
        None => with_cookies,
    }
}

/// Each header as one line.
pub open spec fn header_lines(headers: Seq<Entry>) -> Seq<Seq<char>> {
    headers.map_values(|entry: Entry| entry.0 + ": "@ + entry.1)
}

/// The calls that prepare the engine for the network.
pub open spec fn network_calls(payload: NativeOpenRequest) -> Seq<Call> {
    seq![
        Call::SetProperty(
            MpvProperty::HttpHeaderFields,
            Value::Text(list::encoded_list(header_lines(request_headers(payload)))),
        ),
        Call::SetProperty(
            MpvProperty::UserAgent,
            Value::Text(models::text_or(payload.user_agent, "tauri-plugin-video"@)),
        ),
        Call::SetProperty(
            MpvProperty::TlsCaFile,
            Value::Text(models::text_or(payload.tls_ca_file, Seq::empty())),
        ),
    ]
}

/// Each header as one line.
fn lines(headers: &NameMap) -> (list: Vec<String>)
    ensures
        ordered::texts(list@) == header_lines(headers@),
{
    let mut list: Vec<String> = Vec::new();
    let count = headers.len();
    let mut i: usize = 0;
    while i < count
        invariant
            i <= count,
            count == headers@.len(),
            ordered::texts(list@) == header_lines(headers@).take(i as int),
        decreases count - i,
    {
        let ghost earlier = ordered::texts(list@);
        list.push(text::enclose(headers.name(i), ": ", headers.value(i)));
        assert(ordered::texts(list@) =~= earlier.push(header_lines(headers@)[i as int]));
        assert(header_lines(headers@).take(i + 1) =~= header_lines(headers@).take(i as int).push(
            header_lines(headers@)[i as int],
        ));
        i = i + 1;
    }
    assert(header_lines(headers@).take(i as int) =~= header_lines(headers@));
    list
}

/// The headers of a request.
fn collect_headers(payload: &NativeOpenRequest) -> (headers: NameMap)
    ensures
        headers@ == request_headers(*payload),
{
    let mut headers = payload.headers.clone();
    if let Some(value) = &payload.cookies {
        if !value.as_str().is_empty() {
            headers.insert("Cookie".to_owned(), value.clone());
        }
    }
    if let Some(value) = &payload.referrer {
        if !value.as_str().is_empty() {
            headers.insert("Referer".to_owned(), value.clone());
        }
    }
    headers
}

/// Prepares the engine for the network.
fn configure_network(list: &mut Vec<MpvCall>, payload: &NativeOpenRequest)
    ensures
        calls(final(list)@) == calls(old(list)@) + network_calls(*payload),
{
    let ghost earlier = calls(list@);
    let headers = collect_headers(payload);
    let encoded = encode_mpv_list(&lines(&headers));
    proof {
        reveal_strlit("");
        assert(""@ =~= Seq::empty());
    }
    push_property(list, MpvProperty::HttpHeaderFields, MpvValue::Text(encoded));
    push_property(
        list,
        MpvProperty::UserAgent,
        MpvValue::Text(models::copy_or(&payload.user_agent, "tauri-plugin-video")),
    );
    push_property(
        list,
        MpvProperty::TlsCaFile,
        MpvValue::Text(models::copy_or(&payload.tls_ca_file, "")),
    );
    assert(calls(list@) =~= earlier + network_calls(*payload));
}

/// The least that may be buffered when a size is asked for, in bytes.
pub const LEAST_BUFFER_BYTES: u64 = 8_388_608;

/// The most that may be buffered, in bytes.
pub const MOST_BUFFER_BYTES: u64 = 9_223_372_036_854_775_807;

/// The least that is kept behind the position, in bytes.
pub const LEAST_BACKWARD_BYTES: u64 = 4_194_304;

/// The most that is kept behind the position, in bytes.
pub const MOST_BACKWARD_BYTES: u64 = 16_777_216;

/// A number held between two others.
pub open spec fn held(value: u64, least: u64, most: u64) -> u64 {
    if value < least {
        least
    } else if value > most {
        most
    } else {
        value
    }
}

fn hold(value: u64, least: u64, most: u64) -> (result: u64)
    ensures
        result == held(value, least, most),
{
    if value < least {
        least
    } else if value > most {
        most
    } else {
        value
    }
}

/// How many bytes are buffered in all when `requested` are asked for.
pub open spec fn total_bytes(requested: u64) -> u64 {
    held(requested, LEAST_BUFFER_BYTES, MOST_BUFFER_BYTES)
}

/// How many of them are kept behind the position: a quarter, between the
/// least and the most, but never more than half.
pub open spec fn backward_bytes(requested: u64) -> u64 {
    let total = total_bytes(requested);
    let quarter = held(total / 4, LEAST_BACKWARD_BYTES, MOST_BACKWARD_BYTES);
    if quarter > total / 2 { total / 2 } else { quarter }
}

/// The two parts of a buffer make up the whole, and at least half of it lies
/// ahead.
pub proof fn buffer_parts_add_up(requested: u64)
    ensures
        backward_bytes(requested) <= total_bytes(requested) - backward_bytes(requested),
        LEAST_BACKWARD_BYTES <= backward_bytes(requested) <= MOST_BACKWARD_BYTES,
        total_bytes(requested) <= i64::MAX,
        LEAST_BUFFER_BYTES <= requested <= MOST_BUFFER_BYTES ==> total_bytes(requested)
            == requested,
{
}

/// The calls that set the buffering: as asked for, otherwise as the engine
/// started with.
pub open spec fn buffer_calls(defaults: MpvBufferDefaults, payload: NativeOpenRequest) -> Seq<Call> {
    let time = |standard: Double|
        match payload.max_buffer_ms {
            Some(milliseconds) => Value::Milliseconds(
                held(milliseconds as u64, 3_000, 120_000) as u32,
            ),
            None => Value::Number(standard),
        };
    let (forward, backward, donate) = match payload.target_buffer_bytes {
        Some(requested) => (
            (total_bytes(requested) - backward_bytes(requested)) as i64,
            backward_bytes(requested) as i64,
            false,
        ),
        None => (defaults.forward_bytes, defaults.backward_bytes, defaults.donate_buffer),
    };
    seq![
        Call::SetProperty(MpvProperty::CacheSecs, time(defaults.cache_seconds)),
        Call::SetProperty(MpvProperty::DemuxerReadaheadSecs, time(defaults.readahead_seconds)),
        Call::SetProperty(MpvProperty::DemuxerMaxBytes, Value::Integer(forward)),
        Call::SetProperty(MpvProperty::DemuxerMaxBackBytes, Value::Integer(backward)),
        Call::SetProperty(MpvProperty::DemuxerDonateBuffer, Value::Flag(donate)),
        Call::SetProperty(
            MpvProperty::DemuxerHysteresisSecs,
            Value::Number(defaults.hysteresis_seconds),
        ),
    ]
}

fn buffer_time(requested: Option<u32>, standard: Double) -> (value: MpvValue)
    ensures
        value@ == match requested {
            Some(milliseconds) => Value::Milliseconds(
                held(milliseconds as u64, 3_000, 120_000) as u32,
            ),
            None => Value::Number(standard),
        },
{
    match requested {
        Some(milliseconds) => MpvValue::Milliseconds(
            hold(milliseconds as u64, 3_000, 120_000) as u32,
        ),
        None => MpvValue::Number(standard),
    }
}

/// Sets the buffering.
fn configure_buffer(
    list: &mut Vec<MpvCall>,
    defaults: MpvBufferDefaults,
    payload: &NativeOpenRequest,
)
    ensures
        calls(final(list)@) == calls(old(list)@) + buffer_calls(defaults, *payload),
{
    let ghost earlier = calls(list@);
    let (forward, backward, donate) = match payload.target_buffer_bytes {
        Some(requested) => {
            let total = hold(requested, LEAST_BUFFER_BYTES, MOST_BUFFER_BYTES);
            let quarter = hold(total / 4, LEAST_BACKWARD_BYTES, MOST_BACKWARD_BYTES);
            let backward: u64 = if quarter > total / 2 {
                total / 2
            } else {
                quarter
            };
            ((total - backward) as i64, backward as i64, false)
        },
        None => (defaults.forward_bytes, defaults.backward_bytes, defaults.donate_buffer),
    };
    push_property(
        list,
        MpvProperty::CacheSecs,
        buffer_time(payload.max_buffer_ms, defaults.cache_seconds),
    );
    push_property(
        list,
        MpvProperty::DemuxerReadaheadSecs,
        buffer_time(payload.max_buffer_ms, defaults.readahead_seconds),
    );
    push_property(list, MpvProperty::DemuxerMaxBytes, MpvValue::Integer(forward));
    push_property(list, MpvProperty::DemuxerMaxBackBytes, MpvValue::Integer(backward));
    push_property(list, MpvProperty::DemuxerDonateBuffer, MpvValue::Flag(donate));
    push_property(
        list,
        MpvProperty::DemuxerHysteresisSecs,
        MpvValue::Number(defaults.hysteresis_seconds),
    );
    assert(calls(list@) =~= earlier + buffer_calls(defaults, *payload));
}

/// Which track of the engine a listed track is.
#[derive(Clone, Copy, Debug, PartialEq, Eq, Structural)]
pub struct TrackTarget {
    pub public_index: i32,
    pub mpv_id: i64,
    pub kind: TrackKind,
}

/// How often the layout was committed since it was last reported.
#[derive(Clone, Copy, Debug, PartialEq, Eq, Structural)]
pub struct LayoutMeter {
    pub commits: u64,
    /// In nanoseconds of a monotonic clock.
    pub sample_at: u64,
}

/// A player on the engine.
pub struct MpvPlayer {
    /// The session that the open source belongs to; empty while parked.
    pub session_key: String,
    pub meter: FrameMeter,
    pub layout: LayoutMeter,
    pub tracks: Vec<NativeTrackInfo>,
    pub track_targets: Vec<TrackTarget>,
    /// Whether the tracks are to be read again.
    pub tracks_dirty: bool,
    pub default_buffer: MpvBufferDefaults,
}

/// What an [`MpvPlayer`] holds.
pub struct Player {
    pub session_key: Seq<char>,
    pub meter: FrameMeter,
    pub layout: LayoutMeter,
    pub tracks: Seq<Track>,
    pub track_targets: Seq<TrackTarget>,
    pub tracks_dirty: bool,
    pub default_buffer: MpvBufferDefaults,
}

impl View for MpvPlayer {
    type V = Player;

    open spec fn view(&self) -> Player {
        Player {
            session_key: self.session_key@,
            meter: self.meter,
            layout: self.layout,
            tracks: models::tracks(self.tracks@),
            track_targets: self.track_targets@,
            tracks_dirty: self.tracks_dirty,
            default_buffer: self.default_buffer,
        }
    }
}

/// What a player slot holds.
pub open spec fn in_slot(slot: Option<MpvPlayer>) -> Option<Player> {
    match slot {
        Some(player) => Some(player@),
        None => None,
    }
}

/// What the render callback leaves behind.
pub struct RenderLog {
    pub presented_frames: u64,
    pub error: Option<String>,
}

impl RenderLog {
    /// Nothing rendered yet.
    pub fn new() -> (log: RenderLog)
        ensures
            log.presented_frames == 0,
            log.error is None,
    {
        RenderLog { presented_frames: 0, error: None }
    }

    /// Counts a frame, or keeps the error of one.
    pub fn rendered(&mut self, outcome: Result<(), String>)
        ensures
            match outcome {
                Ok(_) => final(self).error == old(self).error && final(self).presented_frames == (
                if old(self).presented_frames < u64::MAX {
                    old(self).presented_frames + 1
                } else {
                    u64::MAX as int
                }),
                Err(detail) => final(self).error == Some(detail) && final(self).presented_frames
                    == old(self).presented_frames,
            },
    {
        match outcome {
            Ok(_) => {
                self.presented_frames = self.presented_frames.saturating_add(1);
            },
            Err(detail) => {
                self.error = Some(detail);
            },
        }
    }
}

/// One side of the picture in device pixels.
pub open spec fn device_pixels(allocated: i32, scale: i32) -> int {
    let product = (if allocated > 1 { allocated as int } else { 1 }) * (if scale > 1 {
        scale as int
    } else {
        1
    });
    if product > i32::MAX { i32::MAX as int } else { product }
}

/// One side of the picture in device pixels: what is allocated, at least one,
/// times the scale, at least one, as far as it can be counted.
pub fn device_size(allocated: i32, scale: i32) -> (pixels: i32)
    ensures
        pixels == device_pixels(allocated, scale),
        pixels >= 1,
{
    let points: i64 = if allocated > 1 {
        allocated as i64
    } else {
        1
    };
    let factor: i64 = if scale > 1 {
        scale as i64
    } else {
        1
    };
    assert(1 <= points * factor <= 0x7fff_ffff * 0x7fff_ffff) by (nonlinear_arith)
        requires
            1 <= points <= 0x7fff_ffff,
            1 <= factor <= 0x7fff_ffff,
    ;
    let product: i64 = points * factor;
    if product > i32::MAX as i64 {
        i32::MAX
    } else {
        product as i32
    }
}

/// The steps of opening a source.
pub fn open(slot: &Option<MpvPlayer>) -> (steps: Vec<OpenStep>)
    ensures
        steps@ == desktop::opening(slot is Some),
{
    let mut steps: Vec<OpenStep> = Vec::new();
    desktop::push_opening(&mut steps, slot.is_some());
    assert(steps@ =~= desktop::opening(slot is Some));
    steps
}

/// Keeps a new player when its first snapshot succeeded.
pub fn opened(
    slot: &mut Option<MpvPlayer>,
    player: MpvPlayer,
    snapshot: Result<NativePlaybackSnapshot, Error>,
) -> (result: Result<NativePlaybackSnapshot, Error>)
    ensures
        result == snapshot,
        *final(slot) == if snapshot is Ok { Some(player) } else { *old(slot) },
{
    if snapshot.is_ok() {
        *slot = Some(player);
    }
    snapshot
}

/// A step on the way to a player.
#[derive(Clone, Copy, Debug, PartialEq, Eq, Structural)]
pub enum CreateStep {
    /// The engine reads numbers by the numeric locale of the process, which
    /// has to be the one of C before the engine exists.
    SelectNumericLocale,
    MakeArea {
        auto_render: bool,
        alpha: bool,
        depth_buffer: bool,
        stencil_buffer: bool,
        embedded_gl: bool,
        major: i32,
        minor: i32,
    },
    PlaceWidget,
    RealizeArea,
    StartEngine,
    ReadBuffering,
    MakeRenderContext,
    ConnectUpdates,
    ConnectRender,
    /// Ask for the first frame, so that the engine does not wait for a
    /// consumer that came too late for its first notice.
    QueueRender,
}

/// All steps to a player, in order.
pub open spec fn creation() -> Seq<CreateStep> {
    seq![
        CreateStep::SelectNumericLocale,
        CreateStep::MakeArea {
            auto_render: false,
            alpha: false,
            depth_buffer: false,
            stencil_buffer: false,
            embedded_gl: false,
            major: 3,
            minor: 2,
        },
        CreateStep::PlaceWidget,
        CreateStep::RealizeArea,
        CreateStep::StartEngine,
        CreateStep::ReadBuffering,
        CreateStep::MakeRenderContext,
        CreateStep::ConnectUpdates,
        CreateStep::ConnectRender,
        CreateStep::QueueRender,
    ]
}

/// The steps to a player. Its source is loaded behind them.
pub fn creation_steps() -> (steps: Vec<CreateStep>)
    ensures
        steps@ == creation(),
{
    let mut steps: Vec<CreateStep> = Vec::new();
    steps.push(CreateStep::SelectNumericLocale);
    steps.push(
        CreateStep::MakeArea {
            auto_render: false,
            alpha: false,
            depth_buffer: false,
            stencil_buffer: false,
            embedded_gl: false,
            major: 3,
            minor: 2,
        },
    );
    steps.push(CreateStep::PlaceWidget);
    steps.push(CreateStep::RealizeArea);
    steps.push(CreateStep::StartEngine);
    steps.push(CreateStep::ReadBuffering);
    steps.push(CreateStep::MakeRenderContext);
    steps.push(CreateStep::ConnectUpdates);
    steps.push(CreateStep::ConnectRender);
    steps.push(CreateStep::QueueRender);
    assert(steps@ =~= creation());
    steps
}

/// The failure of a step to a player.
pub open spec fn creation_failure(step: CreateStep, detail: Seq<char>) -> Failure {
    match step {
        CreateStep::SelectNumericLocale => Failure::Pipeline(
            "mpv backend could not select the required C numeric locale"@,
        ),
        CreateStep::RealizeArea => Failure::Pipeline(
            "could not create the mpv OpenGL surface: "@ + detail,
        ),
        CreateStep::PlaceWidget => Failure::Pipeline(detail),
        _ => engine_failure(detail),
    }
}

/// The error of a step to a player, from what the native side said.
pub fn creation_error(step: CreateStep, detail: &str) -> (error: Error)
    ensures
        error@ == creation_failure(step, detail@),
{
    match step {
        CreateStep::SelectNumericLocale => Error::pipeline(
            "mpv backend could not select the required C numeric locale",
        ),
        CreateStep::RealizeArea => Error::Pipeline(
            text::join("could not create the mpv OpenGL surface: ", detail),
        ),
        CreateStep::PlaceWidget => Error::pipeline(detail),
        _ => mpv_error(detail),
    }
}

/// The player before its source is loaded.
pub open spec fn created(default_buffer: MpvBufferDefaults, now: u64) -> Player {
    Player {
        session_key: Seq::empty(),
        meter: FrameMeter {
            last_frames: 0,
            last_sample_at: now,
            measured: meter::nothing_measured(),
        },
        layout: LayoutMeter { commits: 0, sample_at: now },
        tracks: Seq::empty(),
        track_targets: Seq::empty(),
        tracks_dirty: true,
        default_buffer,
    }
}

/// A player without a source.
pub fn create_player(default_buffer: MpvBufferDefaults, now: u64) -> (player: MpvPlayer)
    ensures
        player@ == created(default_buffer, now),
{
    let player = MpvPlayer {
        session_key: String::new(),
        meter: FrameMeter::new(0, now),
        layout: LayoutMeter { commits: 0, sample_at: now },
        tracks: Vec::new(),
        track_targets: Vec::new(),
        tracks_dirty: true,
        default_buffer,
    };
    assert(player@.tracks =~= Seq::empty());
    player
}

/// The calls that load a source. It starts at the position that was asked
/// for: a seek behind the start would let the beginning be seen and heard.
pub open spec fn source_calls(defaults: MpvBufferDefaults, payload: NativeOpenRequest) -> Seq<Call> {
    let zero = Double { bits: 0 };
    let volume = if payload.muted {
        zero
    } else {
        payload.volume.clamp_spec(zero, Double { bits: 0x3ff0_0000_0000_0000 })
    };
    seq![Call::Stop] + network_calls(payload) + buffer_calls(defaults, payload) + seq![
        Call::SetProperty(MpvProperty::Volume, Value::Percent(volume)),
        Call::SetProperty(
            MpvProperty::Start,
            Value::Offset(payload.start_at_seconds.max_spec(zero)),
        ),
        Call::SetProperty(MpvProperty::Pause, Value::Flag(!payload.autoplay)),
        Call::LoadFile(payload.uri@),
        Call::PlaceWidget,
    ]
}

/// How far the loading of a source has come.
#[derive(Debug)]
pub struct Loading {
    pub calls: Vec<MpvCall>,
    /// How many of the calls have succeeded.
    pub taken: usize,
}

impl Loading {
    /// The call that is to be made next; `None` when the source is loaded.
    pub fn next(&self) -> (call: Option<&MpvCall>)
        ensures
            match call {
                Some(call) => self.taken < self.calls@.len() && *call
                    == self.calls@[self.taken as int],
                None => self.taken >= self.calls@.len(),
            },
    {
        if self.taken < self.calls.len() {
            Some(&self.calls[self.taken])
        } else {
            None
        }
    }
}

/// Starts to load a source.
pub fn load_source(player: &MpvPlayer, payload: &NativeOpenRequest) -> (loading: Loading)
    ensures
        calls(loading.calls@) == source_calls(player.default_buffer, *payload),
        loading.taken == 0,
{
    let mut list: Vec<MpvCall> = Vec::new();
    list.push(MpvCall::Stop);
    assert(calls(list@) =~= seq![Call::Stop]);
    configure_network(&mut list, payload);
    configure_buffer(&mut list, player.default_buffer, payload);
    let volume = if payload.muted {
        Double::zero()
    } else {
        payload.volume.clamp(Double::zero(), Double::one())
    };
    push_property(&mut list, MpvProperty::Volume, MpvValue::Percent(volume));
    push_property(
        &mut list,
        MpvProperty::Start,
        MpvValue::Offset(payload.start_at_seconds.max(Double::zero())),
    );
    push_property(&mut list, MpvProperty::Pause, MpvValue::Flag(!payload.autoplay));
    let ghost earlier = calls(list@);
    list.push(MpvCall::LoadFile(payload.uri.clone()));
    list.push(MpvCall::PlaceWidget);
    assert(calls(list@) =~= earlier.push(Call::LoadFile(payload.uri@)).push(Call::PlaceWidget));
    assert(calls(list@) =~= source_calls(player.default_buffer, *payload));
    Loading { calls: list, taken: 0 }
}

/// The player once its source is loaded.
pub open spec fn loaded(player: Player, payload: NativeOpenRequest, presented: u64, now: u64) -> Player {
    Player {
        session_key: payload.session_key@,
        meter: FrameMeter {
            last_frames: presented,
            last_sample_at: now,
            measured: meter::nothing_measured(),
        },
        ..created(player.default_buffer, now)
    }
}

/// Takes note of how the next call of the loading went. A failed one ends the
/// loading, and the player stays as it is; behind the last one the session is
/// taken over and a redraw asked for. Says whether the redraw has to be ordered
/// now.
pub fn load_call_done(
    loading: &mut Loading,
    player: &mut MpvPlayer,
    log: &mut RenderLog,
    redraw: &mut Latch,
    payload: &NativeOpenRequest,
    outcome: Result<(), Error>,
    now: u64,
) -> (result: Result<bool, Error>)
    requires
        old(loading).taken < old(loading).calls@.len(),
    ensures
        match outcome {
            Ok(_) => result is Ok,
            Err(error) => result == Err::<bool, Error>(error),
        },
        final(loading).calls@ == old(loading).calls@,
        final(loading).taken == if outcome is Ok { old(loading).taken + 1 } else {
            old(loading).taken as int
        },
        final(log).presented_frames == old(log).presented_frames,
        if outcome is Ok && old(loading).taken + 1 == old(loading).calls@.len() {
            &&& final(player)@ == loaded(old(player)@, *payload, old(log).presented_frames, now)
            &&& final(log).error is None
            &&& old(redraw).asked(*final(redraw), result->Ok_0)
        } else {
            &&& final(player)@ == old(player)@
            &&& final(log).error == old(log).error
            &&& *final(redraw) == *old(redraw)
            &&& outcome is Ok ==> result == Ok::<bool, Error>(false)
        },
{
    if let Err(error) = outcome {
        return Err(error);
    }
    let count: usize = loading.calls.len();
    loading.taken = loading.taken + 1;
    if loading.taken < count {
        return Ok(false);
    }
    player.session_key = payload.session_key.clone();
    player.tracks = Vec::new();
    player.track_targets = Vec::new();
    player.tracks_dirty = true;
    log.error = None;
    player.meter = FrameMeter::new(log.presented_frames, now);
    player.layout = LayoutMeter { commits: 0, sample_at: now };
    assert(player@.tracks =~= Seq::empty());
    assert(player@.track_targets =~= Seq::empty());
    Ok(session::redraw_ordered(redraw))
}

} // verus!
