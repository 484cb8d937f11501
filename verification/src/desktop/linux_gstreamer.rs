//! The GStreamer engine: what it is told, and what its answers mean.
use crate::desktop;
use crate::desktop::OpenStep;
use crate::double::Double;
use crate::error;
use crate::error::Error;
use crate::error::Failure;
use crate::meter;
use crate::meter::FrameMeter;
use crate::models;
use crate::models::NativeOpenRequest;
use crate::models::NativePlaybackSnapshot;
use crate::models::NativeTrackInfo;
use crate::models::Track;
use crate::ordered;
use crate::ordered::Entry;
use crate::ordered::NameMap;
use crate::ordered::NameSet;
use crate::text;
use vstd::prelude::*;

pub mod laws;
pub mod reports;
pub mod requests;
pub mod session;

verus! {

/// The state of a pipeline.
#[derive(Clone, Copy, Debug, PartialEq, Eq, Structural)]
pub enum EngineState {
    VoidPending,
    Null,
    Ready,
    Paused,
    Playing,
}

/// How a state is written in messages.
pub open spec fn state_name(state: EngineState) -> Seq<char> {
    match state {
        EngineState::VoidPending => "VoidPending"@,
        EngineState::Null => "Null"@,
        EngineState::Ready => "Ready"@,
        EngineState::Paused => "Paused"@,
        EngineState::Playing => "Playing"@,
    }
}

fn state_text(state: EngineState) -> (name: &'static str)
    ensures
        name@ == state_name(state),
{
    match state {
        EngineState::VoidPending => "VoidPending",
        EngineState::Null => "Null",
        EngineState::Ready => "Ready",
        EngineState::Paused => "Paused",
        EngineState::Playing => "Playing",
    }
}

/// A player on a pipeline.
pub struct NativePlayer {
    /// The session that the open source belongs to; empty while parked.
    pub session_key: String,
    pub buffering_percent: i32,
    pub buffer_duration_ms: Option<u32>,
    pub target_buffer_bytes: Option<u64>,
    pub desired_playing: bool,
    pub error: Option<String>,
    pub meter: FrameMeter,
    pub tracks: Vec<NativeTrackInfo>,
    pub selected_streams: NameSet,
}

/// What a [`NativePlayer`] holds.
pub struct Player {
    pub session_key: Seq<char>,
    pub buffering_percent: i32,
    pub buffer_duration_ms: Option<u32>,
    pub target_buffer_bytes: Option<u64>,
    pub desired_playing: bool,
    pub error: Option<Seq<char>>,
    pub meter: FrameMeter,
    pub tracks: Seq<Track>,
    pub selected: Seq<Seq<char>>,
}

impl View for NativePlayer {
    type V = Player;

    open spec fn view(&self) -> Player {
        Player {
            session_key: self.session_key@,
            buffering_percent: self.buffering_percent,
            buffer_duration_ms: self.buffer_duration_ms,
            target_buffer_bytes: self.target_buffer_bytes,
            desired_playing: self.desired_playing,
            error: models::optional(self.error),
            meter: self.meter,
            tracks: models::tracks(self.tracks@),
            selected: self.selected_streams@,
        }
    }
}

/// What a player slot holds.
pub open spec fn in_slot(slot: Option<NativePlayer>) -> Option<Player> {
    match slot {
        Some(player) => Some(player@),
        None => None,
    }
}

/// Whether the GStreamer library was initialised in this process.
pub enum GstInit {
    Untried,
    Ready,
    Failed(String),
}

impl GstInit {
    /// Whether the library is still to be initialised.
    pub fn untried(&self) -> (untried: bool)
        ensures
            untried == (self is Untried),
    {
        match self {
            GstInit::Untried => true,
            _ => false,
        }
    }
}

/// Answers for the initialisation. The first attempt decides for all later
/// requests, which `attempt` does not matter for.
pub fn initialize_gstreamer(init: &mut GstInit, attempt: Result<(), String>) -> (result: Result<
    (),
    Error,
>)
    ensures
        *final(init) == match *old(init) {
            GstInit::Untried => match attempt {
                Ok(_) => GstInit::Ready,
                Err(detail) => GstInit::Failed(detail),
            },
            decided => decided,
        },
        match *final(init) {
            GstInit::Failed(detail) => error::fails(result, Failure::RuntimeUnavailable(detail@)),
            _ => result is Ok,
        },
{
    if init.untried() {
        *init = match attempt {
            Ok(_) => GstInit::Ready,
            Err(detail) => GstInit::Failed(detail),
        };
    }
    match init {
        GstInit::Failed(detail) => Err(Error::RuntimeUnavailable(detail.clone())),
        _ => Ok(()),
    }
}

/// The steps of opening a source: the library comes first.
pub fn open(slot: &Option<NativePlayer>) -> (steps: Vec<OpenStep>)
    ensures
        steps@ == seq![OpenStep::InitializeLibrary] + desktop::opening(slot is Some),
{
    let mut steps: Vec<OpenStep> = Vec::new();
    steps.push(OpenStep::InitializeLibrary);
    assert(steps@ =~= seq![OpenStep::InitializeLibrary]);
    desktop::push_opening(&mut steps, slot.is_some());
    steps
}

/// Keeps a new player when its first snapshot succeeded.
pub fn opened(
    slot: &mut Option<NativePlayer>,
    player: NativePlayer,
    snapshot: Result<NativePlaybackSnapshot, Error>,
) -> (result: Result<NativePlaybackSnapshot, Error>)
    ensures
        result == snapshot,
        *final(slot) == if snapshot is Ok { Some(player) } else { *old(slot) },
{
    if snapshot.is_ok() {
        *slot = Some(player);
    }
    snapshot
}

/// Which settings a source element knows.
#[derive(Clone, Copy, Debug, PartialEq, Eq, Structural)]
pub struct SourceProperties {
    pub user_agent: bool,
    pub timeout: bool,
    pub cookies: bool,
    pub tls_database: bool,
    pub ssl_ca_file: bool,
    pub extra_headers: bool,
}

/// A setting for a source element.
#[derive(Debug)]
pub enum SourceSetting {
    UserAgent(String),
    /// In seconds.
    Timeout(u32),
    Cookies(String),
    /// A certificate file to load as a database.
    TlsDatabase(String),
    SslCaFile(String),
    ExtraHeaders(Vec<(String, String)>),
}

/// What a [`SourceSetting`] says.
pub enum Setting {
    UserAgent(Seq<char>),
    Timeout(u32),
    Cookies(Seq<char>),
    TlsDatabase(Seq<char>),
    SslCaFile(Seq<char>),
    ExtraHeaders(Seq<Entry>),
}

/// The characters of named values.
pub open spec fn entries(list: Seq<(String, String)>) -> Seq<Entry> {
    list.map_values(|entry: (String, String)| (entry.0@, entry.1@))
}

impl View for SourceSetting {
    type V = Setting;

    open spec fn view(&self) -> Setting {
        match self {
            SourceSetting::UserAgent(text) => Setting::UserAgent(text@),
            SourceSetting::Timeout(seconds) => Setting::Timeout(*seconds),
            SourceSetting::Cookies(text) => Setting::Cookies(text@),
            SourceSetting::TlsDatabase(path) => Setting::TlsDatabase(path@),
            SourceSetting::SslCaFile(path) => Setting::SslCaFile(path@),
            SourceSetting::ExtraHeaders(list) => Setting::ExtraHeaders(entries(list@)),
        }
    }
}

/// What each setting says.
pub open spec fn settings(list: Seq<SourceSetting>) -> Seq<Setting> {
    list.map_values(|setting: SourceSetting| setting@)
}

/// Whether a header gives the referrer, in any case.
pub open spec fn names_referer(entry: Entry) -> bool {
    text::same_without_case(entry.0, "referer"@)
}

/// The headers of a request: its own, and its referrer unless one of them
/// gives it already.
pub open spec fn request_headers(headers: Seq<Entry>, referrer: Option<Seq<char>>) -> Seq<Entry> {
    match referrer {
        Some(referrer) => if exists|i: int|
            0 <= i < headers.len() && names_referer(#[trigger] headers[i]) {
            headers
        } else {
            headers.push(("Referer"@, referrer))
        },
        None => headers,
    }
}

/// A setting, or none.
pub open spec fn when(condition: bool, setting: Setting) -> Seq<Setting> {
    if condition { seq![setting] } else { Seq::empty() }
}

/// The settings that a source element gets.
pub open spec fn source_settings(known: SourceProperties, source: NativeOpenRequest) -> Seq<
    Setting,
> {
    let file = models::text_or(source.tls_ca_file, Seq::empty());
    when(
        known.user_agent && source.user_agent is Some,
        Setting::UserAgent(models::text_or(source.user_agent, Seq::empty())),
    ) + when(known.timeout, Setting::Timeout(60)) + when(
        known.cookies && source.cookies is Some,
        Setting::Cookies(models::text_or(source.cookies, Seq::empty())),
    ) + when(known.tls_database && source.tls_ca_file is Some, Setting::TlsDatabase(file)) + when(
        !known.tls_database && known.ssl_ca_file && source.tls_ca_file is Some,
        Setting::SslCaFile(file),
    ) + when(
        known.extra_headers && (source.headers@.len() > 0 || source.referrer is Some),
        Setting::ExtraHeaders(
            request_headers(source.headers@, models::optional(source.referrer)),
        ),
    )
}

/// The request headers as a list.
fn header_list(headers: &NameMap, referrer: &Option<String>) -> (list: Vec<(String, String)>)
    ensures
        entries(list@) == request_headers(headers@, models::optional(*referrer)),
{
    let mut list: Vec<(String, String)> = Vec::new();
    let mut named = false;
    let count = headers.len();
    let mut i: usize = 0;
    while i < count
        invariant
            i <= count,
            count == headers@.len(),
            entries(list@) == headers@.take(i as int),
            named == exists|k: int| 0 <= k < i && names_referer(#[trigger] headers@[k]),
        decreases count - i,
    {
        let ghost earlier = entries(list@);
        if text::same_ignoring_case(headers.name(i), "referer") {
            assert(names_referer(headers@[i as int]));
            named = true;
        }
        list.push((headers.name(i).to_owned(), headers.value(i).to_owned()));
        assert(entries(list@) =~= earlier.push(headers@[i as int]));
        assert(headers@.take(i + 1) =~= headers@.take(i as int).push(headers@[i as int]));
        i = i + 1;
    }
    assert(headers@.take(i as int) =~= headers@);
    match referrer {
        Some(referrer) => {
            if !named {
                let ghost earlier = entries(list@);
                list.push(("Referer".to_owned(), referrer.clone()));
                assert(entries(list@) =~= earlier.push(("Referer"@, referrer@)));
            }
        },
        None => {},
    }
    list
}

/// Adds a setting to a list.
fn push_setting(list: &mut Vec<SourceSetting>, setting: SourceSetting)
    ensures
        settings(final(list)@) == settings(old(list)@) + seq![setting@],
{
    let ghost earlier = settings(list@);
    let ghost said = setting@;
    list.push(setting);
    assert(settings(list@) =~= earlier + seq![said]);
}

/// Chooses the settings of a source element among those that it knows.
pub fn configure_source(known: SourceProperties, source: &NativeOpenRequest) -> (list: Vec<
    SourceSetting,
>)
    ensures
        settings(list@) == source_settings(known, *source),
{
    let mut list: Vec<SourceSetting> = Vec::new();
    if let Some(user_agent) = &source.user_agent {
        if known.user_agent {
            push_setting(&mut list, SourceSetting::UserAgent(user_agent.clone()));
        }
    }
    if known.timeout {
        push_setting(&mut list, SourceSetting::Timeout(60));
    }
    if let Some(cookies) = &source.cookies {
        if known.cookies {
            push_setting(&mut list, SourceSetting::Cookies(cookies.clone()));
        }
    }
    if let Some(file) = &source.tls_ca_file {
        if known.tls_database {
            push_setting(&mut list, SourceSetting::TlsDatabase(file.clone()));
        } else if known.ssl_ca_file {
            push_setting(&mut list, SourceSetting::SslCaFile(file.clone()));
        }
    }
    if known.extra_headers && (source.headers.len() > 0 || source.referrer.is_some()) {
        let headers = header_list(&source.headers, &source.referrer);
        push_setting(&mut list, SourceSetting::ExtraHeaders(headers));
    }
    assert(settings(list@) =~= source_settings(known, *source));
    list
}

/// How long the pipeline may buffer.
#[derive(Clone, Copy, Debug, PartialEq, Eq, Structural)]
pub enum BufferDuration {
    Milliseconds(u32),
    /// What the pipeline itself holds right, which it is told as -1.
    Automatic,
}

/// A call on the pipeline, its sink or its widget.
#[derive(Debug)]
pub enum GstCall {
    SetState(EngineState),
    /// Wait for the pipeline to be ready, this many seconds at most.
    ReachReady(u64),
    /// Wait for a pending change of state, this many seconds at most.
    Settle(u64),
    /// Throw away the messages that wait on the bus.
    DiscardMessages,
    /// Let the next source element be set up for the new request.
    AdoptSource,
    SetUri(String),
    SetBufferDuration(BufferDuration),
    /// In bytes; -1 for what the pipeline itself holds right.
    SetBufferSize(i32),
    SetVolume(Double),
    SetForceAspectRatio(bool),
    PlaceWidget,
    HideWidget,
    /// Flush, and play on exactly at this many seconds.
    Seek(Double),
    SelectStreams(Vec<String>),
}

/// What a [`GstCall`] says.
pub enum Call {
    SetState(EngineState),
    ReachReady(u64),
    Settle(u64),
    DiscardMessages,
    AdoptSource,
    SetUri(Seq<char>),
    SetBufferDuration(BufferDuration),
    SetBufferSize(i32),
    SetVolume(Double),
    SetForceAspectRatio(bool),
    PlaceWidget,
    HideWidget,
    Seek(Double),
    SelectStreams(Seq<Seq<char>>),
}

impl View for GstCall {
    type V = Call;

    open spec fn view(&self) -> Call {
        match self {
            GstCall::SetState(state) => Call::SetState(*state),
            GstCall::ReachReady(seconds) => Call::ReachReady(*seconds),
            GstCall::Settle(seconds) => Call::Settle(*seconds),
            GstCall::DiscardMessages => Call::DiscardMessages,
            GstCall::AdoptSource => Call::AdoptSource,
            GstCall::SetUri(uri) => Call::SetUri(uri@),
            GstCall::SetBufferDuration(duration) => Call::SetBufferDuration(*duration),
            GstCall::SetBufferSize(bytes) => Call::SetBufferSize(*bytes),
            GstCall::SetVolume(volume) => Call::SetVolume(*volume),
            GstCall::SetForceAspectRatio(force) => Call::SetForceAspectRatio(*force),
            GstCall::PlaceWidget => Call::PlaceWidget,
            GstCall::HideWidget => Call::HideWidget,
            GstCall::Seek(position) => Call::Seek(*position),
            GstCall::SelectStreams(ids) => Call::SelectStreams(ordered::texts(ids@)),
        }
    }
}

/// What each call says.
pub open spec fn calls(list: Seq<GstCall>) -> Seq<Call> {
    list.map_values(|call: GstCall| call@)
}

/// The smallest buffer that may be asked for, in bytes.
pub const LEAST_BUFFER_BYTES: u64 = 4_194_304;

/// The largest buffer that may be asked for, in bytes.
pub const MOST_BUFFER_BYTES: u64 = 2_147_483_647;

/// The buffer that is asked for, held between three seconds and two minutes.
pub open spec fn buffer_duration(requested: Option<u32>) -> Option<u32> {
    match requested {
        Some(value) => Some(
            if value < 3_000 {
                3_000
            } else if value > 120_000 {
                120_000
            } else {
                value
            },
        ),
        None => None,
    }
}

/// The bytes that are asked for, held between the least and the most.
pub open spec fn buffer_bytes(requested: Option<u64>) -> Option<u64> {
    match requested {
        Some(value) => Some(
            if value < LEAST_BUFFER_BYTES {
                LEAST_BUFFER_BYTES
            } else if value > MOST_BUFFER_BYTES {
                MOST_BUFFER_BYTES
            } else {
                value
            },
        ),
        None => None,
    }
}

fn hold_duration(requested: Option<u32>) -> (held: Option<u32>)
    ensures
        held == buffer_duration(requested),
{
    match requested {
        Some(value) => if value < 3_000 {
            Some(3_000)
        } else if value > 120_000 {
            Some(120_000)
        } else {
            Some(value)
        },
        None => None,
    }
}

fn hold_bytes(requested: Option<u64>) -> (held: Option<u64>)
    ensures
        held == buffer_bytes(requested),
{
    match requested {
        Some(value) => if value < LEAST_BUFFER_BYTES {
            Some(LEAST_BUFFER_BYTES)
        } else if value > MOST_BUFFER_BYTES {
            Some(MOST_BUFFER_BYTES)
        } else {
            Some(value)
        },
        None => None,
    }
}

/// The volume of a request: silent when muted, otherwise between none and
/// full.
pub open spec fn request_volume(muted: bool, volume: Double) -> Double {
    if muted {
        Double { bits: 0 }
    } else {
        volume.clamp_spec(Double { bits: 0 }, Double { bits: 0x3ff0_0000_0000_0000 })
    }
}

/// The volume that a request asks for.
pub fn open_volume(muted: bool, volume: Double) -> (held: Double)
    ensures
        held == request_volume(muted, volume),
{
    if muted {
        Double::zero()
    } else {
        volume.clamp(Double::zero(), Double::one())
    }
}

/// A step on the way to a player.
#[derive(Debug)]
pub enum CreateStep {
    /// Make the sink that draws on a widget.
    MakeVideoSink { force_aspect_ratio: bool, sync: bool, enable_last_sample: bool },
    /// Put a compositor for subtitles before the sink where one is needed.
    MakeTerminalSink,
    MakeGlSink,
    MakePipeline { uri: String, buffer_duration_ms: Option<u32>, buffer_size: Option<i32> },
    /// Let the pipeline ask for the settings of its source elements.
    ConnectSourceSetup,
    /// Take the widget of the sink, which must not expand.
    AdoptWidget,
    PlaceWidget,
}

/// What a [`CreateStep`] says.
pub enum Creation {
    MakeVideoSink { force_aspect_ratio: bool, sync: bool, enable_last_sample: bool },
    MakeTerminalSink,
    MakeGlSink,
    MakePipeline { uri: Seq<char>, buffer_duration_ms: Option<u32>, buffer_size: Option<i32> },
    ConnectSourceSetup,
    AdoptWidget,
    PlaceWidget,
}

impl View for CreateStep {
    type V = Creation;

    open spec fn view(&self) -> Creation {
        match self {
            CreateStep::MakeVideoSink { force_aspect_ratio, sync, enable_last_sample } => {
                Creation::MakeVideoSink {
                    force_aspect_ratio: *force_aspect_ratio,
                    sync: *sync,
                    enable_last_sample: *enable_last_sample,
                }
            },
            CreateStep::MakeTerminalSink => Creation::MakeTerminalSink,
            CreateStep::MakeGlSink => Creation::MakeGlSink,
            CreateStep::MakePipeline { uri, buffer_duration_ms, buffer_size } => {
                Creation::MakePipeline {
                    uri: uri@,
                    buffer_duration_ms: *buffer_duration_ms,
                    buffer_size: *buffer_size,
                }
            },
            CreateStep::ConnectSourceSetup => Creation::ConnectSourceSetup,
            CreateStep::AdoptWidget => Creation::AdoptWidget,
            CreateStep::PlaceWidget => Creation::PlaceWidget,
        }
    }
}

/// What each step says.
pub open spec fn creations(list: Seq<CreateStep>) -> Seq<Creation> {
    list.map_values(|step: CreateStep| step@)
}

/// A buffer size as the pipeline takes it.
pub open spec fn pipeline_bytes(bytes: Option<u64>) -> Option<i32> {
    match bytes {
        Some(bytes) => Some(bytes as i32),
        None => None,
    }
}

/// The steps to a player for a request.
pub open spec fn creation(payload: NativeOpenRequest) -> Seq<Creation> {
    seq![
        Creation::MakeVideoSink { force_aspect_ratio: true, sync: true, enable_last_sample: false },
        Creation::MakeTerminalSink,
        Creation::MakeGlSink,
        Creation::MakePipeline {
            uri: payload.uri@,
            buffer_duration_ms: buffer_duration(payload.max_buffer_ms),
            buffer_size: pipeline_bytes(buffer_bytes(payload.target_buffer_bytes)),
        },
        Creation::ConnectSourceSetup,
        Creation::AdoptWidget,
        Creation::PlaceWidget,
    ]
}

/// The player before its source is loaded.
pub open spec fn created(payload: NativeOpenRequest, now: u64) -> Player {
    Player {
        session_key: Seq::empty(),
        buffering_percent: 0,
        buffer_duration_ms: buffer_duration(payload.max_buffer_ms),
        target_buffer_bytes: buffer_bytes(payload.target_buffer_bytes),
        desired_playing: payload.autoplay,
        error: None,
        meter: FrameMeter {
            last_frames: 0,
            last_sample_at: now,
            measured: meter::nothing_measured(),
        },
        tracks: Seq::empty(),
        selected: Seq::empty(),
    }
}

/// A new player and the steps that its native side takes. Its source is
/// loaded behind them.
pub fn create_player(payload: &NativeOpenRequest, now: u64) -> (made: (
    NativePlayer,
    Vec<CreateStep>,
))
    ensures
        made.0@ == created(*payload, now),
        creations(made.1@) == creation(*payload),
{
    let buffer_duration_ms = hold_duration(payload.max_buffer_ms);
    let target_buffer_bytes = hold_bytes(payload.target_buffer_bytes);
    let mut steps: Vec<CreateStep> = Vec::new();
    steps.push(
        CreateStep::MakeVideoSink {
            force_aspect_ratio: true,
            sync: true,
            enable_last_sample: false,
        },
    );
    steps.push(CreateStep::MakeTerminalSink);
    steps.push(CreateStep::MakeGlSink);
    steps.push(
        CreateStep::MakePipeline {
            uri: payload.uri.clone(),
            buffer_duration_ms,
            buffer_size: match target_buffer_bytes {
                Some(bytes) => Some(bytes as i32),
                None => None,
            },
        },
    );
    steps.push(CreateStep::ConnectSourceSetup);
    steps.push(CreateStep::AdoptWidget);
    steps.push(CreateStep::PlaceWidget);
    assert(creations(steps@) =~= creation(*payload));
    let player = NativePlayer {
        session_key: String::new(),
        buffering_percent: 0,
        buffer_duration_ms,
        target_buffer_bytes,
        desired_playing: payload.autoplay,
        error: None,
        meter: FrameMeter::new(0, now),
        tracks: Vec::new(),
        selected_streams: NameSet::new(),
    };
    assert(player@.tracks =~= Seq::empty());
    (player, steps)
}

/// The failure of a step to a player, from what the engine said.
pub open spec fn creation_failure(step: Creation, detail: Seq<char>) -> Failure {
    match step {
        Creation::MakeVideoSink { .. } => Failure::Pipeline(
            "gtkglsink is unavailable: "@ + detail,
        ),
        Creation::MakeGlSink => Failure::Pipeline("glsinkbin is unavailable: "@ + detail),
        Creation::MakePipeline { .. } => Failure::Pipeline("playbin3 is unavailable: "@ + detail),
        _ => Failure::Pipeline(detail),
    }
}

/// The error of a step to a player.
pub fn creation_error(step: &CreateStep, detail: &str) -> (error: Error)
    ensures
        error@ == creation_failure(step@, detail@),
{
    match step {
        CreateStep::MakeVideoSink { .. } => Error::Pipeline(
            text::join("gtkglsink is unavailable: ", detail),
        ),
        CreateStep::MakeGlSink => Error::Pipeline(text::join("glsinkbin is unavailable: ", detail)),
        CreateStep::MakePipeline { .. } => Error::Pipeline(
            text::join("playbin3 is unavailable: ", detail),
        ),
        _ => Error::pipeline(detail),
    }
}

/// A step on the way to a sink that keeps subtitles.
#[derive(Clone, Copy, Debug, PartialEq, Eq, Structural)]
pub enum SinkStep {
    MakeCompositor,
    /// Capabilities that leave out separate overlays, so that captions are
    /// drawn into the picture before the sink redraws it.
    ParseCaps,
    MakeCapsFilter,
    AddElements,
    LinkElements,
    FindCompositorPad,
    BuildGhostPad,
    ActivateGhostPad,
    AddGhostPad,
}

/// What is to be done about the sink.
#[derive(Debug)]
pub enum SinkProgress {
    /// Use the sink as it is.
    Bare,
    /// Take this step.
    Next(SinkStep),
    /// Use the bin that was built.
    Composited,
    Failed(Error),
}

/// What is to be done about the sink, without the words of a failure.
pub enum Progress {
    Bare,
    Next(SinkStep),
    Composited,
    Failed(Failure),
}

impl View for SinkProgress {
    type V = Progress;

    open spec fn view(&self) -> Progress {
        match self {
            SinkProgress::Bare => Progress::Bare,
            SinkProgress::Next(step) => Progress::Next(*step),
            SinkProgress::Composited => Progress::Composited,
            SinkProgress::Failed(error) => Progress::Failed(error@),
        }
    }
}

/// What is first to be done about the sink: from GStreamer 1.26 on subtitles
/// need a compositor.
pub open spec fn first_progress(major: u32, minor: u32) -> Progress {
    if major > 1 || (major == 1 && minor >= 26) {
        Progress::Next(SinkStep::MakeCompositor)
    } else {
        Progress::Bare
    }
}

/// Chooses whether subtitles need a compositor: from GStreamer 1.26 on.
pub fn subtitle_safe_gtk_sink(major: u32, minor: u32) -> (progress: SinkProgress)
    ensures
        progress@ == first_progress(major, minor),
{
    if major < 1 || (major == 1 && minor < 26) {
        SinkProgress::Bare
    } else {
        SinkProgress::Next(SinkStep::MakeCompositor)
    }
}

/// The step behind one that was taken; none behind the last.
pub open spec fn next_sink_step(step: SinkStep) -> Option<SinkStep> {
    match step {
        SinkStep::MakeCompositor => Some(SinkStep::ParseCaps),
        SinkStep::ParseCaps => Some(SinkStep::MakeCapsFilter),
        SinkStep::MakeCapsFilter => Some(SinkStep::AddElements),
        SinkStep::AddElements => Some(SinkStep::LinkElements),
        SinkStep::LinkElements => Some(SinkStep::FindCompositorPad),
        SinkStep::FindCompositorPad => Some(SinkStep::BuildGhostPad),
        SinkStep::BuildGhostPad => Some(SinkStep::ActivateGhostPad),
        SinkStep::ActivateGhostPad => Some(SinkStep::AddGhostPad),
        SinkStep::AddGhostPad => None,
    }
}

/// What follows a step. Without a compositor the sink is used as it is; any
/// other failure ends the opening.
pub open spec fn sink_progress(step: SinkStep, outcome: Result<(), Seq<char>>) -> Progress {
    match outcome {
        Ok(_) => match next_sink_step(step) {
            Some(next) => Progress::Next(next),
            None => Progress::Composited,
        },
        Err(detail) => match step {
            SinkStep::MakeCompositor => Progress::Bare,
            SinkStep::FindCompositorPad => Progress::Failed(
                Failure::Pipeline("gloverlaycompositor has no sink pad"@),
            ),
            _ => Progress::Failed(Failure::Pipeline(detail)),
        },
    }
}

/// The characters of what the engine said when a call failed.
pub open spec fn said(outcome: Result<(), String>) -> Result<(), Seq<char>> {
    match outcome {
        Ok(_) => Ok(()),
        Err(detail) => Err(detail@),
    }
}

/// Chooses what follows a step to a sink that keeps subtitles.
pub fn sink_step_taken(step: SinkStep, outcome: Result<(), String>) -> (progress: SinkProgress)
    ensures
        progress@ == sink_progress(step, said(outcome)),
{
    match outcome {
        Ok(_) => match step {
            SinkStep::MakeCompositor => SinkProgress::Next(SinkStep::ParseCaps),
            SinkStep::ParseCaps => SinkProgress::Next(SinkStep::MakeCapsFilter),
            SinkStep::MakeCapsFilter => SinkProgress::Next(SinkStep::AddElements),
            SinkStep::AddElements => SinkProgress::Next(SinkStep::LinkElements),
            SinkStep::LinkElements => SinkProgress::Next(SinkStep::FindCompositorPad),
            SinkStep::FindCompositorPad => SinkProgress::Next(SinkStep::BuildGhostPad),
            SinkStep::BuildGhostPad => SinkProgress::Next(SinkStep::ActivateGhostPad),
            SinkStep::ActivateGhostPad => SinkProgress::Next(SinkStep::AddGhostPad),
            SinkStep::AddGhostPad => SinkProgress::Composited,
        },
        Err(detail) => match step {
            SinkStep::MakeCompositor => SinkProgress::Bare,
            SinkStep::FindCompositorPad => SinkProgress::Failed(
                Error::pipeline("gloverlaycompositor has no sink pad"),
            ),
            _ => SinkProgress::Failed(Error::Pipeline(detail)),
        },
    }
}

/// The calls with which loading a source starts: the sink and its widget stay
/// alive, the pipeline is brought to rest.
pub open spec fn rest_calls() -> Seq<Call> {
    seq![Call::SetState(EngineState::Ready), Call::ReachReady(5), Call::DiscardMessages]
}

/// The failure to bring the pipeline to rest.
pub open spec fn rest_failure(
    transition: Result<(), Seq<char>>,
    current: EngineState,
    pending: EngineState,
) -> Option<Failure> {
    match transition {
        Err(detail) => Some(
            Failure::Pipeline(
                "failed to park native pipeline before source change: "@ + detail,
            ),
        ),
        Ok(_) => if current == EngineState::Ready {
            None
        } else {
            Some(
                Failure::Pipeline(
                    "native pipeline did not reach READY before source change (current: "@
                        + state_name(current) + ", pending: "@ + state_name(pending) + ")"@,
                ),
            )
        },
    }
}

/// Answers for the wait until the pipeline is ready.
pub fn ready_reached(
    transition: Result<(), String>,
    current: EngineState,
    pending: EngineState,
) -> (result: Result<(), Error>)
    ensures
        error::answers(result, rest_failure(said(transition), current, pending)),
{
    match transition {
        Err(detail) => Err(
            Error::Pipeline(
                text::join(
                    "failed to park native pipeline before source change: ",
                    detail.as_str(),
                ),
            ),
        ),
        Ok(_) => {
            if current == EngineState::Ready {
                Ok(())
            } else {
                let mut message = text::enclose(
                    "native pipeline did not reach READY before source change (current: ",
                    state_text(current),
                    ", pending: ",
                );
                message.append(state_text(pending));
                message.append(")");
                Err(Error::Pipeline(message))
            }
        },
    }
}

/// The calls that set the pipeline, at rest, up for a source.
pub open spec fn source_calls(payload: NativeOpenRequest) -> Seq<Call> {
    seq![
        Call::AdoptSource,
        Call::SetUri(payload.uri@),
        Call::SetBufferDuration(
            match buffer_duration(payload.max_buffer_ms) {
                Some(milliseconds) => BufferDuration::Milliseconds(milliseconds),
                None => BufferDuration::Automatic,
            },
        ),
        Call::SetBufferSize(
            match pipeline_bytes(buffer_bytes(payload.target_buffer_bytes)) {
                Some(bytes) => bytes,
                None => -1i32,
            },
        ),
        Call::SetVolume(request_volume(payload.muted, payload.volume)),
        Call::SetForceAspectRatio(true),
        Call::PlaceWidget,
    ]
}

/// The player once its pipeline is set up and before it moves. The session
/// is still the earlier one.
pub open spec fn reset(player: Player, payload: NativeOpenRequest, rendered: u64, now: u64) -> Player {
    Player { session_key: player.session_key, meter: FrameMeter {
            last_frames: rendered,
            last_sample_at: now,
            measured: meter::nothing_measured(),
        }, ..created(payload, now) }
}

/// The state in which a source starts.
pub open spec fn starting_state(autoplay: bool) -> EngineState {
    if autoplay { EngineState::Playing } else { EngineState::Paused }
}

/// All calls that load a source, in order.
pub open spec fn load_calls(payload: NativeOpenRequest) -> Seq<Call> {
    rest_calls() + source_calls(payload) + seq![
        Call::SetState(starting_state(payload.autoplay)),
    ]
}

/// How far the loading of a source has come.
#[derive(Debug)]
pub struct Loading {
    pub calls: Vec<GstCall>,
    /// How many of the calls have succeeded.
    pub taken: usize,
}

impl Loading {
    /// The call that is to be made next; `None` when the source is loaded.
    pub fn next(&self) -> (call: Option<&GstCall>)
        ensures
            match call {
                Some(call) => self.taken < self.calls@.len() && *call
                    == self.calls@[self.taken as int],
                None => self.taken >= self.calls@.len(),
            },
    {
        if self.taken < self.calls.len() {
            Some(&self.calls[self.taken])
        } else {
            None
        }
    }
}

/// Starts to load a source.
pub fn load_source(payload: &NativeOpenRequest) -> (loading: Loading)
    ensures
        calls(loading.calls@) == load_calls(*payload),
        loading.taken == 0,
{
    let mut list: Vec<GstCall> = Vec::new();
    list.push(GstCall::SetState(EngineState::Ready));
    list.push(GstCall::ReachReady(5));
    list.push(GstCall::DiscardMessages);
    list.push(GstCall::AdoptSource);
    list.push(GstCall::SetUri(payload.uri.clone()));
    list.push(
        GstCall::SetBufferDuration(
            match hold_duration(payload.max_buffer_ms) {
                Some(milliseconds) => BufferDuration::Milliseconds(milliseconds),
                None => BufferDuration::Automatic,
            },
        ),
    );
    list.push(
        GstCall::SetBufferSize(
            match hold_bytes(payload.target_buffer_bytes) {
                Some(bytes) => bytes as i32,
                None => -1,
            },
        ),
    );
    list.push(GstCall::SetVolume(open_volume(payload.muted, payload.volume)));
    list.push(GstCall::SetForceAspectRatio(true));
    list.push(GstCall::PlaceWidget);
    if payload.autoplay {
        list.push(GstCall::SetState(EngineState::Playing));
    } else {
        list.push(GstCall::SetState(EngineState::Paused));
    }
    assert(calls(list@) =~= load_calls(*payload));
    Loading { calls: list, taken: 0 }
}

/// The player behind a call of its loading that succeeded, with so many calls
/// left. It is reset once all is set up and only the start is left; the session
/// is taken over behind the start.
pub open spec fn behind_load_call(
    player: Player,
    payload: NativeOpenRequest,
    left: int,
    rendered: u64,
    now: u64,
) -> Player {
    if left == 1 {
        reset(player, payload, rendered, now)
    } else if left == 0 {
        Player { session_key: payload.session_key@, ..player }
    } else {
        player
    }
}

/// Takes note of how the next call of the loading went. A failed one ends the
/// loading, and the player stays as it is.
pub fn load_call_done(
    loading: &mut Loading,
    player: &mut NativePlayer,
    payload: &NativeOpenRequest,
    outcome: Result<(), Error>,
    rendered: Option<u64>,
    now: u64,
) -> (result: Result<(), Error>)
    requires
        old(loading).taken < old(loading).calls@.len(),
    ensures
        result == outcome,
        final(loading).calls@ == old(loading).calls@,
        final(loading).taken == if outcome is Ok { old(loading).taken + 1 } else {
            old(loading).taken as int
        },
        final(player)@ == if outcome is Ok {
            behind_load_call(
                old(player)@,
                *payload,
                old(loading).calls@.len() - old(loading).taken - 1,
                models::or_zero(rendered),
                now,
            )
        } else {
            old(player)@
        },
{
    if outcome.is_err() {
        return outcome;
    }
    let count: usize = loading.calls.len();
    loading.taken = loading.taken + 1;
    let left: usize = count - loading.taken;
    if left == 1 {
        player.buffering_percent = 0;
        player.buffer_duration_ms = hold_duration(payload.max_buffer_ms);
        player.target_buffer_bytes = hold_bytes(payload.target_buffer_bytes);
        player.desired_playing = payload.autoplay;
        player.error = None;
        player.meter = FrameMeter::new(rendered_frames(rendered), now);
        player.tracks = Vec::new();
        player.selected_streams = NameSet::new();
        assert(player@.tracks =~= Seq::empty());
    } else if left == 0 {
        player.session_key = payload.session_key.clone();
    }
    outcome
}

/// The frames that the sink counted; none when it does not say.
pub fn rendered_frames(reading: Option<u64>) -> (frames: u64)
    ensures
        frames == models::or_zero(reading),
{
    match reading {
        Some(frames) => frames,
        None => 0,
    }
}

/// The answer to a query for the range in which can be sought.
#[derive(Clone, Copy, Debug, PartialEq, Eq, Structural)]
pub struct Seeking {
    pub seekable: bool,
    /// In nanoseconds, where the answer is a time.
    pub start: Option<u64>,
    pub end: Option<u64>,
}

/// Whether the source is live, and where can be sought, in nanoseconds.
#[derive(Clone, Copy, Debug, PartialEq, Eq, Structural)]
pub struct Timeline {
    pub live: bool,
    pub seekable: bool,
    pub start: u64,
    pub end: u64,
}

/// The timeline behind the answers of a pipeline. A source without a
/// duration is live, and one whose pipeline says so. Without an answer about
/// seeking, exactly what is not live can be sought, from start to end.
pub open spec fn timeline(duration: u64, latency: Option<bool>, seeking: Option<Seeking>) -> Timeline {
    let live = duration == 0 || latency == Some(true);
    match seeking {
        None => Timeline { live, seekable: !live, start: 0, end: duration },
        Some(answer) => Timeline {
            live,
            seekable: answer.seekable,
            start: match answer.start {
                Some(time) => time,
                None => 0,
            },
            end: match answer.end {
                Some(time) => time,
                None => 0,
            },
        },
    }
}

/// Reads the timeline out of the answers of a pipeline.
pub fn playback_timeline(
    duration: u64,
    latency: Option<bool>,
    seeking: Option<Seeking>,
) -> (read: Timeline)
    ensures
        read == timeline(duration, latency, seeking),
{
    let live = duration == 0 || match latency {
        Some(live) => live,
        None => false,
    };
    match seeking {
        None => Timeline { live, seekable: !live, start: 0, end: duration },
        Some(answer) => Timeline {
            live,
            seekable: answer.seekable,
            start: answer.start.unwrap_or(0),
            end: answer.end.unwrap_or(0),
        },
    }
}

} // verus!
