//! Requests to the open mpv player.
use crate::desktop::access;
use crate::desktop::linux_mpv;
use crate::desktop::linux_mpv::Call;
use crate::desktop::linux_mpv::LayoutMeter;
use crate::desktop::linux_mpv::MpvCall;
use crate::desktop::linux_mpv::MpvPlayer;
use crate::desktop::linux_mpv::MpvProperty;
use crate::desktop::linux_mpv::MpvValue;
use crate::desktop::linux_mpv::Player;
use crate::desktop::linux_mpv::RenderLog;
use crate::desktop::linux_mpv::TrackTarget;
use crate::desktop::linux_mpv::Value;
use crate::desktop::linux_surface;
use crate::desktop::linux_surface::SurfaceCall;
use crate::desktop::linux_surface::SurfaceHost;
use crate::double::Double;
use crate::error;
use crate::error::Error;
use crate::error::Failure;
use crate::latch::Latch;
use crate::meter;
use crate::models;
use crate::models::MediaTime;
use crate::models::NativeControlRequest;
use crate::models::NativeLayoutRequest;
use crate::models::NativePlaybackSnapshot;
use crate::models::NativeSessionRequest;
use crate::models::NativeTrackInfo;
use crate::models::Snapshot;
use crate::models::Track;
use crate::models::TrackKind;
use crate::text;
use crate::tracks;
use vstd::prelude::*;

verus! {

/// The session of the player in a slot.
pub open spec fn active_session(slot: Option<MpvPlayer>) -> Option<Seq<char>> {
    match slot {
        Some(player) => Some(player.session_key@),
        None => None,
    }
}

/// The first target with an index.
pub open spec fn first_target(list: Seq<TrackTarget>, index: i32) -> Option<TrackTarget>
    decreases list.len(),
{
    if list.len() == 0 {
        None
    } else if list[0].public_index == index {
        Some(list[0])
    } else {
        first_target(list.drop_first(), index)
    }
}

/// The property that chooses the track of a kind.
pub open spec fn track_property(kind: TrackKind) -> MpvProperty {
    match kind {
        TrackKind::Video => MpvProperty::Vid,
        TrackKind::Audio => MpvProperty::Aid,
        TrackKind::Subtitle => MpvProperty::Sid,
    }
}

/// The call that chooses a track, or turns its kind off; or a failure.
pub open spec fn selection(targets: Seq<TrackTarget>, index: i32, enabled: bool) -> Result<
    Call,
    Failure,
> {
    match first_target(targets, index) {
        None => Err(
            Failure::InvalidRequest(
                "unknown native track index "@ + text::signed_decimal(index as int),
            ),
        ),
        Some(target) => Ok(
            Call::SetProperty(
                track_property(target.kind),
                if enabled { Value::Integer(target.mpv_id) } else { Value::Text("no"@) },
            ),
        ),
    }
}

/// The call for an action, or a failure.
pub open spec fn action_call(
    targets: Seq<TrackTarget>,
    action: Seq<char>,
    value: Double,
    index: i32,
) -> Result<Call, Failure> {
    let zero = Double { bits: 0 };
    let one = Double { bits: 0x3ff0_0000_0000_0000 };
    if action == "play"@ {
        Ok(Call::SetProperty(MpvProperty::Pause, Value::Flag(false)))
    } else if action == "pause"@ {
        Ok(Call::SetProperty(MpvProperty::Pause, Value::Flag(true)))
    } else if action == "seek"@ {
        Ok(Call::Seek(value.max_spec(zero)))
    } else if action == "volume"@ {
        Ok(Call::SetProperty(MpvProperty::Volume, Value::Percent(value.clamp_spec(zero, one))))
    } else if action == "fit"@ {
        Ok(Call::SetProperty(MpvProperty::Panscan, Value::Number(zero)))
    } else if action == "crop"@ {
        Ok(Call::SetProperty(MpvProperty::Panscan, Value::Number(one)))
    } else if action == "stretch"@ {
        Ok(Call::SetProperty(MpvProperty::VideoUnscaled, Value::Text("downscale-big"@)))
    } else if action == "zoom"@ {
        Ok(Call::SetProperty(MpvProperty::VideoZoom, Value::Log2(value.max_spec(one))))
    } else if action == "track"@ {
        selection(targets, index, true)
    } else if action == "deselectTrack"@ {
        selection(targets, index, false)
    } else {
        Err(Failure::InvalidRequest("unsupported native action: "@ + action))
    }
}

/// The call was given, or the failure.
pub open spec fn gives(result: Result<MpvCall, Error>, expected: Result<Call, Failure>) -> bool {
    match expected {
        Ok(call) => result matches Ok(given) && given@ == call,
        Err(failure) => error::fails(result, failure),
    }
}

/// The call that chooses a track, or turns its kind off.
pub fn select_track(targets: &Vec<TrackTarget>, index: i32, enabled: bool) -> (result: Result<
    MpvCall,
    Error,
>)
    ensures
        gives(result, selection(targets@, index, enabled)),
{
    let mut at: usize = 0;
    assert(targets@.skip(0) =~= targets@);
    while at < targets.len() && targets[at].public_index != index
        invariant
            at <= targets@.len(),
            first_target(targets@, index) == first_target(targets@.skip(at as int), index),
        decreases targets@.len() - at,
    {
        assert(targets@.skip(at as int).drop_first() =~= targets@.skip(at + 1));
        at = at + 1;
    }
    if at == targets.len() {
        let number = text::signed_decimal_text(index as i64);
        return Err(
            Error::InvalidRequest(text::join("unknown native track index ", number.as_str())),
        );
    }
    let target = targets[at];
    let property = match target.kind {
        TrackKind::Video => MpvProperty::Vid,
        TrackKind::Audio => MpvProperty::Aid,
        TrackKind::Subtitle => MpvProperty::Sid,
    };
    let value = if enabled {
        MpvValue::Integer(target.mpv_id)
    } else {
        MpvValue::Text("no".to_owned())
    };
    Ok(MpvCall::SetProperty(property, value))
}

/// The call for an action on an open player.
fn act(player: &MpvPlayer, action: &str, value: Double, index: i32) -> (result: Result<
    MpvCall,
    Error,
>)
    ensures
        gives(result, action_call(player.track_targets@, action@, value, index)),
{
    if text::same(action, "play") {
        Ok(MpvCall::SetProperty(MpvProperty::Pause, MpvValue::Flag(false)))
    } else if text::same(action, "pause") {
        Ok(MpvCall::SetProperty(MpvProperty::Pause, MpvValue::Flag(true)))
    } else if text::same(action, "seek") {
        Ok(MpvCall::Seek(value.max(Double::zero())))
    } else if text::same(action, "volume") {
        let level = value.clamp(Double::zero(), Double::one());
        Ok(MpvCall::SetProperty(MpvProperty::Volume, MpvValue::Percent(level)))
    } else if text::same(action, "fit") {
        Ok(MpvCall::SetProperty(MpvProperty::Panscan, MpvValue::Number(Double::zero())))
    } else if text::same(action, "crop") {
        Ok(MpvCall::SetProperty(MpvProperty::Panscan, MpvValue::Number(Double::one())))
    } else if text::same(action, "stretch") {
        let mode = MpvValue::Text("downscale-big".to_owned());
        Ok(MpvCall::SetProperty(MpvProperty::VideoUnscaled, mode))
    } else if text::same(action, "zoom") {
        let factor = value.max(Double::one());
        Ok(MpvCall::SetProperty(MpvProperty::VideoZoom, MpvValue::Log2(factor)))
    } else if text::same(action, "track") {
        select_track(&player.track_targets, index, true)
    } else if text::same(action, "deselectTrack") {
        select_track(&player.track_targets, index, false)
    } else {
        Err(Error::InvalidRequest(text::join("unsupported native action: ", action)))
    }
}

/// The call for a control request, or a failure.
pub open spec fn controlled(slot: Option<MpvPlayer>, payload: NativeControlRequest) -> Result<
    Call,
    Failure,
> {
    match access::refusal(active_session(slot), payload.session_key@) {
        Some(failure) => Err(failure),
        None => action_call(
            slot->0.track_targets@,
            payload.action@,
            payload.value,
            payload.index,
        ),
    }
}

/// The call for a control request. A snapshot follows it.
pub fn control(slot: &Option<MpvPlayer>, payload: &NativeControlRequest) -> (result: Result<
    MpvCall,
    Error,
>)
    ensures
        gives(result, controlled(*slot, *payload)),
{
    match slot {
        None => Err(access::not_open()),
        Some(player) => {
            match access::ensure_session(
                player.session_key.as_str(),
                payload.session_key.as_str(),
            ) {
                Err(error) => Err(error),
                Ok(_) => act(player, payload.action.as_str(), payload.value, payload.index),
            }
        },
    }
}

/// Whether a call chooses a track.
pub open spec fn chooses_track(call: Call) -> bool {
    match call {
        Call::SetProperty(property, _) => property == MpvProperty::Vid || property
            == MpvProperty::Aid || property == MpvProperty::Sid,
        _ => false,
    }
}

/// The player behind a call that the engine took.
pub open spec fn after_call(player: Player, call: Call) -> Player {
    Player { tracks_dirty: player.tracks_dirty || chooses_track(call), ..player }
}

/// Takes note of how a call went. Behind another choice of a track, the
/// tracks are read again.
pub fn call_done(player: &mut MpvPlayer, call: &MpvCall, outcome: Result<(), String>) -> (result:
    Result<(), Error>)
    ensures
        match outcome {
            Ok(_) => result is Ok && final(player)@ == after_call(old(player)@, call@),
            Err(detail) => error::fails(result, linux_mpv::engine_failure(detail@))
                && final(player)@ == old(player)@,
        },
{
    match outcome {
        Ok(_) => {
            match call {
                MpvCall::SetProperty(property, _) => {
                    if *property == MpvProperty::Vid || *property == MpvProperty::Aid || *property
                        == MpvProperty::Sid {
                        player.tracks_dirty = true;
                    }
                },
                _ => {},
            }
            Ok(())
        },
        Err(detail) => Err(linux_mpv::mpv_error(detail.as_str())),
    }
}

/// The calls for a layout request. When they are made, the layout is
/// committed.
pub fn layout(
    slot: &Option<MpvPlayer>,
    host: &SurfaceHost,
    has_parent: bool,
    visible: bool,
    payload: &NativeLayoutRequest,
) -> (result: Result<Vec<SurfaceCall>, Error>)
    ensures
        match access::refusal(active_session(*slot), payload.session_key@) {
            Some(failure) => error::fails(result, failure),
            None => linux_surface::places(
                result,
                *host,
                has_parent,
                visible,
                linux_surface::placed(payload.x, payload.y, payload.width, payload.height),
            ),
        },
{
    match slot {
        None => Err(access::not_open()),
        Some(player) => {
            match access::ensure_session(
                player.session_key.as_str(),
                payload.session_key.as_str(),
            ) {
                Err(error) => Err(error),
                Ok(_) => linux_surface::place_widget(
                    host,
                    has_parent,
                    visible,
                    payload.x,
                    payload.y,
                    payload.width,
                    payload.height,
                ),
            }
        },
    }
}

/// The commits, one more, as far as they can be counted.
pub open spec fn one_more(commits: u64) -> u64 {
    if commits < u64::MAX { (commits + 1) as u64 } else { u64::MAX }
}

/// Whether the rate of commits is due to be reported.
pub open spec fn report_due(meter: LayoutMeter, telemetry: bool, now: u64) -> bool {
    telemetry && meter::elapsed(meter.sample_at, now) >= meter::SAMPLE_NANOSECONDS
}

/// The rate of commits that is reported behind a committed layout, when it is
/// asked for and due: the commits, and the nanoseconds since the last report.
pub open spec fn commit_report(meter: LayoutMeter, telemetry: bool, now: u64) -> Option<(u64, u64)> {
    if report_due(meter, telemetry, now) {
        Some((one_more(meter.commits), (now - meter.sample_at) as u64))
    } else {
        None
    }
}

/// The commits behind a committed layout, counted anew behind a report.
pub open spec fn committed(meter: LayoutMeter, telemetry: bool, now: u64) -> LayoutMeter {
    if report_due(meter, telemetry, now) {
        LayoutMeter { commits: 0, sample_at: now }
    } else {
        LayoutMeter { commits: one_more(meter.commits), ..meter }
    }
}

/// What follows a committed layout.
#[derive(Clone, Copy, Debug, PartialEq, Eq)]
pub struct Commit {
    /// The commits and the nanoseconds that are to be reported.
    pub report: Option<(u64, u64)>,
    /// Whether a redraw is to be ordered.
    pub redraw: bool,
}

/// Asks for a redraw, as every committed layout and every loaded source does;
/// says whether it has to be ordered now. Only one waits at a time.
pub fn redraw_ordered(redraw: &mut Latch) -> (order: bool)
    ensures
        old(redraw).asked(*final(redraw), order),
{
    redraw.request()
}

/// A call of a redraw.
#[derive(Clone, Copy, Debug, PartialEq, Eq, Structural)]
pub enum RedrawCall {
    DrawParent,
    /// Let the engine render a frame.
    QueueRender,
}

/// The calls of a redraw, in order.
pub open spec fn redrawing(has_parent: bool) -> Seq<RedrawCall> {
    if has_parent {
        seq![RedrawCall::DrawParent, RedrawCall::QueueRender]
    } else {
        seq![RedrawCall::QueueRender]
    }
}

/// Takes note that the redraw runs, so that another can be ordered, and gives
/// its calls.
pub fn redraw_runs(redraw: &mut Latch, has_parent: bool) -> (list: Vec<RedrawCall>)
    ensures
        !final(redraw).pending,
        list@ == redrawing(has_parent),
{
    redraw.release();
    let mut list: Vec<RedrawCall> = Vec::new();
    if has_parent {
        list.push(RedrawCall::DrawParent);
    }
    list.push(RedrawCall::QueueRender);
    assert(list@ =~= redrawing(has_parent));
    list
}

/// A layout was committed: it was counted, and a redraw was asked for.
pub open spec fn commits(
    before: (Player, Latch),
    after: (Player, Latch),
    telemetry: bool,
    now: u64,
    commit: Commit,
) -> bool {
    &&& after.0 == (Player { layout: committed(before.0.layout, telemetry, now), ..before.0 })
    &&& commit.report == commit_report(before.0.layout, telemetry, now)
    &&& before.1.asked(after.1, commit.redraw)
}

/// Commits a layout whose calls are made: counts it, and asks for a redraw.
pub fn layout_committed(
    player: &mut MpvPlayer,
    redraw: &mut Latch,
    telemetry: bool,
    now: u64,
) -> (commit: Commit)
    ensures
        commits(
            (old(player)@, *old(redraw)),
            (final(player)@, *final(redraw)),
            telemetry,
            now,
            commit,
        ),
{
    let count: u64 = player.layout.commits.saturating_add(1);
    let passed: u64 = now.saturating_sub(player.layout.sample_at);
    let report = if telemetry && passed >= meter::SAMPLE_NANOSECONDS {
        player.layout = LayoutMeter { commits: 0, sample_at: now };
        Some((count, passed))
    } else {
        player.layout = LayoutMeter { commits: count, sample_at: player.layout.sample_at };
        None
    };
    Commit { report, redraw: redraw_ordered(redraw) }
}

/// Lets a request for a snapshot through.
pub fn stats(slot: &Option<MpvPlayer>, payload: &NativeSessionRequest) -> (result: Result<
    (),
    Error,
>)
    ensures
        error::answers(
            result,
            access::refusal(active_session(*slot), payload.session_key@),
        ),
{
    match slot {
        None => Err(access::not_open()),
        Some(player) => access::ensure_session(
            player.session_key.as_str(),
            payload.session_key.as_str(),
        ),
    }
}

/// The calls that put a player to rest; none without a player.
pub open spec fn parking(player_open: bool) -> Seq<Call> {
    if player_open {
        seq![Call::Stop, Call::HideWidget]
    } else {
        Seq::empty()
    }
}

/// The player at rest: kept, but without session and tracks.
pub open spec fn parked(player: Player) -> Player {
    Player {
        session_key: Seq::empty(),
        tracks: Seq::empty(),
        track_targets: Seq::empty(),
        tracks_dirty: true,
        ..player
    }
}

/// The calls for a close request. Whoever closes is done with the player, so
/// it is put to rest whatever session the request names: nothing may go on
/// sounding. The engine and its surface stay alive, because making them anew
/// can take the page above them off the screen.
pub fn close(slot: &Option<MpvPlayer>, _payload: &NativeSessionRequest) -> (list: Vec<MpvCall>)
    ensures
        linux_mpv::calls(list@) == parking(slot is Some),
{
    let mut list: Vec<MpvCall> = Vec::new();
    if slot.is_some() {
        list.push(MpvCall::Stop);
        list.push(MpvCall::HideWidget);
    }
    assert(linux_mpv::calls(list@) =~= parking(slot is Some));
    list
}

/// Takes note that the player is at rest: kept, but without session, tracks
/// and error.
pub fn park_player(slot: &mut Option<MpvPlayer>, log: &mut RenderLog)
    ensures
        match *old(slot) {
            None => *final(slot) is None && *final(log) == *old(log),
            Some(player) => linux_mpv::in_slot(*final(slot)) == Some(parked(player@)) && final(log).error is None && final(log).presented_frames
                == old(log).presented_frames,
        },
{
    match slot {
        None => {},
        Some(player) => {
            player.session_key = String::new();
            player.tracks = Vec::new();
            player.track_targets = Vec::new();
            player.tracks_dirty = true;
            log.error = None;
            assert(player@.tracks =~= Seq::empty());
            assert(player@.track_targets =~= Seq::empty());
        },
    }
}

/// Gives the player up, to make room for another engine. Says whether there
/// was one, whose engine, callbacks and surface are then to be taken down.
pub fn force_close(slot: &mut Option<MpvPlayer>) -> (taken: bool)
    ensures
        taken == (*old(slot) is Some),
        *final(slot) is None,
{
    let taken = slot.is_some();
    *slot = None;
    taken
}

/// A step of taking a player down.
#[derive(Clone, Copy, Debug, PartialEq, Eq, Structural)]
pub enum TeardownStep {
    Stop,
    RemoveUpdates,
    DisconnectRender,
    /// Before the engine itself, as the engine demands.
    DropRenderContext,
    HideWidget,
    DropEngine,
}

/// The steps of taking a player down, in order.
pub open spec fn taking_down() -> Seq<TeardownStep> {
    seq![
        TeardownStep::Stop,
        TeardownStep::RemoveUpdates,
        TeardownStep::DisconnectRender,
        TeardownStep::DropRenderContext,
        TeardownStep::HideWidget,
        TeardownStep::DropEngine,
    ]
}

/// How a player is taken down.
pub fn teardown() -> (steps: Vec<TeardownStep>)
    ensures
        steps@ == taking_down(),
{
    let mut steps: Vec<TeardownStep> = Vec::new();
    steps.push(TeardownStep::Stop);
    steps.push(TeardownStep::RemoveUpdates);
    steps.push(TeardownStep::DisconnectRender);
    steps.push(TeardownStep::DropRenderContext);
    steps.push(TeardownStep::HideWidget);
    steps.push(TeardownStep::DropEngine);
    assert(steps@ =~= taking_down());
    steps
}

/// How many events are taken in before a snapshot. Events come as fast as the
/// engine makes them; the thread of the user interface has other work.
pub const EVENT_BUDGET: u32 = 64;

/// An event of the engine.
#[derive(Clone, Copy, Debug, PartialEq, Eq, Structural)]
pub enum MpvEvent {
    Shutdown,
    StartFile,
    FileLoaded,
    VideoReconfig,
    AudioReconfig,
    EndFile,
    Other,
}

/// Whether the tracks may have changed with an event.
pub open spec fn changes_tracks(event: MpvEvent) -> bool {
    event == MpvEvent::StartFile || event == MpvEvent::FileLoaded || event
        == MpvEvent::VideoReconfig || event == MpvEvent::AudioReconfig
}

/// The failure in what the engine gave as its next event, if it is one.
pub open spec fn event_failure(event: Result<MpvEvent, String>) -> Option<Failure> {
    match event {
        Err(detail) => Some(linux_mpv::engine_failure(detail@)),
        Ok(event) => if event == MpvEvent::Shutdown {
            Some(Failure::Pipeline("mpv shut down"@))
        } else {
            None
        },
    }
}

/// The player behind what the engine gave as its next event.
pub open spec fn after_event(player: Player, event: Result<MpvEvent, String>) -> Player {
    Player {
        tracks_dirty: player.tracks_dirty || (event matches Ok(given) && changes_tracks(given)),
        ..player
    }
}

/// The events that were taken in before a snapshot.
#[derive(Clone, Copy, Debug, PartialEq, Eq, Structural)]
pub struct EventDrain {
    pub taken: u32,
}

impl EventDrain {
    /// Nothing taken in yet.
    pub fn new() -> (drain: EventDrain)
        ensures
            drain.taken == 0,
    {
        EventDrain { taken: 0 }
    }

    /// Whether the engine is asked for another event.
    pub fn wants_more(&self) -> (more: bool)
        ensures
            more == (self.taken < EVENT_BUDGET),
    {
        self.taken < EVENT_BUDGET
    }
}

/// Takes in an event.
pub fn drain_events(
    drain: &mut EventDrain,
    player: &mut MpvPlayer,
    event: Result<MpvEvent, String>,
) -> (result: Result<(), Error>)
    requires
        old(drain).taken < EVENT_BUDGET,
    ensures
        error::answers(result, event_failure(event)),
        final(drain).taken == old(drain).taken + 1,
        final(player)@ == after_event(old(player)@, event),
{
    drain.taken = drain.taken + 1;
    match event {
        Err(detail) => Err(linux_mpv::mpv_error(detail.as_str())),
        Ok(event) => match event {
            MpvEvent::Shutdown => Err(Error::pipeline("mpv shut down")),
            MpvEvent::StartFile
            | MpvEvent::FileLoaded
            | MpvEvent::VideoReconfig
            | MpvEvent::AudioReconfig => {
                player.tracks_dirty = true;
                Ok(())
            },
            MpvEvent::EndFile | MpvEvent::Other => Ok(()),
        },
    }
}

/// Answers once the events are taken in: with the error of a frame, if there
/// is one, otherwise with whether the tracks are to be read.
pub fn events_drained(player: &MpvPlayer, log: &RenderLog) -> (result: Result<bool, Error>)
    ensures
        match log.error {
            Some(message) => error::fails(result, Failure::Pipeline(message@)),
            None => result == Ok::<bool, Error>(player.tracks_dirty),
        },
{
    match &log.error {
        Some(message) => Err(Error::Pipeline(message.clone())),
        None => Ok(player.tracks_dirty),
    }
}

/// What the engine is asked about a track of its list.
#[derive(Clone, Copy, Debug, PartialEq, Eq, Structural)]
pub enum TrackField {
    Type,
    Id,
    Language,
    Title,
    Codec,
    Selected,
}

impl TrackField {
    /// The last part of the property's name.
    pub open spec fn named(self) -> Seq<char> {
        match self {
            TrackField::Type => "/type"@,
            TrackField::Id => "/id"@,
            TrackField::Language => "/lang"@,
            TrackField::Title => "/title"@,
            TrackField::Codec => "/codec"@,
            TrackField::Selected => "/selected"@,
        }
    }
}

/// The name of the property that says something about a track of the list.
pub fn track_field(at: u64, field: TrackField) -> (name: String)
    ensures
        name@ == "track-list/"@ + text::decimal(at as nat) + field.named(),
{
    let last = match field {
        TrackField::Type => "/type",
        TrackField::Id => "/id",
        TrackField::Language => "/lang",
        TrackField::Title => "/title",
        TrackField::Codec => "/codec",
        TrackField::Selected => "/selected",
    };
    text::enclose("track-list/", text::decimal_text(at).as_str(), last)
}

/// What the engine says about a track of its list.
#[derive(Debug)]
pub struct TrackReading {
    pub track_type: Option<String>,
    pub id: Option<i64>,
    pub language: Option<String>,
    pub title: Option<String>,
    pub codec: Option<String>,
    pub selected: Option<bool>,
}

/// What a [`TrackReading`] holds.
pub struct Reading {
    pub track_type: Seq<char>,
    pub id: Option<i64>,
    pub language: Seq<char>,
    pub title: Seq<char>,
    pub codec: Seq<char>,
    pub selected: bool,
}

impl View for TrackReading {
    type V = Reading;

    open spec fn view(&self) -> Reading {
        Reading {
            track_type: models::text_or(self.track_type, Seq::empty()),
            id: self.id,
            language: models::text_or(self.language, "und"@),
            title: models::text_or(self.title, Seq::empty()),
            codec: models::text_or(self.codec, Seq::empty()),
            selected: self.selected == Some(true),
        }
    }
}

/// What each reading holds.
pub open spec fn readings_of(list: Seq<TrackReading>) -> Seq<Reading> {
    list.map_values(|reading: TrackReading| reading@)
}

/// The kind of a track, by what the engine calls its type.
pub open spec fn kind_of(track_type: Seq<char>) -> Option<TrackKind> {
    if track_type == "video"@ {
        Some(TrackKind::Video)
    } else if track_type == "audio"@ {
        Some(TrackKind::Audio)
    } else if track_type == "sub"@ {
        Some(TrackKind::Subtitle)
    } else {
        None
    }
}

/// Which track of the engine a reading at a place speaks of.
pub open spec fn engine_id(reading: Reading, at: int) -> i64 {
    match reading.id {
        Some(id) => id,
        None => at as i64,
    }
}

/// The track for a reading, when it comes to stand at an index.
pub open spec fn track_of(reading: Reading, kind: TrackKind, id: i64, index: int) -> Track {
    Track {
        id: "mpv-"@ + reading.track_type + "-"@ + text::signed_decimal(id as int),
        index: index as i32,
        kind,
        language: reading.language,
        label: tracks::labelled(
            reading.title,
            reading.language != "und"@,
            text::uppercase(reading.language),
            reading.track_type,
        ),
        codec: reading.codec,
        selected: reading.selected,
    }
}

/// The tracks for what the engine says, without those of no known kind.
pub open spec fn tracks_of(list: Seq<Reading>) -> Seq<Track>
    decreases list.len(),
{
    if list.len() == 0 {
        Seq::empty()
    } else {
        let earlier = tracks_of(list.drop_last());
        match kind_of(list.last().track_type) {
            None => earlier,
            Some(kind) => earlier.push(
                track_of(
                    list.last(),
                    kind,
                    engine_id(list.last(), list.len() - 1),
                    earlier.len() as int,
                ),
            ),
        }
    }
}

/// Which tracks of the engine these are.
pub open spec fn targets_of(list: Seq<Reading>) -> Seq<TrackTarget>
    decreases list.len(),
{
    if list.len() == 0 {
        Seq::empty()
    } else {
        let earlier = targets_of(list.drop_last());
        match kind_of(list.last().track_type) {
            None => earlier,
            Some(kind) => earlier.push(
                TrackTarget {
                    public_index: earlier.len() as i32,
                    mpv_id: engine_id(list.last(), list.len() - 1),
                    kind,
                },
            ),
        }
    }
}

/// Finds the kind of a track.
fn track_kind(track_type: &str) -> (kind: Option<TrackKind>)
    ensures
        kind == kind_of(track_type@),
{
    if text::same(track_type, "video") {
        Some(TrackKind::Video)
    } else if text::same(track_type, "audio") {
        Some(TrackKind::Audio)
    } else if text::same(track_type, "sub") {
        Some(TrackKind::Subtitle)
    } else {
        None
    }
}

/// Makes the track for a reading.
fn make_track(reading: &TrackReading, kind: TrackKind, id: i64, index: i32) -> (track:
    NativeTrackInfo)
    ensures
        track@ == track_of(reading@, kind, id, index as int),
{
    proof {
        reveal_strlit("");
        assert(""@ =~= Seq::empty());
    }
    let track_type = models::copy_or(&reading.track_type, "");
    let language = models::copy_or(&reading.language, "und");
    let mut name = text::enclose("mpv-", track_type.as_str(), "-");
    name.append(text::signed_decimal_text(id).as_str());
    let label = tracks::label(
        models::copy_or(&reading.title, ""),
        !text::same(language.as_str(), "und"),
        text::uppercase_text(language.as_str()),
        track_type,
    );
    let selected = match reading.selected {
        Some(selected) => selected,
        None => false,
    };
    NativeTrackInfo {
        id: name,
        index,
        kind,
        language,
        label,
        codec: models::copy_or(&reading.codec, ""),
        selected,
    }
}

/// Lists the tracks anew, from what the engine says about each.
pub fn refresh_tracks(player: &mut MpvPlayer, list: &Vec<TrackReading>)
    ensures
        final(player)@ == (Player {
            tracks: tracks_of(readings_of(list@)),
            track_targets: targets_of(readings_of(list@)),
            tracks_dirty: false,
            ..old(player)@
        }),
{
    let mut made: Vec<NativeTrackInfo> = Vec::new();
    let mut targets: Vec<TrackTarget> = Vec::new();
    let ghost all = readings_of(list@);
    let mut at: usize = 0;
    assert(models::tracks(made@) =~= tracks_of(all.take(0)));
    while at < list.len()
        invariant
            at <= list@.len(),
            all == readings_of(list@),
            models::tracks(made@) == tracks_of(all.take(at as int)),
            targets@ == targets_of(all.take(at as int)),
            made@.len() == targets@.len(),
        decreases list@.len() - at,
    {
        let ghost earlier = models::tracks(made@);
        proof {
            assert(all.take(at + 1).drop_last() =~= all.take(at as int));
            assert(all.take(at + 1).last() == all[at as int]);
            reveal_strlit("");
            assert(""@ =~= Seq::empty());
        }
        let reading = &list[at];
        let kind = track_kind(models::copy_or(&reading.track_type, "").as_str());
        if let Some(kind) = kind {
            let id: i64 = match reading.id {
                Some(id) => id,
                None => at as i64,
            };
            let index: i32 = made.len() as i32;
            let track = make_track(reading, kind, id, index);
            let ghost added = track@;
            made.push(track);
            targets.push(TrackTarget { public_index: index, mpv_id: id, kind });
            assert(models::tracks(made@) =~= earlier.push(added));
        }
        at = at + 1;
    }
    assert(all.take(at as int) =~= all);
    player.tracks = made;
    player.track_targets = targets;
    player.tracks_dirty = false;
}

/// What the engine says about the open source. Times are in seconds.
#[derive(Debug)]
pub struct Readings {
    pub position: Option<Double>,
    pub duration: Option<Double>,
    pub cached_until: Option<Double>,
    pub seekable: Option<bool>,
    pub seekable_start: Option<Double>,
    pub seekable_end: Option<Double>,
    pub dropped: Option<i64>,
    pub width: Option<i64>,
    pub height: Option<i64>,
    pub paused: Option<bool>,
    pub decoder: Option<String>,
    pub hardware: Option<String>,
    /// In units of 1024 bytes.
    pub cache_used: Option<i64>,
}

/// A count, with none where the engine gives none or a negative one.
pub open spec fn counted(reading: Option<i64>) -> u64 {
    match reading {
        Some(count) => if count > 0 { count as u64 } else { 0 },
        None => 0,
    }
}

/// Where the source stands.
pub open spec fn position_of(readings: Readings) -> Double {
    readings.position.unwrap_or(Double { bits: 0 }).max_spec(Double { bits: 0 })
}

/// How long the source is; `None` for one without an end.
pub open spec fn length_of(readings: Readings) -> Option<Double> {
    match readings.duration {
        Some(value) => if (Double { bits: 0 }).below(value) { Some(value) } else { None },
        None => None,
    }
}

/// Up to where the source is buffered: never before the position, and never
/// behind the end.
pub open spec fn buffered_until(readings: Readings) -> Double {
    let position = position_of(readings);
    let duration = length_of(readings).unwrap_or(Double { bits: 0 });
    readings.cached_until.unwrap_or(position).max_spec(position).min_spec(
        duration.max_spec(position),
    )
}

/// From where the source can be played.
pub open spec fn window_start(readings: Readings) -> Double {
    match readings.seekable_start {
        Some(value) => value.max_spec(Double { bits: 0 }),
        None => Double { bits: 0 },
    }
}

/// Up to where the source can be played: what the engine says, and where it
/// says nothing that lies behind the start, the length or what is buffered.
pub open spec fn window_end(readings: Readings) -> Double {
    let otherwise = length_of(readings).unwrap_or(Double { bits: 0 }).max_spec(
        buffered_until(readings),
    );
    match readings.seekable_end {
        Some(value) => if window_start(readings).below(value) { value } else { otherwise },
        None => otherwise,
    }
}

/// The snapshot for what the engine says.
pub open spec fn snapshot_of(player: Player, rendered: u64, readings: Readings, now: u64) -> Snapshot {
    let live = length_of(readings) is None;
    Snapshot {
        duration: MediaTime::Seconds(length_of(readings).unwrap_or(Double { bits: 0 })),
        position: MediaTime::Seconds(position_of(readings)),
        buffered: MediaTime::Seconds(buffered_until(readings)),
        live,
        seekable: readings.seekable.unwrap_or(!live),
        seekable_start: MediaTime::Seconds(window_start(readings)),
        seekable_end: MediaTime::Seconds(window_end(readings)),
        playing: readings.paused == Some(false),
        video_size: (
            (counted(readings.width) % 0x1_0000_0000) as u32,
            (counted(readings.height) % 0x1_0000_0000) as u32,
        ),
        tracks: player.tracks,
        presented_frames: rendered,
        dropped_frames: counted(readings.dropped),
        measured_fps: player.meter.sampled(rendered, now).measured,
        hardware_backend: "mpv:"@ + models::text_or(readings.hardware, "software"@) + ":"@
            + models::text_or(readings.decoder, Seq::empty()) + ":gtk-glarea"@,
        backend: "mpv"@,
        encoded_bytes_buffered: (counted(readings.cache_used) * 1024) as u64,
        average_frame_processing_us: Double { bits: 0 },
    }
}

fn count(reading: Option<i64>) -> (count: u64)
    ensures
        count == counted(reading),
{
    match reading {
        Some(count) => if count > 0 {
            count as u64
        } else {
            0
        },
        None => 0,
    }
}

/// Reports the player once its events are taken in and its tracks are read,
/// and says whether the rate of frames was measured anew.
pub fn snapshot(player: &mut MpvPlayer, log: &RenderLog, readings: &Readings, now: u64) -> (report: (
    NativePlaybackSnapshot,
    bool,
))
    requires
        counted(readings.cache_used) * 1024 <= u64::MAX,
    ensures
        report.0@ == snapshot_of(old(player)@, log.presented_frames, *readings, now),
        report.1 == (meter::elapsed(old(player).meter.last_sample_at, now)
            >= meter::SAMPLE_NANOSECONDS),
        final(player)@ == (Player {
            meter: old(player).meter.sampled(log.presented_frames, now),
            ..old(player)@
        }),
{
    let zero = Double::zero();
    let position = readings.position.unwrap_or(zero).max(zero);
    let length = match readings.duration {
        Some(value) => if zero.less_than(value) {
            Some(value)
        } else {
            None
        },
        None => None,
    };
    let live = length.is_none();
    let duration = length.unwrap_or(zero);
    let buffered = readings.cached_until.unwrap_or(position).max(position).min(
        duration.max(position),
    );
    let start = match readings.seekable_start {
        Some(value) => value.max(zero),
        None => zero,
    };
    let end = match readings.seekable_end {
        Some(value) => if start.less_than(value) {
            value
        } else {
            duration.max(buffered)
        },
        None => duration.max(buffered),
    };
    let measured = player.meter.sample(log.presented_frames, now);
    proof {
        reveal_strlit("");
        assert(""@ =~= Seq::empty());
    }
    let hardware = models::copy_or(&readings.hardware, "software");
    let decoder = models::copy_or(&readings.decoder, "");
    let mut hardware_backend = text::enclose("mpv:", hardware.as_str(), ":");
    hardware_backend.append(decoder.as_str());
    hardware_backend.append(":gtk-glarea");
    let paused = readings.paused.unwrap_or(true);
    let snapshot = NativePlaybackSnapshot {
        duration_seconds: MediaTime::Seconds(duration),
        current_time_seconds: MediaTime::Seconds(position),
        buffered_seconds: MediaTime::Seconds(buffered),
        live,
        seekable: readings.seekable.unwrap_or(!live),
        seekable_start_seconds: MediaTime::Seconds(start),
        seekable_end_seconds: MediaTime::Seconds(end),
        playing: !paused,
        video_width: (count(readings.width) % 0x1_0000_0000) as u32,
        video_height: (count(readings.height) % 0x1_0000_0000) as u32,
        tracks: models::clone_tracks(&player.tracks),
        presented_frames: log.presented_frames,
        dropped_frames: count(readings.dropped),
        measured_fps: player.meter.measured,
        hardware_backend,
        backend: "mpv".to_owned(),
        encoded_bytes_buffered: count(readings.cache_used) * 1024,
        average_frame_processing_us: Double::zero(),
    };
    (snapshot, measured)
}

} // verus!
