//! Requests to the open GStreamer player.
use crate::desktop::access;
use crate::desktop::linux_gstreamer;
use crate::desktop::linux_gstreamer::Call;
use crate::desktop::linux_gstreamer::EngineState;
use crate::desktop::linux_gstreamer::GstCall;
use crate::desktop::linux_gstreamer::NativePlayer;
use crate::desktop::linux_gstreamer::Player;
use crate::desktop::linux_gstreamer::Seeking;
use crate::desktop::linux_surface;
use crate::desktop::linux_surface::SurfaceCall;
use crate::desktop::linux_surface::SurfaceHost;
use crate::double::Double;
use crate::error;
use crate::error::Error;
use crate::error::Failure;
use crate::meter;
use crate::models;
use crate::models::MediaTime;
use crate::models::NativeControlRequest;
use crate::models::NativeLayoutRequest;
use crate::models::NativePlaybackSnapshot;
use crate::models::NativeSessionRequest;
use crate::models::NativeTrackInfo;
use crate::models::Snapshot;
use crate::models::Track;
use crate::models::TrackKind;
use crate::ordered;
use crate::ordered::NameSet;
use crate::text;
use crate::tracks;
use vstd::prelude::*;

verus! {

/// The session of the player in a slot.
pub open spec fn active_session(slot: Option<NativePlayer>) -> Option<Seq<char>> {
    match slot {
        Some(player) => Some(player.session_key@),
        None => None,
    }
}

/// The streams that stay selected when another one of `kind` is chosen: those
/// that are known to be of another kind.
pub open spec fn kept_streams(player: Player, kind: TrackKind) -> Seq<Seq<char>> {
    player.selected.filter(
        |id: Seq<char>|
            match tracks::first_with_id(player.tracks, id) {
                Some(track) => track.kind != kind,
                None => false,
            },
    )
}

/// What a request leads to: the player and the calls on its engine, or a
/// failure.
pub type Effect = Result<(Player, Seq<Call>), Failure>;

/// Choosing a track, or taking its kind out of the selection.
pub open spec fn selection(player: Player, index: i32, enabled: bool) -> Effect {
    match tracks::first_with_index(player.tracks, index) {
        None => Err(
            Failure::InvalidRequest(
                "unknown native track index "@ + text::signed_decimal(index as int),
            ),
        ),
        Some(track) => {
            let kept = kept_streams(player, track.kind);
            let selected = if enabled { ordered::with_name(kept, track.id) } else { kept };
            Ok((Player { selected, ..player }, seq![Call::SelectStreams(selected)]))
        },
    }
}

/// What an action leads to.
pub open spec fn action_effect(
    player: Player,
    action: Seq<char>,
    value: Double,
    index: i32,
) -> Effect {
    let zero = Double { bits: 0 };
    let one = Double { bits: 0x3ff0_0000_0000_0000 };
    if action == "play"@ {
        Ok(
            (
                Player { desired_playing: true, ..player },
                seq![Call::SetState(EngineState::Playing)],
            ),
        )
    } else if action == "pause"@ {
        Ok(
            (
                Player { desired_playing: false, ..player },
                seq![Call::SetState(EngineState::Paused)],
            ),
        )
    } else if action == "seek"@ {
        Ok((player, seq![Call::Settle(3), Call::Seek(value.max_spec(zero))]))
    } else if action == "volume"@ {
        Ok((player, seq![Call::SetVolume(value.clamp_spec(zero, one))]))
    } else if action == "fit"@ {
        Ok((player, seq![Call::SetForceAspectRatio(true)]))
    } else if action == "crop"@ || action == "stretch"@ {
        Ok((player, seq![Call::SetForceAspectRatio(false)]))
    } else if action == "track"@ {
        selection(player, index, true)
    } else if action == "deselectTrack"@ {
        selection(player, index, false)
    } else {
        Err(Failure::InvalidRequest("unsupported native action: "@ + action))
    }
}

/// The calls were given and the player changed as the effect says, or the
/// failure was given and nothing changed.
pub open spec fn takes_effect(
    before: Player,
    after: Player,
    result: Result<Vec<GstCall>, Error>,
    effect: Effect,
) -> bool {
    match effect {
        Ok((player, list)) => after == player && (result matches Ok(given)
            && linux_gstreamer::calls(given@) == list),
        Err(failure) => after == before && error::fails(result, failure),
    }
}

/// Keeps the selected streams of other kinds.
fn keep_streams(player: &NativePlayer, kind: TrackKind) -> (kept: NameSet)
    ensures
        kept@ == kept_streams(player@, kind),
{
    let ghost selected = player.selected_streams@;
    let ghost keep = |id: Seq<char>|
        match tracks::first_with_id(player@.tracks, id) {
            Some(track) => track.kind != kind,
            None => false,
        };
    let mut kept = NameSet::new();
    let count = player.selected_streams.len();
    let mut i: usize = 0;
    proof {
        reveal(Seq::filter);
        assert(selected.take(0).filter(keep) =~= Seq::empty());
    }
    while i < count
        invariant
            i <= count,
            count == selected.len(),
            selected == player.selected_streams@,
            ordered::ascending(selected),
            keep == (|id: Seq<char>|
                match tracks::first_with_id(player@.tracks, id) {
                    Some(track) => track.kind != kind,
                    None => false,
                }),
            kept@ == selected.take(i as int).filter(keep),
            forall|k: int| 0 <= k < kept@.len() ==> selected.take(i as int).contains(
                #[trigger] kept@[k],
            ),
        decreases count - i,
    {
        let id = player.selected_streams.get(i);
        let keeps = match tracks::find_id(&player.tracks, id) {
            Some(at) => player.tracks[at].kind != kind,
            None => false,
        };
        let ghost earlier = selected.take(i as int);
        let ghost later = selected.take(i + 1);
        proof {
            reveal(Seq::filter);
            assert(later.drop_last() =~= earlier);
            assert(later.last() == id@);
            assert forall|k: int| 0 <= k < kept@.len() implies text::precedes(
                #[trigger] kept@[k],
                id@,
            ) by {
                let at = choose|at: int| 0 <= at < earlier.len() && earlier[at] == kept@[k];
                assert(text::precedes(selected[at], selected[i as int]));
            }
            assert forall|name: Seq<char>| earlier.contains(name) implies later.contains(name) by {
                let at = choose|at: int| 0 <= at < earlier.len() && earlier[at] == name;
                assert(later[at] == name);
            }
            assert(later[i as int] == id@);
        }
        if keeps {
            kept.push(id.to_owned());
        }
        i = i + 1;
    }
    assert(selected.take(i as int) =~= selected);
    kept
}

/// The names of a set, as a list.
fn list_names(set: &NameSet) -> (list: Vec<String>)
    ensures
        ordered::texts(list@) == set@,
{
    let mut list: Vec<String> = Vec::new();
    let count = set.len();
    let mut i: usize = 0;
    while i < count
        invariant
            i <= count,
            count == set@.len(),
            ordered::texts(list@) == set@.take(i as int),
        decreases count - i,
    {
        let ghost earlier = ordered::texts(list@);
        list.push(set.get(i).to_owned());
        assert(ordered::texts(list@) =~= earlier.push(set@[i as int]));
        assert(set@.take(i + 1) =~= set@.take(i as int).push(set@[i as int]));
        i = i + 1;
    }
    assert(set@.take(i as int) =~= set@);
    list
}

/// Chooses a track, or takes its kind out of the selection.
pub fn select_stream(player: &mut NativePlayer, index: i32, enabled: bool) -> (result: Result<
    Vec<GstCall>,
    Error,
>)
    ensures
        takes_effect(
            old(player)@,
            final(player)@,
            result,
            selection(old(player)@, index, enabled),
        ),
{
    let at = match tracks::find_index(&player.tracks, index) {
        Some(at) => at,
        None => {
            let number = text::signed_decimal_text(index as i64);
            return Err(
                Error::InvalidRequest(text::join("unknown native track index ", number.as_str())),
            );
        },
    };
    let kind = player.tracks[at].kind;
    let mut selected = keep_streams(player, kind);
    if enabled {
        selected.insert(player.tracks[at].id.clone());
    }
    let ids = list_names(&selected);
    player.selected_streams = selected;
    let mut list: Vec<GstCall> = Vec::new();
    list.push(GstCall::SelectStreams(ids));
    assert(linux_gstreamer::calls(list@) =~= seq![Call::SelectStreams(player@.selected)]);
    Ok(list)
}

/// One call as a list.
fn only(call: GstCall) -> (list: Vec<GstCall>)
    ensures
        linux_gstreamer::calls(list@) == seq![call@],
{
    let ghost said = call@;
    let mut list: Vec<GstCall> = Vec::new();
    list.push(call);
    assert(linux_gstreamer::calls(list@) =~= seq![said]);
    list
}

/// The calls for an action on an open player.
fn act(player: &mut NativePlayer, action: &str, value: Double, index: i32) -> (result: Result<
    Vec<GstCall>,
    Error,
>)
    ensures
        takes_effect(
            old(player)@,
            final(player)@,
            result,
            action_effect(old(player)@, action@, value, index),
        ),
{
    if text::same(action, "play") {
        player.desired_playing = true;
        Ok(only(GstCall::SetState(EngineState::Playing)))
    } else if text::same(action, "pause") {
        player.desired_playing = false;
        Ok(only(GstCall::SetState(EngineState::Paused)))
    } else if text::same(action, "seek") {
        let target = value.max(Double::zero());
        let mut list: Vec<GstCall> = Vec::new();
        list.push(GstCall::Settle(3));
        list.push(GstCall::Seek(target));
        assert(linux_gstreamer::calls(list@) =~= seq![Call::Settle(3), Call::Seek(target)]);
        Ok(list)
    } else if text::same(action, "volume") {
        Ok(only(GstCall::SetVolume(value.clamp(Double::zero(), Double::one()))))
    } else if text::same(action, "fit") {
        Ok(only(GstCall::SetForceAspectRatio(true)))
    } else if text::same(action, "crop") || text::same(action, "stretch") {
        Ok(only(GstCall::SetForceAspectRatio(false)))
    } else if text::same(action, "track") {
        select_stream(player, index, true)
    } else if text::same(action, "deselectTrack") {
        select_stream(player, index, false)
    } else {
        Err(Error::InvalidRequest(text::join("unsupported native action: ", action)))
    }
}

/// A control request was turned away and nothing changed, or its action took
/// effect.
pub open spec fn controls(
    before: Option<NativePlayer>,
    after: Option<NativePlayer>,
    payload: NativeControlRequest,
    result: Result<Vec<GstCall>, Error>,
) -> bool {
    match access::refusal(active_session(before), payload.session_key@) {
        Some(failure) => error::fails(result, failure) && after == before,
        None => after is Some && takes_effect(
            before->0@,
            after->0@,
            result,
            action_effect(before->0@, payload.action@, payload.value, payload.index),
        ),
    }
}

/// The calls for a control request. A snapshot follows them.
pub fn control(slot: &mut Option<NativePlayer>, payload: &NativeControlRequest) -> (result: Result<
    Vec<GstCall>,
    Error,
>)
    ensures
        controls(*old(slot), *final(slot), *payload, result),
{
    match slot {
        None => Err(access::not_open()),
        Some(player) => {
            match access::ensure_session(
                player.session_key.as_str(),
                payload.session_key.as_str(),
            ) {
                Err(error) => Err(error),
                Ok(_) => act(player, payload.action.as_str(), payload.value, payload.index),
            }
        },
    }
}

/// The failure of a call, from what the engine said.
pub open spec fn call_failure(call: Call, detail: Seq<char>) -> Failure {
    match call {
        Call::Settle(_) => Failure::Pipeline(
            "native pipeline state did not settle before seek: "@ + detail,
        ),
        Call::SelectStreams(_) => Failure::Pipeline("decoder rejected track selection"@),
        _ => Failure::Pipeline(detail),
    }
}

/// The player behind a call that the engine took. Tracks are marked as
/// selected only once the engine took the selection.
pub open spec fn after_call(player: Player, call: Call) -> Player {
    match call {
        Call::SelectStreams(_) => Player {
            tracks: tracks::all_marked(player.tracks, player.selected),
            ..player
        },
        _ => player,
    }
}

/// Takes note of how a call went.
pub fn call_done(
    player: &mut NativePlayer,
    call: &GstCall,
    outcome: Result<(), String>,
) -> (result: Result<(), Error>)
    ensures
        match outcome {
            Ok(_) => result is Ok && final(player)@ == after_call(old(player)@, call@),
            Err(detail) => error::fails(result, call_failure(call@, detail@)) && final(player)@
                == old(player)@,
        },
{
    match outcome {
        Ok(_) => {
            match call {
                GstCall::SelectStreams(_) => {
                    tracks::mark(&mut player.tracks, &player.selected_streams);
                },
                _ => {},
            }
            Ok(())
        },
        Err(detail) => match call {
            GstCall::Settle(_) => Err(
                Error::Pipeline(
                    text::join(
                        "native pipeline state did not settle before seek: ",
                        detail.as_str(),
                    ),
                ),
            ),
            GstCall::SelectStreams(_) => Err(Error::pipeline("decoder rejected track selection")),
            _ => Err(Error::Pipeline(detail)),
        },
    }
}

/// The calls for a layout request.
pub fn layout(
    slot: &Option<NativePlayer>,
    host: &SurfaceHost,
    has_parent: bool,
    visible: bool,
    payload: &NativeLayoutRequest,
) -> (result: Result<Vec<SurfaceCall>, Error>)
    ensures
        match access::refusal(active_session(*slot), payload.session_key@) {
            Some(failure) => error::fails(result, failure),
            None => linux_surface::places(
                result,
                *host,
                has_parent,
                visible,
                linux_surface::placed(payload.x, payload.y, payload.width, payload.height),
            ),
        },
{
    match slot {
        None => Err(access::not_open()),
        Some(player) => {
            match access::ensure_session(
                player.session_key.as_str(),
                payload.session_key.as_str(),
            ) {
                Err(error) => Err(error),
                Ok(_) => linux_surface::place_widget(
                    host,
                    has_parent,
                    visible,
                    payload.x,
                    payload.y,
                    payload.width,
                    payload.height,
                ),
            }
        },
    }
}

/// Lets a request for a snapshot through.
pub fn stats(slot: &Option<NativePlayer>, payload: &NativeSessionRequest) -> (result: Result<
    (),
    Error,
>)
    ensures
        error::answers(
            result,
            access::refusal(active_session(*slot), payload.session_key@),
        ),
{
    match slot {
        None => Err(access::not_open()),
        Some(player) => access::ensure_session(
            player.session_key.as_str(),
            payload.session_key.as_str(),
        ),
    }
}

/// The calls that put a player to rest; none without a player.
pub open spec fn parking(player_open: bool) -> Seq<Call> {
    if player_open {
        seq![Call::SetState(EngineState::Ready), Call::HideWidget]
    } else {
        Seq::empty()
    }
}

fn parking_calls(slot: &Option<NativePlayer>) -> (list: Vec<GstCall>)
    ensures
        linux_gstreamer::calls(list@) == parking(slot is Some),
{
    let mut list: Vec<GstCall> = Vec::new();
    if slot.is_some() {
        list.push(GstCall::SetState(EngineState::Ready));
        list.push(GstCall::HideWidget);
    }
    assert(linux_gstreamer::calls(list@) =~= parking(slot is Some));
    list
}

/// The calls for a close request. Whoever closes is done with the player, so
/// it is put to rest whatever session the request names: nothing may go on
/// sounding.
pub fn close(slot: &Option<NativePlayer>, _payload: &NativeSessionRequest) -> (list: Vec<GstCall>)
    ensures
        linux_gstreamer::calls(list@) == parking(slot is Some),
{
    parking_calls(slot)
}

/// The calls that make room for another engine.
pub fn force_close(slot: &Option<NativePlayer>) -> (list: Vec<GstCall>)
    ensures
        linux_gstreamer::calls(list@) == parking(slot is Some),
{
    parking_calls(slot)
}

/// The player at rest: kept, but without session, tracks and error.
pub open spec fn parked(player: Player) -> Player {
    Player {
        session_key: Seq::empty(),
        tracks: Seq::empty(),
        selected: Seq::empty(),
        error: None,
        ..player
    }
}

/// Takes note that the player is at rest.
pub fn park_player(slot: &mut Option<NativePlayer>)
    ensures
        match *old(slot) {
            None => *final(slot) is None,
            Some(player) => linux_gstreamer::in_slot(*final(slot)) == Some(parked(player@)),
        },
{
    match slot {
        None => {},
        Some(player) => {
            player.session_key = String::new();
            player.tracks = Vec::new();
            player.selected_streams = NameSet::new();
            player.error = None;
            assert(player@.tracks =~= Seq::empty());
        },
    }
}

/// What is known of a stream that the engine found.
#[derive(Debug)]
pub struct StreamReading {
    pub video: bool,
    pub audio: bool,
    pub text: bool,
    pub id: Option<String>,
    pub language: Option<String>,
    pub title: Option<String>,
    pub codec: Option<String>,
}

/// What a [`StreamReading`] holds.
pub struct Stream {
    pub kind: Option<TrackKind>,
    pub id: Option<Seq<char>>,
    pub language: Seq<char>,
    pub title: Seq<char>,
    pub codec: Seq<char>,
}

/// What kind of track a stream is: the first that it has, of video, audio
/// and text.
pub open spec fn stream_kind(video: bool, audio: bool, text: bool) -> Option<TrackKind> {
    if video {
        Some(TrackKind::Video)
    } else if audio {
        Some(TrackKind::Audio)
    } else if text {
        Some(TrackKind::Subtitle)
    } else {
        None
    }
}

impl View for StreamReading {
    type V = Stream;

    open spec fn view(&self) -> Stream {
        Stream {
            kind: stream_kind(self.video, self.audio, self.text),
            id: models::optional(self.id),
            language: models::text_or(self.language, Seq::empty()),
            title: models::text_or(self.title, Seq::empty()),
            codec: models::text_or(self.codec, Seq::empty()),
        }
    }
}

/// The track for a stream at a place, if it is one that can be played.
pub open spec fn track_of(stream: Stream, at: u32, selected: Seq<Seq<char>>) -> Option<Track> {
    let id = match stream.id {
        Some(id) => id,
        None => "native-"@ + text::decimal(at as nat),
    };
    match stream.kind {
        None => None,
        Some(kind) => Some(
            Track {
                id,
                index: at as i32,
                kind,
                language: stream.language,
                label: tracks::labelled(
                    stream.title,
                    stream.language.len() > 0,
                    text::uppercase(stream.language),
                    "Track "@ + text::decimal((at + 1) as nat),
                ),
                codec: stream.codec,
                selected: selected.contains(id),
            },
        ),
    }
}

/// What streams a collection holds.
pub open spec fn streams(list: Seq<Option<StreamReading>>) -> Seq<Option<Stream>> {
    list.map_values(
        |reading: Option<StreamReading>|
            match reading {
                Some(reading) => Some(reading@),
                None => None,
            },
    )
}

/// The tracks for the streams of a collection.
pub open spec fn tracks_of(list: Seq<Option<Stream>>, selected: Seq<Seq<char>>) -> Seq<Track>
    decreases list.len(),
{
    if list.len() == 0 {
        Seq::empty()
    } else {
        let earlier = tracks_of(list.drop_last(), selected);
        match list.last() {
            None => earlier,
            Some(stream) => match track_of(stream, (list.len() - 1) as u32, selected) {
                None => earlier,
                Some(track) => earlier.push(track),
            },
        }
    }
}

/// Makes the track for a stream.
pub fn stream_track(reading: &StreamReading, at: u32, selected: &NameSet) -> (track: Option<
    NativeTrackInfo,
>)
    requires
        at < u32::MAX,
    ensures
        match track {
            Some(track) => track_of(reading@, at, selected@) == Some(track@),
            None => track_of(reading@, at, selected@) == None::<Track>,
        },
{
    let kind = if reading.video {
        TrackKind::Video
    } else if reading.audio {
        TrackKind::Audio
    } else if reading.text {
        TrackKind::Subtitle
    } else {
        return None;
    };
    let id = match &reading.id {
        Some(id) => id.clone(),
        None => text::join("native-", text::decimal_text(at as u64).as_str()),
    };
    proof {
        reveal_strlit("");
        assert(""@ =~= Seq::empty());
    }
    let language = models::copy_or(&reading.language, "");
    let number = text::decimal_text(at as u64 + 1);
    let label = tracks::label(
        models::copy_or(&reading.title, ""),
        !language.as_str().is_empty(),
        text::uppercase_text(language.as_str()),
        text::join("Track ", number.as_str()),
    );
    let chosen = selected.contains(id.as_str());
    Some(
        NativeTrackInfo {
            id,
            index: at as i32,
            kind,
            language,
            label,
            codec: models::copy_or(&reading.codec, ""),
            selected: chosen,
        },
    )
}

/// Makes the tracks for the streams of a collection.
fn collect_tracks(list: &Vec<Option<StreamReading>>, selected: &NameSet) -> (made: Vec<
    NativeTrackInfo,
>)
    requires
        list@.len() <= u32::MAX,
    ensures
        models::tracks(made@) == tracks_of(streams(list@), selected@),
{
    let mut made: Vec<NativeTrackInfo> = Vec::new();
    let mut at: usize = 0;
    let ghost all = streams(list@);
    assert(models::tracks(made@) =~= tracks_of(all.take(0), selected@));
    while at < list.len()
        invariant
            at <= list@.len() <= u32::MAX,
            all == streams(list@),
            models::tracks(made@) == tracks_of(all.take(at as int), selected@),
        decreases list@.len() - at,
    {
        let ghost earlier = models::tracks(made@);
        proof {
            assert(all.take(at + 1).drop_last() =~= all.take(at as int));
            assert(all.take(at + 1).last() == all[at as int]);
        }
        match &list[at] {
            None => {},
            Some(reading) => {
                match stream_track(reading, at as u32, selected) {
                    None => {},
                    Some(track) => {
                        let ghost added = track@;
                        made.push(track);
                        assert(models::tracks(made@) =~= earlier.push(added));
                    },
                }
            },
        }
        at = at + 1;
    }
    assert(all.take(at as int) =~= all);
    made
}

/// A message that waited on the bus.
#[derive(Debug)]
pub enum BusMessage {
    /// How full the buffer is, in percent.
    Buffering(i32),
    /// The streams that were found; `None` where one is gone again.
    StreamCollection(Vec<Option<StreamReading>>),
    /// The ids of the streams that the engine plays, as far as they have one.
    StreamsSelected(Vec<Option<String>>),
    Failed { error: String, debug: Option<String> },
    Other,
}

/// The ids among the answers, in order, each once.
pub open spec fn selected_ids(list: Seq<Option<String>>) -> Seq<Seq<char>>
    decreases list.len(),
{
    if list.len() == 0 {
        Seq::empty()
    } else {
        let earlier = selected_ids(list.drop_last());
        match list.last() {
            None => earlier,
            Some(id) => ordered::with_name(earlier, id@),
        }
    }
}

/// Collects the ids among the answers.
fn collect_ids(list: &Vec<Option<String>>) -> (ids: NameSet)
    ensures
        ids@ == selected_ids(list@),
{
    let mut ids = NameSet::new();
    let mut at: usize = 0;
    assert(ids@ =~= selected_ids(list@.take(0)));
    while at < list.len()
        invariant
            at <= list@.len(),
            ids@ == selected_ids(list@.take(at as int)),
        decreases list@.len() - at,
    {
        proof {
            assert(list@.take(at + 1).drop_last() =~= list@.take(at as int));
            assert(list@.take(at + 1).last() == list@[at as int]);
        }
        match &list[at] {
            None => {},
            Some(id) => ids.insert(id.clone()),
        }
        at = at + 1;
    }
    assert(list@.take(at as int) =~= list@);
    ids
}

/// Whether the engine plays on while its buffer stands at a percentage: only
/// when it should play and the buffer is full.
pub open spec fn buffering_state(desired_playing: bool, percent: i32) -> EngineState {
    if desired_playing && percent >= 100 { EngineState::Playing } else { EngineState::Paused }
}

/// The text of an engine error.
pub open spec fn engine_error(error: Seq<char>, debug: Seq<char>) -> Seq<char> {
    error + ": "@ + debug
}

/// What a message leads to: the player, and a call on the engine or a
/// failure.
pub open spec fn message_effect(player: Player, message: BusMessage) -> (Player, Result<
    Option<Call>,
    Failure,
>) {
    match message {
        BusMessage::Buffering(percent) => (
            Player { buffering_percent: percent, ..player },
            Ok(Some(Call::SetState(buffering_state(player.desired_playing, percent)))),
        ),
        BusMessage::StreamCollection(list) => (
            Player { tracks: tracks_of(streams(list@), player.selected), ..player },
            Ok(None),
        ),
        BusMessage::StreamsSelected(list) => {
            let selected = selected_ids(list@);
            (
                Player {
                    selected,
                    tracks: tracks::all_marked(player.tracks, selected),
                    ..player
                },
                Ok(None),
            )
        },
        BusMessage::Failed { error, debug } => {
            let message = engine_error(error@, models::text_or(debug, Seq::empty()));
            (Player { error: Some(message), ..player }, Err(Failure::Pipeline(message)))
        },
        BusMessage::Other => (player, Ok(None)),
    }
}

/// A collection is one that the engine can count.
pub open spec fn countable(message: BusMessage) -> bool {
    message matches BusMessage::StreamCollection(list) ==> list@.len() <= u32::MAX
}

/// Takes in a message from the bus and gives the call that it asks for.
pub fn drain_bus(player: &mut NativePlayer, message: BusMessage) -> (result: Result<
    Option<GstCall>,
    Error,
>)
    requires
        countable(message),
    ensures
        final(player)@ == message_effect(old(player)@, message).0,
        match message_effect(old(player)@, message).1 {
            Ok(None) => result matches Ok(None),
            Ok(Some(call)) => result matches Ok(Some(given)) && given@ == call,
            Err(failure) => error::fails(result, failure),
        },
{
    match message {
        BusMessage::Buffering(percent) => {
            player.buffering_percent = percent;
            if player.desired_playing && percent >= 100 {
                Ok(Some(GstCall::SetState(EngineState::Playing)))
            } else {
                Ok(Some(GstCall::SetState(EngineState::Paused)))
            }
        },
        BusMessage::StreamCollection(list) => {
            player.tracks = collect_tracks(&list, &player.selected_streams);
            Ok(None)
        },
        BusMessage::StreamsSelected(list) => {
            player.selected_streams = collect_ids(&list);
            tracks::mark(&mut player.tracks, &player.selected_streams);
            Ok(None)
        },
        BusMessage::Failed { error, debug } => {
            proof {
                reveal_strlit("");
                assert(""@ =~= Seq::empty());
            }
            let debug = models::copy_or(&debug, "");
            let message = text::enclose(error.as_str(), ": ", debug.as_str());
            player.error = Some(message.clone());
            Err(Error::Pipeline(message))
        },
        BusMessage::Other => Ok(None),
    }
}

/// Answers once the bus is empty: with the error that was kept, if there is
/// one.
pub fn bus_drained(player: &NativePlayer) -> (result: Result<(), Error>)
    ensures
        match player@.error {
            Some(message) => error::fails(result, Failure::Pipeline(message)),
            None => result is Ok,
        },
{
    match &player.error {
        Some(message) => Err(Error::Pipeline(message.clone())),
        None => Ok(()),
    }
}

/// What the engine says about the open source. Times are in nanoseconds.
#[derive(Clone, Copy, Debug, PartialEq, Eq, Structural)]
pub struct Readings {
    pub position: Option<u64>,
    pub duration: Option<u64>,
    pub latency: Option<bool>,
    pub seeking: Option<Seeking>,
    pub rendered: Option<u64>,
    pub dropped: Option<u64>,
    /// The size of the picture, once it is negotiated.
    pub width: Option<i32>,
    pub height: Option<i32>,
}

/// The larger of two numbers.
pub open spec fn larger(a: int, b: int) -> int {
    if a > b { a } else { b }
}

/// The smaller of two numbers.
pub open spec fn smaller(a: int, b: int) -> int {
    if a < b { a } else { b }
}

/// Up to where the source is buffered: what the buffer holds at its
/// percentage, ahead of the position. A live source has no end to stop it.
pub open spec fn buffered_until(player: Player, live: bool, position: u64, duration: u64) -> int {
    let milliseconds = match player.buffer_duration_ms {
        Some(milliseconds) => milliseconds as int,
        None => 0,
    };
    // A percent of a millisecond is ten thousand nanoseconds.
    let ahead = position + milliseconds * player.buffering_percent * 10_000;
    if live {
        larger(ahead, position as int)
    } else {
        smaller(ahead, larger(duration as int, position as int))
    }
}

/// How many bytes the buffer holds at its percentage.
pub open spec fn bytes_buffered(player: Player) -> int {
    match player.target_buffer_bytes {
        Some(target) => smaller(
            target * larger(player.buffering_percent as int, 0),
            u64::MAX as int,
        ) / 100,
        None => 0,
    }
}

/// A pixel count, with none where the engine gives none or a negative one.
pub open spec fn pixels(reading: Option<i32>) -> u32 {
    match reading {
        Some(count) => if count > 0 { count as u32 } else { 0 },
        None => 0,
    }
}

/// The snapshot for what the engine says.
pub open spec fn snapshot_of(player: Player, readings: Readings, now: u64) -> Snapshot {
    let position = models::or_zero(readings.position);
    let duration = models::or_zero(readings.duration);
    let timeline = linux_gstreamer::timeline(duration, readings.latency, readings.seeking);
    let buffered = buffered_until(player, timeline.live, position, duration);
    let end = if timeline.end > timeline.start {
        timeline.end as int
    } else {
        larger(duration as int, buffered)
    };
    let rendered = models::or_zero(readings.rendered);
    Snapshot {
        duration: MediaTime::Nanoseconds(duration as i128),
        position: MediaTime::Nanoseconds(position as i128),
        buffered: MediaTime::Nanoseconds(buffered as i128),
        live: timeline.live,
        seekable: timeline.seekable,
        seekable_start: MediaTime::Nanoseconds(timeline.start as i128),
        seekable_end: MediaTime::Nanoseconds(end as i128),
        playing: player.desired_playing,
        video_size: (pixels(readings.width), pixels(readings.height)),
        tracks: player.tracks,
        presented_frames: rendered,
        dropped_frames: models::or_zero(readings.dropped),
        measured_fps: player.meter.sampled(rendered, now).measured,
        hardware_backend: "gstreamer-va-gl-gtk"@,
        backend: "gstreamer"@,
        encoded_bytes_buffered: bytes_buffered(player) as u64,
        average_frame_processing_us: Double { bits: 0 },
    }
}

fn pixel_count(reading: Option<i32>) -> (count: u32)
    ensures
        count == pixels(reading),
{
    match reading {
        Some(count) => if count > 0 {
            count as u32
        } else {
            0
        },
        None => 0,
    }
}

/// Reports the player once its bus is drained, and says whether the rate of
/// frames was measured anew.
pub fn snapshot(player: &mut NativePlayer, readings: Readings, now: u64) -> (report: (
    NativePlaybackSnapshot,
    bool,
))
    ensures
        report.0@ == snapshot_of(old(player)@, readings, now),
        report.1 == (meter::elapsed(old(player).meter.last_sample_at, now)
            >= meter::SAMPLE_NANOSECONDS),
        final(player)@ == (Player {
            meter: old(player)@.meter.sampled(
                models::or_zero(readings.rendered),
                now,
            ),
            ..old(player)@
        }),
{
    let position: u64 = readings.position.unwrap_or(0);
    let duration: u64 = readings.duration.unwrap_or(0);
    let timeline = linux_gstreamer::playback_timeline(
        duration,
        readings.latency,
        readings.seeking,
    );
    let milliseconds: u32 = player.buffer_duration_ms.unwrap_or(0);
    let percent: i128 = player.buffering_percent as i128;
    assert(-0x8000_0000_0000_0000 <= milliseconds * percent <= 0x8000_0000_0000_0000)
        by (nonlinear_arith)
        requires
            0 <= milliseconds <= 0xffff_ffff,
            -0x8000_0000 <= percent <= 0x7fff_ffff,
    ;
    let ahead: i128 = position as i128 + milliseconds as i128 * percent * 10_000;
    let limit: i128 = if duration > position {
        duration as i128
    } else {
        position as i128
    };
    let buffered: i128 = if timeline.live {
        if ahead > position as i128 {
            ahead
        } else {
            position as i128
        }
    } else if ahead < limit {
        ahead
    } else {
        limit
    };
    let end: i128 = if timeline.end > timeline.start {
        timeline.end as i128
    } else if duration as i128 > buffered {
        duration as i128
    } else {
        buffered
    };
    let rendered = linux_gstreamer::rendered_frames(readings.rendered);
    let measured = player.meter.sample(rendered, now);
    let encoded: u64 = match player.target_buffer_bytes {
        Some(target) => {
            let factor: u64 = if player.buffering_percent > 0 {
                player.buffering_percent as u64
            } else {
                0
            };
            assert(0 <= target * factor <= 0xffff_ffff_ffff_ffff * 0xffff_ffff_ffff_ffff)
                by (nonlinear_arith)
                requires
                    0 <= target <= 0xffff_ffff_ffff_ffff,
                    0 <= factor <= 0xffff_ffff_ffff_ffff,
            ;
            match target.checked_mul(factor) {
                Some(product) => product / 100,
                None => u64::MAX / 100,
            }
        },
        None => 0,
    };
    let snapshot = NativePlaybackSnapshot {
        duration_seconds: MediaTime::Nanoseconds(duration as i128),
        current_time_seconds: MediaTime::Nanoseconds(position as i128),
        buffered_seconds: MediaTime::Nanoseconds(buffered),
        live: timeline.live,
        seekable: timeline.seekable,
        seekable_start_seconds: MediaTime::Nanoseconds(timeline.start as i128),
        seekable_end_seconds: MediaTime::Nanoseconds(end),
        playing: player.desired_playing,
        video_width: pixel_count(readings.width),
        video_height: pixel_count(readings.height),
        tracks: models::clone_tracks(&player.tracks),
        presented_frames: rendered,
        dropped_frames: linux_gstreamer::rendered_frames(readings.dropped),
        measured_fps: player.meter.measured,
        hardware_backend: "gstreamer-va-gl-gtk".to_owned(),
        backend: "gstreamer".to_owned(),
        encoded_bytes_buffered: encoded,
        average_frame_processing_us: Double::zero(),
    };
    (snapshot, measured)
}

} // verus!
