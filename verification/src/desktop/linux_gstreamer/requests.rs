//! What the requests to the GStreamer player lead to.
use crate::desktop::access;
use crate::desktop::linux_gstreamer::CreateStep;
use crate::desktop::linux_gstreamer::SourceSetting;
use crate::desktop::linux_gstreamer;
use crate::desktop::linux_gstreamer::BufferDuration;
use crate::desktop::linux_gstreamer::Call;
use crate::desktop::linux_gstreamer::Creation;
use crate::desktop::linux_gstreamer::EngineState;
use crate::desktop::linux_gstreamer::GstCall;
use crate::desktop::linux_gstreamer::NativePlayer;
use crate::desktop::linux_gstreamer::Player;
use crate::desktop::linux_gstreamer::Setting;
use crate::desktop::linux_gstreamer::SourceProperties;
use crate::desktop::linux_gstreamer::laws;
use crate::desktop::linux_gstreamer::session;
use crate::double::Double;
use crate::error::Error;
use crate::error::Failure;
use crate::models;
use crate::models::NativeControlRequest;
use crate::models::NativeOpenRequest;
use crate::models::Track;
use crate::ordered::Entry;
use crate::ordered;
use crate::text;
use crate::tracks;
use vstd::prelude::*;

verus! {

/// A request of the open session was taken.
pub open spec fn takes(
    before: Option<NativePlayer>,
    after: Option<NativePlayer>,
    payload: NativeControlRequest,
    result: Result<Vec<GstCall>, Error>,
) -> bool {
    &&& session::controls(before, after, payload, result)
    &&& before is Some
    &&& before->0.session_key@ == payload.session_key@
}

/// The engine got exactly these calls.
pub open spec fn told(result: Result<Vec<GstCall>, Error>, list: Seq<Call>) -> bool {
    result matches Ok(given) && linux_gstreamer::calls(given@) == list
}

/// A call with a condition is among the calls exactly once, and no other that
/// is like it.
pub open spec fn given_once(list: Seq<Call>, alike: spec_fn(Call) -> bool, call: Call) -> bool {
    exists|i: int|
        0 <= i < list.len() && #[trigger] list[i] == call && alike(call) && forall|j: int|
            0 <= j < list.len() && alike(#[trigger] list[j]) ==> j == i
}

/// Playing and pausing ask the engine for just that, and the player remembers
/// what was asked for; nothing else about it changes.
pub proof fn playing_and_pausing_do_so(
    before: Option<NativePlayer>,
    after: Option<NativePlayer>,
    payload: NativeControlRequest,
    result: Result<Vec<GstCall>, Error>,
)
    requires
        takes(before, after, payload, result),
    ensures
        payload.action@ == "play"@ ==> told(result, seq![Call::SetState(EngineState::Playing)])
            && after->0@ == (Player { desired_playing: true, ..before->0@ }),
        payload.action@ == "pause"@ ==> told(result, seq![Call::SetState(EngineState::Paused)])
            && after->0@ == (Player { desired_playing: false, ..before->0@ }),
{
    access::action_names_differ();
}

/// A seek lets the engine settle and then go exactly where it was asked to; to
/// the beginning, where that lies before it or is no number. The player stays
/// as it is.
pub proof fn seeks_go_where_they_are_asked_to(
    before: Option<NativePlayer>,
    after: Option<NativePlayer>,
    payload: NativeControlRequest,
    result: Result<Vec<GstCall>, Error>,
)
    requires
        takes(before, after, payload, result),
        payload.action@ == "seek"@,
    ensures
        after->0@ == before->0@,
        !payload.value.is_nan_spec() && payload.value.rank() >= 0 ==> told(
            result,
            seq![Call::Settle(3), Call::Seek(payload.value)],
        ),
        payload.value.is_nan_spec() || payload.value.rank() < 0 ==> told(
            result,
            seq![Call::Settle(3), Call::Seek(Double { bits: 0 })],
        ),
{
    access::action_names_differ();
}

/// A volume between none and full is set as it was asked for; one beyond
/// becomes none or full, and what is no number is left to the engine.
pub proof fn volumes_are_set_as_asked(
    before: Option<NativePlayer>,
    after: Option<NativePlayer>,
    payload: NativeControlRequest,
    result: Result<Vec<GstCall>, Error>,
)
    requires
        takes(before, after, payload, result),
        payload.action@ == "volume"@,
    ensures
        after->0@ == before->0@,
        payload.value.is_nan_spec() || 0 <= payload.value.rank() <= 0x3ff0_0000_0000_0000 ==> told(
            result,
            seq![Call::SetVolume(payload.value)],
        ),
        !payload.value.is_nan_spec() && payload.value.rank() < 0 ==> told(
            result,
            seq![Call::SetVolume(Double { bits: 0 })],
        ),
        !payload.value.is_nan_spec() && payload.value.rank() > 0x3ff0_0000_0000_0000 ==> told(
            result,
            seq![Call::SetVolume(Double { bits: 0x3ff0_0000_0000_0000 })],
        ),
{
    access::action_names_differ();
}

/// Only a picture that is to fit keeps its proportions.
pub proof fn only_fitting_keeps_proportions(
    before: Option<NativePlayer>,
    after: Option<NativePlayer>,
    payload: NativeControlRequest,
    result: Result<Vec<GstCall>, Error>,
)
    requires
        takes(before, after, payload, result),
        payload.action@ == "fit"@ || payload.action@ == "crop"@ || payload.action@ == "stretch"@,
    ensures
        after->0@ == before->0@,
        told(result, seq![Call::SetForceAspectRatio(payload.action@ == "fit"@)]),
{
    access::action_names_differ();
}

/// Choosing a track, or turning its kind off, tells the engine the whole new
/// selection, which the player keeps; the marks wait for the engine. An index
/// that no track has is refused and changes nothing.
pub proof fn choices_are_told_to_the_engine(
    before: Option<NativePlayer>,
    after: Option<NativePlayer>,
    payload: NativeControlRequest,
    result: Result<Vec<GstCall>, Error>,
)
    requires
        takes(before, after, payload, result),
        payload.action@ == "track"@ || payload.action@ == "deselectTrack"@,
    ensures
        (exists|i: int|
            0 <= i < before->0@.tracks.len() && (#[trigger] before->0@.tracks[i]).index
                == payload.index) ==> told(
            result,
            seq![Call::SelectStreams(after->0@.selected)],
        ) && after->0@ == (Player { selected: after->0@.selected, ..before->0@ }),
        (forall|i: int|
            0 <= i < before->0@.tracks.len() ==> (#[trigger] before->0@.tracks[i]).index
                != payload.index) ==> after->0@ == before->0@ && (result matches Err(error)
            && error@ == Failure::InvalidRequest(
            "unknown native track index "@ + text::signed_decimal(payload.index as int),
        )),
{
    access::action_names_differ();
    let list = before->0@.tracks;
    tracks::indices_are_looked_up(list, payload.index);
    if let Some(chosen) = tracks::first_with_index(list, payload.index) {
        let i = choose|i: int|
            0 <= i < list.len() && #[trigger] list[i] == chosen && forall|j: int|
                0 <= j < i ==> (#[trigger] list[j]).index != payload.index;
        assert(list[i].index == payload.index);
    }
}

/// A track has an index, and no earlier one of the list has it.
pub open spec fn found_at(list: Seq<Track>, index: i32, at: int) -> bool {
    &&& 0 <= at < list.len()
    &&& list[at].index == index
    &&& forall|j: int| 0 <= j < at ==> (#[trigger] list[j]).index != index
}

/// A track has an id, and no earlier one of the list has it.
pub open spec fn named_at(list: Seq<Track>, id: Seq<char>, at: int) -> bool {
    &&& 0 <= at < list.len()
    &&& list[at].id == id
    &&& forall|j: int| 0 <= j < at ==> (#[trigger] list[j]).id != id
}

proof fn lemma_found(list: Seq<Track>, index: i32, at: int)
    requires
        found_at(list, index, at),
    ensures
        tracks::first_with_index(list, index) == Some(list[at]),
{
    tracks::indices_are_looked_up(list, index);
    match tracks::first_with_index(list, index) {
        Some(track) => {
            let i = choose|i: int|
                0 <= i < list.len() && #[trigger] list[i] == track && forall|j: int|
                    0 <= j < i ==> (#[trigger] list[j]).index != index;
            if at < i {
                assert(list[at].index != index);
            }
            if i < at {
                assert(list[i].index != index);
            }
        },
        None => {
            assert(list[at].index != index);
        },
    }
}

proof fn lemma_named(list: Seq<Track>, id: Seq<char>, at: int)
    requires
        named_at(list, id, at),
    ensures
        tracks::first_with_id(list, id) == Some(list[at]),
{
    tracks::ids_are_looked_up(list, id);
    match tracks::first_with_id(list, id) {
        Some(track) => {
            let i = choose|i: int|
                0 <= i < list.len() && #[trigger] list[i] == track && forall|j: int|
                    0 <= j < i ==> (#[trigger] list[j]).id != id;
            if at < i {
                assert(list[at].id != id);
            }
            if i < at {
                assert(list[i].id != id);
            }
        },
        None => {
            assert(list[at].id != id);
        },
    }
}

/// The track at a place was chosen, or its kind turned off. A stream whose
/// track is at another place is then selected exactly when it is the chosen
/// one, or was selected before and is of another kind.
pub proof fn choices_spare_other_kinds(
    before: Option<NativePlayer>,
    after: Option<NativePlayer>,
    payload: NativeControlRequest,
    result: Result<Vec<GstCall>, Error>,
    at: int,
    other: int,
)
    requires
        takes(before, after, payload, result),
        payload.action@ == "track"@ || payload.action@ == "deselectTrack"@,
        found_at(before->0@.tracks, payload.index, at),
        named_at(before->0@.tracks, before->0@.tracks[other].id, other),
    ensures
        after->0@.selected.contains(before->0@.tracks[other].id) == (payload.action@ == "track"@
            && before->0@.tracks[other].id == before->0@.tracks[at].id || before->0@.tracks[other].kind
            != before->0@.tracks[at].kind && before->0@.selected.contains(
            before->0@.tracks[other].id,
        )),
{
    access::action_names_differ();
    let player = before->0@;
    let id = player.tracks[other].id;
    lemma_found(player.tracks, payload.index, at);
    lemma_named(player.tracks, id, other);
    laws::choices_are_exclusive(player, payload.index, payload.action@ == "track"@, id);
}

/// An action that the engine does not know is refused by its name, and changes
/// nothing.
pub proof fn other_actions_are_refused(
    before: Option<NativePlayer>,
    after: Option<NativePlayer>,
    payload: NativeControlRequest,
    result: Result<Vec<GstCall>, Error>,
)
    requires
        takes(before, after, payload, result),
        payload.action@ != "play"@,
        payload.action@ != "pause"@,
        payload.action@ != "seek"@,
        payload.action@ != "volume"@,
        payload.action@ != "fit"@,
        payload.action@ != "crop"@,
        payload.action@ != "stretch"@,
        payload.action@ != "track"@,
        payload.action@ != "deselectTrack"@,
    ensures
        after->0@ == before->0@,
        result matches Err(error) && error@ == Failure::InvalidRequest(
            "unsupported native action: "@ + payload.action@,
        ),
{
}

/// A loading begins at rest and ends in motion, or paused where no playing was
/// asked for; between, the source, its buffering, its volume and its place are
/// each given once, as they were asked for.
pub proof fn loads_follow_the_request(payload: NativeOpenRequest)
    ensures
        ({
            let list = linux_gstreamer::load_calls(payload);
            let zero = Double { bits: 0 };
            let one = Double { bits: 0x3ff0_0000_0000_0000 };
            &&& list.len() == 11
            &&& list[0] == Call::SetState(EngineState::Ready)
            &&& list[1] == Call::ReachReady(5)
            &&& list[2] == Call::DiscardMessages
            &&& list[10] == Call::SetState(
                if payload.autoplay {
                    EngineState::Playing
                } else {
                    EngineState::Paused
                },
            )
            &&& forall|i: int| 0 < i < 10 ==> !(#[trigger] list[i] is SetState)
            &&& given_once(list, |c: Call| c is AdoptSource, Call::AdoptSource)
            &&& given_once(list, |c: Call| c is SetUri, Call::SetUri(payload.uri@))
            &&& given_once(
                list,
                |c: Call| c is SetForceAspectRatio,
                Call::SetForceAspectRatio(true),
            )
            &&& given_once(list, |c: Call| c is PlaceWidget, Call::PlaceWidget)
            &&& payload.muted ==> given_once(list, |c: Call| c is SetVolume, Call::SetVolume(zero))
            &&& !payload.muted && !payload.volume.is_nan_spec() && payload.volume.rank() < 0
                ==> given_once(list, |c: Call| c is SetVolume, Call::SetVolume(zero))
            &&& !payload.muted && !payload.volume.is_nan_spec() && payload.volume.rank()
                > one.rank() ==> given_once(
                list,
                |c: Call| c is SetVolume,
                Call::SetVolume(one),
            )
            &&& !payload.muted && (payload.volume.is_nan_spec() || 0 <= payload.volume.rank()
                <= one.rank()) ==> given_once(
                list,
                |c: Call| c is SetVolume,
                Call::SetVolume(payload.volume),
            )
        }),
{
    let list = linux_gstreamer::load_calls(payload);
    assert(list[3] == Call::AdoptSource);
    assert(list[4] == Call::SetUri(payload.uri@));
    assert(list[5] is SetBufferDuration);
    assert(list[6] is SetBufferSize);
    assert(list[7] is SetVolume);
    assert(list[8] == Call::SetForceAspectRatio(true));
    assert(list[9] == Call::PlaceWidget);
}

/// A buffer that is asked for is asked of the pipeline as it is, unless it lies
/// outside its bounds; where none is asked for, the pipeline chooses. A new
/// pipeline gets the same.
pub proof fn buffers_follow_the_request(payload: NativeOpenRequest)
    ensures
        ({
            let list = linux_gstreamer::load_calls(payload);
            let duration = |d: BufferDuration|
                given_once(list, |c: Call| c is SetBufferDuration, Call::SetBufferDuration(d));
            let size = |b: i32| given_once(list, |c: Call| c is SetBufferSize, Call::SetBufferSize(b));
            &&& match payload.max_buffer_ms {
                None => duration(BufferDuration::Automatic),
                Some(ms) => {
                    &&& 3_000 <= ms <= 120_000 ==> duration(BufferDuration::Milliseconds(ms))
                    &&& ms < 3_000 ==> duration(BufferDuration::Milliseconds(3_000))
                    &&& ms > 120_000 ==> duration(BufferDuration::Milliseconds(120_000))
                },
            }
            &&& match payload.target_buffer_bytes {
                None => size(-1i32),
                Some(bytes) => {
                    &&& 4_194_304 <= bytes <= i32::MAX ==> size(bytes as i32)
                    &&& bytes < 4_194_304 ==> size(4_194_304i32)
                    &&& bytes > i32::MAX ==> size(i32::MAX)
                },
            }
            &&& exists|i: int|
                {
                    &&& 0 <= i < linux_gstreamer::creation(payload).len()
                    &&& #[trigger] linux_gstreamer::creation(payload)[i]
                        matches Creation::MakePipeline { uri, buffer_duration_ms, buffer_size }
                    &&& uri == payload.uri@
                    &&& match buffer_duration_ms {
                        None => duration(BufferDuration::Automatic),
                        Some(ms) => duration(BufferDuration::Milliseconds(ms)),
                    }
                    &&& match buffer_size {
                        None => size(-1i32),
                        Some(bytes) => size(bytes),
                    }
                }
        }),
{
    let list = linux_gstreamer::load_calls(payload);
    assert(list[3] is AdoptSource);
    assert(list[4] is SetUri);
    assert(list[5] is SetBufferDuration);
    assert(list[6] is SetBufferSize);
    assert(list[7] is SetVolume);
    assert(list[8] is SetForceAspectRatio);
    assert(list[9] is PlaceWidget);
    let pipeline = linux_gstreamer::creation(payload)[3];
    assert(pipeline is MakePipeline);
}

/// The player expects the buffer that the pipeline was asked for.
pub proof fn players_expect_their_buffer(
    player: Player,
    payload: NativeOpenRequest,
    rendered: u64,
    now: u64,
)
    ensures
        ({
            let list = linux_gstreamer::load_calls(payload);
            let after = linux_gstreamer::behind_load_call(player, payload, 1, rendered, now);
            &&& given_once(
                list,
                |c: Call| c is SetBufferDuration,
                Call::SetBufferDuration(
                    match after.buffer_duration_ms {
                        None => BufferDuration::Automatic,
                        Some(ms) => BufferDuration::Milliseconds(ms),
                    },
                ),
            )
            &&& after.target_buffer_bytes is None <==> payload.target_buffer_bytes is None
            &&& after.target_buffer_bytes matches Some(bytes) ==> bytes <= i32::MAX && given_once(
                list,
                |c: Call| c is SetBufferSize,
                Call::SetBufferSize(bytes as i32),
            )
            &&& after.meter.last_frames == rendered
            &&& after.meter.last_sample_at == now
            &&& after.meter.measured.frames == 0
        }),
{
    buffers_follow_the_request(payload);
}

/// The steps to a player stand in their order: each part is made before it is
/// used.
pub proof fn players_are_made_in_order(payload: NativeOpenRequest)
    ensures
        ({
            let list = linux_gstreamer::creation(payload);
            &&& list.len() == 7
            &&& list[0] == Creation::MakeVideoSink {
                force_aspect_ratio: true,
                sync: true,
                enable_last_sample: false,
            }
            &&& list[1] is MakeTerminalSink
            &&& list[2] is MakeGlSink
            &&& list[3] is MakePipeline
            &&& list[4] is ConnectSourceSetup
            &&& list[5] is AdoptWidget
            &&& list[6] is PlaceWidget
        }),
{
}

proof fn lemma_joined(first: Seq<Setting>, second: Seq<Setting>, setting: Setting)
    ensures
        (first + second).contains(setting) <==> first.contains(setting) || second.contains(setting),
{
    let all = first + second;
    if first.contains(setting) {
        let i = choose|i: int| 0 <= i < first.len() && first[i] == setting;
        assert(all[i] == setting);
    }
    if second.contains(setting) {
        let i = choose|i: int| 0 <= i < second.len() && second[i] == setting;
        assert(all[first.len() + i] == setting);
    }
}

proof fn lemma_when(condition: bool, given: Setting, setting: Setting)
    ensures
        linux_gstreamer::when(condition, given).contains(setting) <==> condition && given
            == setting,
{
    if condition {
        assert(linux_gstreamer::when(condition, given)[0] == given);
    }
}

proof fn lemma_given(known: SourceProperties, source: NativeOpenRequest, setting: Setting)
    ensures
        linux_gstreamer::source_settings(known, source).contains(setting) <==> {
            ||| known.user_agent && source.user_agent is Some && setting == Setting::UserAgent(
                source.user_agent->0@,
            )
            ||| known.timeout && setting == Setting::Timeout(60)
            ||| known.cookies && source.cookies is Some && setting == Setting::Cookies(
                source.cookies->0@,
            )
            ||| known.tls_database && source.tls_ca_file is Some && setting == Setting::TlsDatabase(
                source.tls_ca_file->0@,
            )
            ||| !known.tls_database && known.ssl_ca_file && source.tls_ca_file is Some && setting
                == Setting::SslCaFile(source.tls_ca_file->0@)
            ||| known.extra_headers && (source.headers@.len() > 0 || source.referrer is Some)
                && setting == Setting::ExtraHeaders(
                linux_gstreamer::request_headers(
                    source.headers@,
                    models::optional(source.referrer),
                ),
            )
        },
{
    let file = Setting::TlsDatabase(models::text_or(source.tls_ca_file, Seq::empty()));
    let older = Setting::SslCaFile(models::text_or(source.tls_ca_file, Seq::empty()));
    let agent = Setting::UserAgent(models::text_or(source.user_agent, Seq::empty()));
    let cookies = Setting::Cookies(models::text_or(source.cookies, Seq::empty()));
    let headers = Setting::ExtraHeaders(
        linux_gstreamer::request_headers(source.headers@, models::optional(source.referrer)),
    );
    let c1 = known.user_agent && source.user_agent is Some;
    let c3 = known.cookies && source.cookies is Some;
    let c4 = known.tls_database && source.tls_ca_file is Some;
    let c5 = !known.tls_database && known.ssl_ca_file && source.tls_ca_file is Some;
    let c6 = known.extra_headers && (source.headers@.len() > 0 || source.referrer is Some);
    let s1 = linux_gstreamer::when(c1, agent);
    let s2 = linux_gstreamer::when(known.timeout, Setting::Timeout(60));
    let s3 = linux_gstreamer::when(c3, cookies);
    let s4 = linux_gstreamer::when(c4, file);
    let s5 = linux_gstreamer::when(c5, older);
    let s6 = linux_gstreamer::when(c6, headers);
    lemma_when(c1, agent, setting);
    lemma_when(known.timeout, Setting::Timeout(60), setting);
    lemma_when(c3, cookies, setting);
    lemma_when(c4, file, setting);
    lemma_when(c5, older, setting);
    lemma_when(c6, headers, setting);
    lemma_joined(s1, s2, setting);
    lemma_joined(s1 + s2, s3, setting);
    lemma_joined(s1 + s2 + s3, s4, setting);
    lemma_joined(s1 + s2 + s3 + s4, s5, setting);
    lemma_joined(s1 + s2 + s3 + s4 + s5, s6, setting);
    assert(linux_gstreamer::source_settings(known, source) == s1 + s2 + s3 + s4 + s5 + s6);
}

/// A source element gets a setting exactly when it knows it and the request
/// asks for it; the certificate file goes to the database where there is one.
pub proof fn sources_get_what_was_asked(
    known: SourceProperties,
    source: NativeOpenRequest,
    value: String,
    seconds: u32,
)
    ensures
        ({
            let list = linux_gstreamer::source_settings(known, source);
            &&& list.contains(Setting::UserAgent(value@)) <==> known.user_agent && (
            source.user_agent matches Some(agent) && agent@ == value@)
            &&& list.contains(Setting::Cookies(value@)) <==> known.cookies && (
            source.cookies matches Some(cookies) && cookies@ == value@)
            &&& list.contains(Setting::TlsDatabase(value@)) <==> known.tls_database && (
            source.tls_ca_file matches Some(file) && file@ == value@)
            &&& list.contains(Setting::SslCaFile(value@)) <==> !known.tls_database
                && known.ssl_ca_file && (source.tls_ca_file matches Some(file) && file@ == value@)
            &&& list.contains(Setting::Timeout(seconds)) <==> known.timeout && seconds == 60
        }),
{
    lemma_given(known, source, Setting::UserAgent(value@));
    lemma_given(known, source, Setting::Cookies(value@));
    lemma_given(known, source, Setting::TlsDatabase(value@));
    lemma_given(known, source, Setting::SslCaFile(value@));
    lemma_given(known, source, Setting::Timeout(seconds));
}

/// A source element that knows headers gets those of the request, and its
/// referrer behind them unless one of them gives it already; it gets none where
/// the request has neither.
pub proof fn sources_get_their_headers(
    known: SourceProperties,
    source: NativeOpenRequest,
    list: Seq<Entry>,
)
    ensures
        ({
            let given = linux_gstreamer::source_settings(known, source).contains(
                Setting::ExtraHeaders(list),
            );
            let own = source.headers@;
            let named = exists|i: int|
                0 <= i < own.len() && text::same_without_case((#[trigger] own[i]).0, "referer"@);
            &&& !known.extra_headers || own.len() == 0 && source.referrer is None ==> !given
            &&& known.extra_headers && source.referrer is None && own.len() > 0 ==> (given <==> list
                == own)
            &&& known.extra_headers && source.referrer is Some && named ==> (given <==> list == own)
            &&& known.extra_headers && source.referrer is Some && !named ==> (given <==> list
                == own.push(("Referer"@, source.referrer->0@)))
        }),
{
    lemma_given(known, source, Setting::ExtraHeaders(list));
    let own = source.headers@;
    if exists|i: int| 0 <= i < own.len() && linux_gstreamer::names_referer(#[trigger] own[i]) {
        let i = choose|i: int|
            0 <= i < own.len() && linux_gstreamer::names_referer(#[trigger] own[i]);
        assert(text::same_without_case(own[i].0, "referer"@));
    }
    if exists|i: int|
        0 <= i < own.len() && text::same_without_case((#[trigger] own[i]).0, "referer"@) {
        let i = choose|i: int|
            0 <= i < own.len() && text::same_without_case((#[trigger] own[i]).0, "referer"@);
        assert(linux_gstreamer::names_referer(own[i]));
    }
}

/// A player at rest keeps its engine and gives up all that belongs to a
/// session; resting silences the engine first.
pub proof fn resting_players_are_silent(player: Player)
    ensures
        session::parking(true)[0] == Call::SetState(EngineState::Ready),
        session::parking(true).contains(Call::HideWidget),
        session::parking(false).len() == 0,
        session::parked(player).session_key.len() == 0,
        session::parked(player).tracks.len() == 0,
        session::parked(player).selected.len() == 0,
        session::parked(player).error is None,
        session::parked(player).meter == player.meter,
        session::parked(player).desired_playing == player.desired_playing,
        session::parked(player).buffering_percent == player.buffering_percent,
{
    assert(session::parking(true)[1] == Call::HideWidget);
}

/// How the states are written in messages.
pub proof fn states_have_their_names()
    ensures
        linux_gstreamer::state_name(EngineState::VoidPending) == "VoidPending"@,
        linux_gstreamer::state_name(EngineState::Null) == "Null"@,
        linux_gstreamer::state_name(EngineState::Ready) == "Ready"@,
        linux_gstreamer::state_name(EngineState::Paused) == "Paused"@,
        linux_gstreamer::state_name(EngineState::Playing) == "Playing"@,
{
}

/// The calls of a list stay at their places and say what they are.
pub proof fn calls_say_what_they_are(list: Seq<GstCall>, at: int)
    requires
        0 <= at < list.len(),
    ensures
        linux_gstreamer::calls(list).len() == list.len(),
        match list[at] {
            GstCall::SetState(state) => linux_gstreamer::calls(list)[at] == Call::SetState(state),
            GstCall::ReachReady(seconds) => linux_gstreamer::calls(list)[at] == Call::ReachReady(
                seconds,
            ),
            GstCall::Settle(seconds) => linux_gstreamer::calls(list)[at] == Call::Settle(seconds),
            GstCall::DiscardMessages => linux_gstreamer::calls(list)[at] is DiscardMessages,
            GstCall::AdoptSource => linux_gstreamer::calls(list)[at] is AdoptSource,
            GstCall::SetUri(uri) => linux_gstreamer::calls(list)[at] == Call::SetUri(uri@),
            GstCall::SetBufferDuration(duration) => linux_gstreamer::calls(list)[at]
                == Call::SetBufferDuration(duration),
            GstCall::SetBufferSize(bytes) => linux_gstreamer::calls(list)[at]
                == Call::SetBufferSize(bytes),
            GstCall::SetVolume(volume) => linux_gstreamer::calls(list)[at] == Call::SetVolume(
                volume,
            ),
            GstCall::SetForceAspectRatio(force) => linux_gstreamer::calls(list)[at]
                == Call::SetForceAspectRatio(force),
            GstCall::PlaceWidget => linux_gstreamer::calls(list)[at] is PlaceWidget,
            GstCall::HideWidget => linux_gstreamer::calls(list)[at] is HideWidget,
            GstCall::Seek(position) => linux_gstreamer::calls(list)[at] == Call::Seek(position),
            GstCall::SelectStreams(ids) => linux_gstreamer::calls(list)[at] == Call::SelectStreams(
                Seq::new(ids@.len(), |i: int| ids@[i]@),
            ),
        },
{
    if let GstCall::SelectStreams(ids) = list[at] {
        assert(ordered::texts(ids@) =~= Seq::new(ids@.len(), |i: int| ids@[i]@));
    }
}

/// The settings of a list stay at their places and say what they are.
pub proof fn settings_say_what_they_are(list: Seq<SourceSetting>, at: int)
    requires
        0 <= at < list.len(),
    ensures
        linux_gstreamer::settings(list).len() == list.len(),
        match list[at] {
            SourceSetting::UserAgent(text) => linux_gstreamer::settings(list)[at]
                == Setting::UserAgent(text@),
            SourceSetting::Timeout(seconds) => linux_gstreamer::settings(list)[at]
                == Setting::Timeout(seconds),
            SourceSetting::Cookies(text) => linux_gstreamer::settings(list)[at]
                == Setting::Cookies(text@),
            SourceSetting::TlsDatabase(path) => linux_gstreamer::settings(list)[at]
                == Setting::TlsDatabase(path@),
            SourceSetting::SslCaFile(path) => linux_gstreamer::settings(list)[at]
                == Setting::SslCaFile(path@),
            SourceSetting::ExtraHeaders(headers) => linux_gstreamer::settings(list)[at]
                == Setting::ExtraHeaders(
                Seq::new(headers@.len(), |i: int| (headers@[i].0@, headers@[i].1@)),
            ),
        },
{
    if let SourceSetting::ExtraHeaders(headers) = list[at] {
        assert(linux_gstreamer::entries(headers@) =~= Seq::new(
            headers@.len(),
            |i: int| (headers@[i].0@, headers@[i].1@),
        ));
    }
}

/// The steps of a list stay at their places, and the one that makes the pipeline
/// says how.
pub proof fn steps_say_what_they_are(list: Seq<CreateStep>, at: int)
    requires
        0 <= at < list.len(),
    ensures
        linux_gstreamer::creations(list).len() == list.len(),
        match list[at] {
            CreateStep::MakeVideoSink { force_aspect_ratio, sync, enable_last_sample } => {
                linux_gstreamer::creations(list)[at] == Creation::MakeVideoSink {
                    force_aspect_ratio,
                    sync,
                    enable_last_sample,
                }
            },
            CreateStep::MakeTerminalSink => {
                linux_gstreamer::creations(list)[at] is MakeTerminalSink
            },
            CreateStep::MakeGlSink => linux_gstreamer::creations(list)[at] is MakeGlSink,
            CreateStep::MakePipeline { uri, buffer_duration_ms, buffer_size } => {
                linux_gstreamer::creations(list)[at] == Creation::MakePipeline {
                    uri: uri@,
                    buffer_duration_ms,
                    buffer_size,
                }
            },
            CreateStep::ConnectSourceSetup => {
                linux_gstreamer::creations(list)[at] is ConnectSourceSetup
            },
            CreateStep::AdoptWidget => linux_gstreamer::creations(list)[at] is AdoptWidget,
            CreateStep::PlaceWidget => linux_gstreamer::creations(list)[at] is PlaceWidget,
        },
{
}

/// A player shows each of its fields.
pub proof fn players_show_their_fields(player: NativePlayer)
    ensures
        player@.session_key == player.session_key@,
        player@.buffering_percent == player.buffering_percent,
        player@.buffer_duration_ms == player.buffer_duration_ms,
        player@.target_buffer_bytes == player.target_buffer_bytes,
        player@.desired_playing == player.desired_playing,
        player.error is None ==> player@.error is None,
        player.error matches Some(error) ==> player@.error == Some(error@),
        player@.meter == player.meter,
        player@.tracks == models::tracks(player.tracks@),
        player@.selected == player.selected_streams@,
        linux_gstreamer::in_slot(Some(player)) == Some(player@),
        linux_gstreamer::in_slot(None) is None,
{
}

} // verus!
