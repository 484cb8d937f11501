//! What the requests to the mpv player lead to.
use crate::desktop::access;
use crate::desktop::linux_mpv::BufferReadings;
use crate::desktop::linux_mpv::EngineCall;
use crate::desktop::linux_mpv::EngineOption;
use crate::desktop::linux_mpv::MpvCall;
use crate::desktop::linux_mpv::MpvValue;
use crate::desktop::linux_mpv::session::TeardownStep;
use crate::desktop::linux_mpv;
use crate::desktop::linux_mpv::Call;
use crate::desktop::linux_mpv::CreateStep;
use crate::desktop::linux_mpv::MpvBufferDefaults;
use crate::desktop::linux_mpv::MpvPlayer;
use crate::desktop::linux_mpv::MpvProperty;
use crate::desktop::linux_mpv::Player;
use crate::desktop::linux_mpv::Value;
use crate::desktop::linux_mpv::list;
use crate::desktop::linux_mpv::session;
use crate::double::Double;
use crate::error::Error;
use crate::error::Failure;
use crate::models::NativeControlRequest;
use crate::models::NativeOpenRequest;
use crate::models::TrackKind;
use crate::models;
use crate::text;
use vstd::prelude::*;

verus! {

/// A request names the session of an open player.
pub open spec fn belongs(slot: Option<MpvPlayer>, payload: NativeControlRequest) -> bool {
    slot is Some && slot->0.session_key@ == payload.session_key@
}

/// A request leads to the setting of a property.
pub open spec fn sets(
    slot: Option<MpvPlayer>,
    payload: NativeControlRequest,
    property: MpvProperty,
    value: Value,
) -> bool {
    session::controlled(slot, payload) == Ok::<Call, Failure>(Call::SetProperty(property, value))
}

/// Playing and pausing set just that.
pub proof fn playing_and_pausing_do_so(slot: Option<MpvPlayer>, payload: NativeControlRequest)
    requires
        belongs(slot, payload),
    ensures
        payload.action@ == "play"@ ==> sets(slot, payload, MpvProperty::Pause, Value::Flag(false)),
        payload.action@ == "pause"@ ==> sets(slot, payload, MpvProperty::Pause, Value::Flag(true)),
{
    access::action_names_differ();
}

/// A seek goes exactly where it was asked to; to the beginning, where that lies
/// before it or is no number.
pub proof fn seeks_go_where_they_are_asked_to(
    slot: Option<MpvPlayer>,
    payload: NativeControlRequest,
)
    requires
        belongs(slot, payload),
        payload.action@ == "seek"@,
    ensures
        !payload.value.is_nan_spec() && payload.value.rank() >= 0 ==> session::controlled(
            slot,
            payload,
        ) == Ok::<Call, Failure>(Call::Seek(payload.value)),
        payload.value.is_nan_spec() || payload.value.rank() < 0 ==> session::controlled(
            slot,
            payload,
        ) == Ok::<Call, Failure>(Call::Seek(Double { bits: 0 })),
{
    access::action_names_differ();
}

/// A volume between none and full is set as it was asked for; one beyond
/// becomes none or full, and what is no number is left to the engine.
pub proof fn volumes_are_set_as_asked(slot: Option<MpvPlayer>, payload: NativeControlRequest)
    requires
        belongs(slot, payload),
        payload.action@ == "volume"@,
    ensures
        payload.value.is_nan_spec() || 0 <= payload.value.rank() <= 0x3ff0_0000_0000_0000 ==> sets(
            slot,
            payload,
            MpvProperty::Volume,
            Value::Percent(payload.value),
        ),
        !payload.value.is_nan_spec() && payload.value.rank() < 0 ==> sets(
            slot,
            payload,
            MpvProperty::Volume,
            Value::Percent(Double { bits: 0 }),
        ),
        !payload.value.is_nan_spec() && payload.value.rank() > 0x3ff0_0000_0000_0000 ==> sets(
            slot,
            payload,
            MpvProperty::Volume,
            Value::Percent(Double { bits: 0x3ff0_0000_0000_0000 }),
        ),
{
    access::action_names_differ();
}

/// Fitting shows the whole picture, cropping fills the place with it, and
/// stretching never enlarges it; zooming enlarges it by the factor that was
/// asked for, and never shrinks it.
pub proof fn pictures_are_shown_as_asked(slot: Option<MpvPlayer>, payload: NativeControlRequest)
    requires
        belongs(slot, payload),
    ensures
        payload.action@ == "fit"@ ==> sets(
            slot,
            payload,
            MpvProperty::Panscan,
            Value::Number(Double { bits: 0 }),
        ),
        payload.action@ == "crop"@ ==> sets(
            slot,
            payload,
            MpvProperty::Panscan,
            Value::Number(Double { bits: 0x3ff0_0000_0000_0000 }),
        ),
        payload.action@ == "stretch"@ ==> sets(
            slot,
            payload,
            MpvProperty::VideoUnscaled,
            Value::Text("downscale-big"@),
        ),
        payload.action@ == "zoom"@ && !payload.value.is_nan_spec() && payload.value.rank()
            >= 0x3ff0_0000_0000_0000 ==> sets(
            slot,
            payload,
            MpvProperty::VideoZoom,
            Value::Log2(payload.value),
        ),
        payload.action@ == "zoom"@ && (payload.value.is_nan_spec() || payload.value.rank()
            < 0x3ff0_0000_0000_0000) ==> sets(
            slot,
            payload,
            MpvProperty::VideoZoom,
            Value::Log2(Double { bits: 0x3ff0_0000_0000_0000 }),
        ),
{
    access::action_names_differ();
}

proof fn lemma_target(list: Seq<linux_mpv::TrackTarget>, index: i32, at: int)
    requires
        0 <= at < list.len(),
        list[at].public_index == index,
        forall|i: int| 0 <= i < at ==> (#[trigger] list[i]).public_index != index,
    ensures
        session::first_target(list, index) == Some(list[at]),
    decreases at,
{
    if at > 0 {
        assert(list[0].public_index != index);
        assert forall|i: int| 0 <= i < at - 1 implies (#[trigger] list.drop_first()[i]).public_index
            != index by {
            assert(list[i + 1].public_index != index);
        }
        lemma_target(list.drop_first(), index, at - 1);
    }
}

proof fn lemma_no_target(list: Seq<linux_mpv::TrackTarget>, index: i32)
    requires
        forall|i: int| 0 <= i < list.len() ==> (#[trigger] list[i]).public_index != index,
    ensures
        session::first_target(list, index) is None,
    decreases list.len(),
{
    if list.len() > 0 {
        assert(list[0].public_index != index);
        assert forall|i: int| 0 <= i < list.len() - 1 implies (
        #[trigger] list.drop_first()[i]).public_index != index by {
            assert(list[i + 1].public_index != index);
        }
        lemma_no_target(list.drop_first(), index);
    }
}

/// Choosing a track sets the property of its kind to its own number in the
/// engine, and turning it off sets that property to no track.
pub proof fn choices_name_the_track_of_the_engine(
    slot: Option<MpvPlayer>,
    payload: NativeControlRequest,
    at: int,
)
    requires
        belongs(slot, payload),
        0 <= at < slot->0.track_targets@.len(),
        slot->0.track_targets@[at].public_index == payload.index,
        forall|i: int|
            0 <= i < at ==> (#[trigger] slot->0.track_targets@[i]).public_index != payload.index,
    ensures
        ({
            let target = slot->0.track_targets@[at];
            let property = match target.kind {
                TrackKind::Video => MpvProperty::Vid,
                TrackKind::Audio => MpvProperty::Aid,
                TrackKind::Subtitle => MpvProperty::Sid,
            };
            &&& payload.action@ == "track"@ ==> sets(
                slot,
                payload,
                property,
                Value::Integer(target.mpv_id),
            )
            &&& payload.action@ == "deselectTrack"@ ==> sets(
                slot,
                payload,
                property,
                Value::Text("no"@),
            )
        }),
{
    access::action_names_differ();
    lemma_target(slot->0.track_targets@, payload.index, at);
}

/// An index that no track has, and an action that the engine does not know, are
/// refused by name.
pub proof fn unknown_requests_are_refused(slot: Option<MpvPlayer>, payload: NativeControlRequest)
    requires
        belongs(slot, payload),
    ensures
        (payload.action@ == "track"@ || payload.action@ == "deselectTrack"@) && (forall|i: int|
            0 <= i < slot->0.track_targets@.len() ==> (
            #[trigger] slot->0.track_targets@[i]).public_index != payload.index)
            ==> session::controlled(slot, payload) == Err::<Call, Failure>(
            Failure::InvalidRequest(
                "unknown native track index "@ + text::signed_decimal(payload.index as int),
            ),
        ),
        payload.action@ != "play"@ && payload.action@ != "pause"@ && payload.action@ != "seek"@
            && payload.action@ != "volume"@ && payload.action@ != "fit"@ && payload.action@
            != "crop"@ && payload.action@ != "stretch"@ && payload.action@ != "zoom"@
            && payload.action@ != "track"@ && payload.action@ != "deselectTrack"@
            ==> session::controlled(slot, payload) == Err::<Call, Failure>(
            Failure::InvalidRequest("unsupported native action: "@ + payload.action@),
        ),
{
    access::action_names_differ();
    if forall|i: int|
        0 <= i < slot->0.track_targets@.len() ==> (
        #[trigger] slot->0.track_targets@[i]).public_index != payload.index {
        lemma_no_target(slot->0.track_targets@, payload.index);
    }
}

/// A call sets a property.
pub open spec fn is_setting(call: Call, property: MpvProperty) -> bool {
    call matches Call::SetProperty(given, _) && given == property
}

/// A property is set exactly once among calls, to this value, and before a
/// source is loaded.
pub open spec fn set_once(list: Seq<Call>, property: MpvProperty, value: Value) -> bool {
    exists|i: int|
        {
            &&& 0 <= i < list.len()
            &&& #[trigger] list[i] == Call::SetProperty(property, value)
            &&& forall|j: int|
                0 <= j < list.len() && is_setting(#[trigger] list[j], property) ==> j == i
            &&& forall|j: int| 0 <= j <= i ==> !(#[trigger] list[j] is LoadFile)
        }
}

proof fn lemma_places(defaults: MpvBufferDefaults, payload: NativeOpenRequest)
    ensures
        ({
            let list = linux_mpv::source_calls(defaults, payload);
            &&& list.len() == 15
            &&& list[0] is Stop
            &&& is_setting(list[1], MpvProperty::HttpHeaderFields)
            &&& is_setting(list[2], MpvProperty::UserAgent)
            &&& is_setting(list[3], MpvProperty::TlsCaFile)
            &&& is_setting(list[4], MpvProperty::CacheSecs)
            &&& is_setting(list[5], MpvProperty::DemuxerReadaheadSecs)
            &&& is_setting(list[6], MpvProperty::DemuxerMaxBytes)
            &&& is_setting(list[7], MpvProperty::DemuxerMaxBackBytes)
            &&& is_setting(list[8], MpvProperty::DemuxerDonateBuffer)
            &&& is_setting(list[9], MpvProperty::DemuxerHysteresisSecs)
            &&& is_setting(list[10], MpvProperty::Volume)
            &&& is_setting(list[11], MpvProperty::Start)
            &&& is_setting(list[12], MpvProperty::Pause)
            &&& list[13] is LoadFile
            &&& list[14] is PlaceWidget
        }),
{
}

/// A loading stops what plays, sets everything up, loads the source that was
/// asked for, and only then places the picture.
pub proof fn loads_stand_in_order(defaults: MpvBufferDefaults, payload: NativeOpenRequest)
    ensures
        ({
            let list = linux_mpv::source_calls(defaults, payload);
            &&& list[0] == Call::Stop
            &&& list[list.len() - 2] == Call::LoadFile(payload.uri@)
            &&& list[list.len() - 1] == Call::PlaceWidget
            &&& forall|i: int| 0 < i < list.len() - 2 ==> #[trigger] list[i] is SetProperty
        }),
{
    lemma_places(defaults, payload);
}

/// A source opens playing exactly when that was asked for, at the position that
/// was asked for, and as loud as was asked for.
pub proof fn sources_open_as_asked(defaults: MpvBufferDefaults, payload: NativeOpenRequest)
    ensures
        ({
            let list = linux_mpv::source_calls(defaults, payload);
            let zero = Double { bits: 0 };
            let one = Double { bits: 0x3ff0_0000_0000_0000 };
            let volume = payload.volume;
            let start = payload.start_at_seconds;
            &&& payload.autoplay ==> set_once(list, MpvProperty::Pause, Value::Flag(false))
            &&& !payload.autoplay ==> set_once(list, MpvProperty::Pause, Value::Flag(true))
            &&& !start.is_nan_spec() && start.rank() >= 0 ==> set_once(
                list,
                MpvProperty::Start,
                Value::Offset(start),
            )
            &&& start.is_nan_spec() || start.rank() < 0 ==> set_once(
                list,
                MpvProperty::Start,
                Value::Offset(zero),
            )
            &&& payload.muted ==> set_once(list, MpvProperty::Volume, Value::Percent(zero))
            &&& !payload.muted && (volume.is_nan_spec() || 0 <= volume.rank() <= one.rank())
                ==> set_once(list, MpvProperty::Volume, Value::Percent(volume))
            &&& !payload.muted && !volume.is_nan_spec() && volume.rank() < 0 ==> set_once(
                list,
                MpvProperty::Volume,
                Value::Percent(zero),
            )
            &&& !payload.muted && !volume.is_nan_spec() && volume.rank() > one.rank() ==> set_once(
                list,
                MpvProperty::Volume,
                Value::Percent(one),
            )
        }),
{
    let list = linux_mpv::source_calls(defaults, payload);
    lemma_places(defaults, payload);
    assert(list[10] is SetProperty && list[11] is SetProperty && list[12] is SetProperty);
}

/// The engine reaches out as it was asked to: with the headers of the request,
/// each as its name and its value, with its user agent, or that of the plugin,
/// and with its certificate file, or none.
pub proof fn requests_reach_the_network(defaults: MpvBufferDefaults, payload: NativeOpenRequest)
    ensures
        ({
            let list = linux_mpv::source_calls(defaults, payload);
            let headers = linux_mpv::request_headers(payload);
            let lines = Seq::new(headers.len(), |i: int| headers[i].0 + ": "@ + headers[i].1);
            &&& set_once(
                list,
                MpvProperty::HttpHeaderFields,
                Value::Text(list::encoded_list(lines)),
            )
            &&& payload.user_agent matches Some(agent) ==> set_once(
                list,
                MpvProperty::UserAgent,
                Value::Text(agent@),
            )
            &&& payload.user_agent is None ==> set_once(
                list,
                MpvProperty::UserAgent,
                Value::Text("tauri-plugin-video"@),
            )
            &&& payload.tls_ca_file matches Some(file) ==> set_once(
                list,
                MpvProperty::TlsCaFile,
                Value::Text(file@),
            )
            &&& payload.tls_ca_file is None ==> set_once(
                list,
                MpvProperty::TlsCaFile,
                Value::Text(Seq::empty()),
            )
        }),
{
    let list = linux_mpv::source_calls(defaults, payload);
    let headers = linux_mpv::request_headers(payload);
    let lines = Seq::new(headers.len(), |i: int| headers[i].0 + ": "@ + headers[i].1);
    lemma_places(defaults, payload);
    assert(linux_mpv::header_lines(headers) =~= lines);
    assert(list[1] is SetProperty && list[2] is SetProperty && list[3] is SetProperty);
}

/// The engine buffers for as long as was asked for, between three seconds and
/// two minutes, and otherwise as it started with.
pub proof fn buffers_last_as_asked(defaults: MpvBufferDefaults, payload: NativeOpenRequest)
    ensures
        ({
            let list = linux_mpv::source_calls(defaults, payload);
            let both = |value: Value|
                set_once(list, MpvProperty::CacheSecs, value) && set_once(
                    list,
                    MpvProperty::DemuxerReadaheadSecs,
                    value,
                );
            &&& match payload.max_buffer_ms {
                None => set_once(
                    list,
                    MpvProperty::CacheSecs,
                    Value::Number(defaults.cache_seconds),
                ) && set_once(
                    list,
                    MpvProperty::DemuxerReadaheadSecs,
                    Value::Number(defaults.readahead_seconds),
                ),
                Some(ms) => {
                    &&& 3_000 <= ms <= 120_000 ==> both(Value::Milliseconds(ms))
                    &&& ms < 3_000 ==> both(Value::Milliseconds(3_000))
                    &&& ms > 120_000 ==> both(Value::Milliseconds(120_000))
                },
            }
            &&& set_once(
                list,
                MpvProperty::DemuxerHysteresisSecs,
                Value::Number(defaults.hysteresis_seconds),
            )
        }),
{
    let list = linux_mpv::source_calls(defaults, payload);
    lemma_places(defaults, payload);
    assert(list[4] is SetProperty && list[5] is SetProperty && list[9] is SetProperty);
}

/// The engine buffers as many bytes as were asked for, at least eight
/// mebibytes: those behind the position are a quarter of them, between four and
/// sixteen mebibytes, and all others lie ahead; neither part lends to the
/// other. Without a number the engine buffers as it started with.
pub proof fn buffers_hold_as_asked(defaults: MpvBufferDefaults, payload: NativeOpenRequest)
    ensures
        ({
            let list = linux_mpv::source_calls(defaults, payload);
            match payload.target_buffer_bytes {
                None => {
                    &&& set_once(
                        list,
                        MpvProperty::DemuxerMaxBytes,
                        Value::Integer(defaults.forward_bytes),
                    )
                    &&& set_once(
                        list,
                        MpvProperty::DemuxerMaxBackBytes,
                        Value::Integer(defaults.backward_bytes),
                    )
                    &&& set_once(
                        list,
                        MpvProperty::DemuxerDonateBuffer,
                        Value::Flag(defaults.donate_buffer),
                    )
                },
                Some(bytes) => exists|forward: i64, backward: i64|
                    {
                        &&& #[trigger] set_once(
                            list,
                            MpvProperty::DemuxerMaxBytes,
                            Value::Integer(forward),
                        )
                        &&& #[trigger] set_once(
                            list,
                            MpvProperty::DemuxerMaxBackBytes,
                            Value::Integer(backward),
                        )
                        &&& set_once(list, MpvProperty::DemuxerDonateBuffer, Value::Flag(false))
                        &&& 8_388_608 <= bytes <= i64::MAX ==> forward + backward == bytes
                        &&& bytes < 8_388_608 ==> forward + backward == 8_388_608
                        &&& bytes > i64::MAX ==> forward + backward == i64::MAX
                        &&& 4_194_304 <= backward <= 16_777_216
                        &&& 16_777_216 <= bytes <= 67_108_864 ==> backward == bytes as int / 4
                        &&& bytes < 16_777_216 ==> backward == 4_194_304
                        &&& bytes > 67_108_864 ==> backward == 16_777_216
                    },
            }
        }),
{
    let list = linux_mpv::source_calls(defaults, payload);
    lemma_places(defaults, payload);
    assert(list[6] is SetProperty && list[7] is SetProperty && list[8] is SetProperty);
    if let Some(bytes) = payload.target_buffer_bytes {
        let backward = linux_mpv::backward_bytes(bytes) as i64;
        let forward = (linux_mpv::total_bytes(bytes) - linux_mpv::backward_bytes(bytes)) as i64;
        assert(list[6] == Call::SetProperty(MpvProperty::DemuxerMaxBytes, Value::Integer(forward)));
        assert(list[7] == Call::SetProperty(
            MpvProperty::DemuxerMaxBackBytes,
            Value::Integer(backward),
        ));
        assert(set_once(list, MpvProperty::DemuxerMaxBytes, Value::Integer(forward)));
        assert(set_once(list, MpvProperty::DemuxerMaxBackBytes, Value::Integer(backward)));
    }
}

/// A loaded player belongs to the session that was asked for and starts
/// afresh: it holds no track of an earlier source and measures from now on.
pub proof fn loaded_players_start_afresh(
    player: Player,
    payload: NativeOpenRequest,
    presented: u64,
    now: u64,
)
    ensures
        ({
            let after = linux_mpv::loaded(player, payload, presented, now);
            &&& after.session_key == payload.session_key@
            &&& after.tracks.len() == 0
            &&& after.track_targets.len() == 0
            &&& after.tracks_dirty
            &&& after.default_buffer == player.default_buffer
            &&& after.meter.last_frames == presented
            &&& after.meter.last_sample_at == now
            &&& after.meter.measured.frames == 0
            &&& after.layout.commits == 0
            &&& after.layout.sample_at == now
        }),
{
}

/// A player at rest keeps its engine and gives up all that belongs to a
/// session; resting silences the engine first.
pub proof fn resting_players_are_silent(player: Player)
    ensures
        session::parking(true)[0] == Call::Stop,
        session::parking(true)[1] == Call::HideWidget,
        session::parking(false).len() == 0,
        session::parked(player).session_key.len() == 0,
        session::parked(player).tracks.len() == 0,
        session::parked(player).track_targets.len() == 0,
        session::parked(player).tracks_dirty,
        session::parked(player).meter == player.meter,
        session::parked(player).layout == player.layout,
        session::parked(player).default_buffer == player.default_buffer,
{
}

/// Only choosing a track lets the tracks be read again.
pub proof fn only_choices_change_tracks(property: MpvProperty, value: Value)
    ensures
        session::chooses_track(Call::SetProperty(property, value)) <==> property
            == MpvProperty::Vid || property == MpvProperty::Aid || property == MpvProperty::Sid,
        !session::chooses_track(Call::Stop),
        !session::chooses_track(Call::PlaceWidget),
        !session::chooses_track(Call::HideWidget),
{
}

/// The names by which the engine knows the properties.
pub proof fn properties_have_their_names()
    ensures
        MpvProperty::HttpHeaderFields.named() == "http-header-fields"@,
        MpvProperty::UserAgent.named() == "user-agent"@,
        MpvProperty::TlsCaFile.named() == "tls-ca-file"@,
        MpvProperty::CacheSecs.named() == "cache-secs"@,
        MpvProperty::DemuxerReadaheadSecs.named() == "demuxer-readahead-secs"@,
        MpvProperty::DemuxerMaxBytes.named() == "demuxer-max-bytes"@,
        MpvProperty::DemuxerMaxBackBytes.named() == "demuxer-max-back-bytes"@,
        MpvProperty::DemuxerDonateBuffer.named() == "demuxer-donate-buffer"@,
        MpvProperty::DemuxerHysteresisSecs.named() == "demuxer-hysteresis-secs"@,
        MpvProperty::Volume.named() == "volume"@,
        MpvProperty::Start.named() == "start"@,
        MpvProperty::Pause.named() == "pause"@,
        MpvProperty::Panscan.named() == "panscan"@,
        MpvProperty::VideoUnscaled.named() == "video-unscaled"@,
        MpvProperty::VideoZoom.named() == "video-zoom"@,
        MpvProperty::Vid.named() == "vid"@,
        MpvProperty::Aid.named() == "aid"@,
        MpvProperty::Sid.named() == "sid"@,
        session::TrackField::Type.named() == "/type"@,
        session::TrackField::Id.named() == "/id"@,
        session::TrackField::Language.named() == "/lang"@,
        session::TrackField::Title.named() == "/title"@,
        session::TrackField::Codec.named() == "/codec"@,
        session::TrackField::Selected.named() == "/selected"@,
{
}

/// The engine starts with rendering left to the player, decoding in hardware
/// where that is safe, no waiting for the time of a frame, the last frame kept,
/// no controls of its own, and a cache.
pub proof fn engines_start_as_players_need()
    ensures
        ({
            let list = linux_mpv::engine_options();
            &&& list.len() == 9
            &&& list.contains(("vo"@, Value::Text("libmpv"@)))
            &&& list.contains(("hwdec"@, Value::Text("auto-safe"@)))
            &&& list.contains(("gpu-api"@, Value::Text("opengl"@)))
            &&& list.contains(("video-timing-offset"@, Value::Number(Double { bits: 0 })))
            &&& list.contains(("keep-open"@, Value::Text("yes"@)))
            &&& list.contains(("osc"@, Value::Text("no"@)))
            &&& list.contains(("osd-level"@, Value::Text("0"@)))
            &&& list.contains(("input-default-bindings"@, Value::Text("no"@)))
            &&& list.contains(("cache"@, Value::Text("yes"@)))
        }),
{
    let list = linux_mpv::engine_options();
    assert(list[0] == ("vo"@, Value::Text("libmpv"@)));
    assert(list[1] == ("hwdec"@, Value::Text("auto-safe"@)));
    assert(list[2] == ("gpu-api"@, Value::Text("opengl"@)));
    assert(list[3] == ("video-timing-offset"@, Value::Number(Double { bits: 0 })));
    assert(list[4] == ("keep-open"@, Value::Text("yes"@)));
    assert(list[5] == ("osc"@, Value::Text("no"@)));
    assert(list[6] == ("osd-level"@, Value::Text("0"@)));
    assert(list[7] == ("input-default-bindings"@, Value::Text("no"@)));
    assert(list[8] == ("cache"@, Value::Text("yes"@)));
}

/// The steps to a player stand in their order: the numeric locale before the
/// engine, the area before its context, and the first frame last.
pub proof fn players_are_made_in_order()
    ensures
        ({
            let list = linux_mpv::creation();
            &&& list.len() == 10
            &&& list[0] is SelectNumericLocale
            &&& list[1] == CreateStep::MakeArea {
                auto_render: false,
                alpha: false,
                depth_buffer: false,
                stencil_buffer: false,
                embedded_gl: false,
                major: 3,
                minor: 2,
            }
            &&& list[2] is PlaceWidget
            &&& list[3] is RealizeArea
            &&& list[4] is StartEngine
            &&& list[5] is ReadBuffering
            &&& list[6] is MakeRenderContext
            &&& list[7] is ConnectUpdates
            &&& list[8] is ConnectRender
            &&& list[9] is QueueRender
        }),
{
}

/// An engine that has just started is told to spare the player what it does not
/// read.
pub proof fn engines_keep_quiet()
    ensures
        linux_mpv::engine_calls().len() == 2,
        linux_mpv::engine_calls()[0] == EngineCall::DisableDeprecatedEvents,
        linux_mpv::engine_calls()[1] == EngineCall::DisableTickEvent,
{
}

/// A step to a player that fails says what was in the way.
pub proof fn failed_steps_say_why(step: CreateStep, detail: Seq<char>)
    ensures
        linux_mpv::creation_failure(CreateStep::SelectNumericLocale, detail) == Failure::Pipeline(
            "mpv backend could not select the required C numeric locale"@,
        ),
        linux_mpv::creation_failure(CreateStep::RealizeArea, detail) == Failure::Pipeline(
            "could not create the mpv OpenGL surface: "@ + detail,
        ),
        linux_mpv::creation_failure(CreateStep::PlaceWidget, detail) == Failure::Pipeline(detail),
        !(step is SelectNumericLocale) && !(step is RealizeArea) && !(step is PlaceWidget)
            ==> linux_mpv::creation_failure(step, detail) == Failure::Pipeline(
            "mpv backend: "@ + detail,
        ),
        linux_mpv::engine_failure(detail) == Failure::Pipeline("mpv backend: "@ + detail),
{
}

/// A new player belongs to no session, holds nothing, and measures from now on.
pub proof fn new_players_hold_nothing(defaults: MpvBufferDefaults, now: u64)
    ensures
        ({
            let player = linux_mpv::created(defaults, now);
            &&& player.session_key.len() == 0
            &&& player.tracks.len() == 0
            &&& player.track_targets.len() == 0
            &&& player.tracks_dirty
            &&& player.default_buffer == defaults
            &&& player.meter.last_frames == 0
            &&& player.meter.last_sample_at == now
            &&& player.meter.measured.frames == 0
            &&& player.meter.measured.nanoseconds == 500_000_000
            &&& player.layout.commits == 0
            &&& player.layout.sample_at == now
        }),
{
}

/// The calls of a list stay at their places and say what they are.
pub proof fn calls_say_what_they_are(list: Seq<MpvCall>, at: int)
    requires
        0 <= at < list.len(),
    ensures
        linux_mpv::calls(list).len() == list.len(),
        match list[at] {
            MpvCall::Stop => linux_mpv::calls(list)[at] == Call::Stop,
            MpvCall::SetProperty(property, value) => linux_mpv::calls(list)[at]
                == Call::SetProperty(property, value@),
            MpvCall::LoadFile(uri) => linux_mpv::calls(list)[at] == Call::LoadFile(uri@),
            MpvCall::Seek(seconds) => linux_mpv::calls(list)[at] == Call::Seek(seconds),
            MpvCall::PlaceWidget => linux_mpv::calls(list)[at] == Call::PlaceWidget,
            MpvCall::HideWidget => linux_mpv::calls(list)[at] == Call::HideWidget,
        },
{
}

/// A value says what it is.
pub proof fn values_say_what_they_are(value: MpvValue)
    ensures
        match value {
            MpvValue::Text(text) => value@ == Value::Text(text@),
            MpvValue::Flag(flag) => value@ == Value::Flag(flag),
            MpvValue::Integer(number) => value@ == Value::Integer(number),
            MpvValue::Number(number) => value@ == Value::Number(number),
            MpvValue::Milliseconds(number) => value@ == Value::Milliseconds(number),
            MpvValue::Percent(fraction) => value@ == Value::Percent(fraction),
            MpvValue::Offset(seconds) => value@ == Value::Offset(seconds),
            MpvValue::Log2(factor) => value@ == Value::Log2(factor),
        },
{
}

/// A redraw lets the engine render, behind the widget's parent where there is
/// one.
pub proof fn redraws_render()
    ensures
        session::redrawing(true).len() == 2,
        session::redrawing(true)[0] == session::RedrawCall::DrawParent,
        session::redrawing(true)[1] == session::RedrawCall::QueueRender,
        session::redrawing(false).len() == 1,
        session::redrawing(false)[0] == session::RedrawCall::QueueRender,
{
}

/// A player shows each of its fields.
pub proof fn players_show_their_fields(player: MpvPlayer)
    ensures
        player@.session_key == player.session_key@,
        player@.meter == player.meter,
        player@.layout == player.layout,
        player@.tracks == models::tracks(player.tracks@),
        player@.track_targets == player.track_targets@,
        player@.tracks_dirty == player.tracks_dirty,
        player@.default_buffer == player.default_buffer,
        linux_mpv::in_slot(Some(player)) == Some(player@),
        linux_mpv::in_slot(None) is None,
{
}

/// The options of a list stay at their places and say their name and value.
pub proof fn options_say_what_they_are(list: Seq<EngineOption>, at: int)
    requires
        0 <= at < list.len(),
    ensures
        linux_mpv::options(list).len() == list.len(),
        linux_mpv::options(list)[at] == (list[at].name@, list[at].value@),
{
}

/// The answer to a request is exactly the call that it leads to, or the failure.
pub proof fn answers_give_the_call(result: Result<MpvCall, Error>, call: Call, failure: Failure)
    ensures
        session::gives(result, Ok(call)) <==> (result matches Ok(given) && given@ == call),
        session::gives(result, Err(failure)) <==> (result matches Err(error) && error@ == failure),
{
}

/// The buffering that the engine starts with is what it says, each value for
/// itself; what it does not say is a thousand hours of cache, a second ahead,
/// 150 mebibytes forward and 50 backward, a donated buffer and no hysteresis.
pub proof fn buffering_is_what_the_engine_says(readings: BufferReadings)
    ensures
        ({
            let kept = MpvBufferDefaults::said(readings);
            &&& readings.cache_seconds matches Some(seconds) ==> kept.cache_seconds == seconds
            &&& readings.readahead_seconds matches Some(seconds) ==> kept.readahead_seconds
                == seconds
            &&& readings.forward_bytes matches Some(bytes) ==> kept.forward_bytes == bytes
            &&& readings.backward_bytes matches Some(bytes) ==> kept.backward_bytes == bytes
            &&& readings.donate_buffer matches Some(donate) ==> kept.donate_buffer == donate
            &&& readings.hysteresis_seconds matches Some(seconds) ==> kept.hysteresis_seconds
                == seconds
            &&& readings.cache_seconds is None ==> kept.cache_seconds.bits
                == 0x414b_7740_0000_0000
            &&& readings.readahead_seconds is None ==> kept.readahead_seconds.bits
                == 0x3ff0_0000_0000_0000
            &&& readings.forward_bytes is None ==> kept.forward_bytes == 150 * 1_048_576
            &&& readings.backward_bytes is None ==> kept.backward_bytes == 50 * 1_048_576
            &&& readings.donate_buffer is None ==> kept.donate_buffer
            &&& readings.hysteresis_seconds is None ==> kept.hysteresis_seconds.bits == 0
        }),
{
}

/// A player is taken down step by step: what plays is stopped first, nobody is
/// called back any more, the render context goes before the engine that it
/// renders for, and the engine goes last.
pub proof fn players_are_taken_down_in_order()
    ensures
        ({
            let steps = session::taking_down();
            &&& steps.len() == 6
            &&& steps[0] == TeardownStep::Stop
            &&& steps[1] == TeardownStep::RemoveUpdates
            &&& steps[2] == TeardownStep::DisconnectRender
            &&& steps[3] == TeardownStep::DropRenderContext
            &&& steps[4] == TeardownStep::HideWidget
            &&& steps[5] == TeardownStep::DropEngine
        }),
{
}

/// Behind a call that chooses a track the tracks are read again; any other call
/// changes nothing, and neither changes anything else.
pub proof fn only_choices_ask_for_tracks(player: Player, property: MpvProperty, value: Value)
    ensures
        ({
            let after = session::after_call(player, Call::SetProperty(property, value));
            let chooses = property == MpvProperty::Vid || property == MpvProperty::Aid || property
                == MpvProperty::Sid;
            &&& chooses ==> after == (Player { tracks_dirty: true, ..player })
            &&& !chooses ==> after == player
        }),
{
}

} // verus!
