//! The mpv player.
use tauri_plugin_video::desktop::linux_mpv::list::encode_mpv_list;
use tauri_plugin_video::desktop::linux_mpv::session::{
    call_done, close, control, drain_events, events_drained, force_close, layout,
    layout_committed, park_player, redraw_ordered, redraw_runs, refresh_tracks, select_track,
    snapshot, stats, teardown, track_field, EventDrain, MpvEvent, Readings, RedrawCall, TeardownStep, TrackField, TrackReading,
    EVENT_BUDGET,
};
use tauri_plugin_video::desktop::linux_mpv::{
    create_engine, create_player, creation_error, creation_steps, device_size, load_call_done,
    load_source, mpv_error, open, opened, BufferReadings, CreateStep, EngineCall, MpvBufferDefaults,
    MpvCall, MpvPlayer, MpvProperty, MpvValue, RenderLog, TrackTarget,
};
use tauri_plugin_video::desktop::OpenStep;
use tauri_plugin_video::desktop::linux_surface::{SurfaceCall, SurfaceHost};
use tauri_plugin_video::double::Double;
use tauri_plugin_video::error::Error;
use tauri_plugin_video::latch::Latch;
use tauri_plugin_video::models::{
    FrameRate, MediaTime, NativeControlRequest, NativeLayoutRequest, NativeOpenRequest,
    NativeSessionRequest, TrackKind,
};
use tauri_plugin_video::ordered::NameMap;

fn number(value: f64) -> Double {
    Double { bits: value.to_bits() }
}

fn seconds(value: f64) -> MediaTime {
    MediaTime::Seconds(number(value))
}

fn request() -> NativeOpenRequest {
    NativeOpenRequest {
        session_key: "s1".to_owned(),
        uri: "http://example.test/a.mp4".to_owned(),
        backend: Some("mpv".to_owned()),
        headers: NameMap::new(),
        cookies: None,
        referrer: None,
        user_agent: None,
        tls_ca_file: None,
        max_buffer_ms: None,
        target_buffer_bytes: None,
        muted: false,
        volume: number(0.5),
        start_at_seconds: number(12.5),
        autoplay: false,
        x: number(0.0),
        y: number(0.0),
        width: number(640.0),
        height: number(360.0),
    }
}

fn defaults() -> MpvBufferDefaults {
    MpvBufferDefaults::read(BufferReadings {
        cache_seconds: None,
        readahead_seconds: None,
        forward_bytes: None,
        backward_bytes: None,
        donate_buffer: None,
        hysteresis_seconds: None,
    })
}

fn loaded() -> (MpvPlayer, RenderLog) {
    let mut player = create_player(defaults(), 0);
    let mut log = RenderLog::new();
    let mut loading = load_source(&player, &request());
    let mut redraw = Latch::new();
    while loading.next().is_some() {
        let (loading, player, log) = (&mut loading, &mut player, &mut log);
        load_call_done(loading, player, log, &mut redraw, &request(), Ok(()), 0).unwrap();
    }
    (player, log)
}

fn pipeline<T>(result: Result<T, Error>) -> String {
    match result {
        Err(Error::Pipeline(text)) => text,
        _ => panic!("not a pipeline error"),
    }
}

fn invalid<T>(result: Result<T, Error>) -> String {
    match result {
        Err(Error::InvalidRequest(text)) => text,
        _ => panic!("not an invalid request"),
    }
}

fn text(value: &str) -> Option<String> {
    Some(value.to_owned())
}

fn track(track_type: &str, id: Option<i64>, language: Option<&str>, title: Option<&str>) -> TrackReading {
    TrackReading {
        track_type: text(track_type),
        id,
        language: language.map(|value| value.to_owned()),
        title: title.map(|value| value.to_owned()),
        codec: None,
        selected: Some(track_type == "video"),
    }
}

fn listed() -> Vec<TrackReading> {
    vec![
        track("video", Some(1), None, None),
        track("attachment", Some(1), None, None),
        track("audio", Some(2), Some("de"), None),
        track("sub", None, Some("en"), Some("Signs")),
        track("sub", Some(-7), Some("und"), None),
    ]
}

fn action(name: &str, value: f64, index: i32) -> NativeControlRequest {
    NativeControlRequest {
        session_key: "s1".to_owned(),
        action: name.to_owned(),
        value: number(value),
        index,
    }
}

fn set(call: &MpvCall, property: MpvProperty) -> &MpvValue {
    match call {
        MpvCall::SetProperty(given, value) if *given == property => value,
        _ => panic!("another call"),
    }
}

#[test]
fn mpv_list_encoding_preserves_commas_in_headers() {
    assert_eq!(
        encode_mpv_list(&vec!["Cookie: a=1,b=2".into()]),
        "%15%Cookie: a=1,b=2"
    );
}

#[test]
fn lists_hold_lengths_in_bytes() {
    assert_eq!(encode_mpv_list(&vec![]), "");
    assert_eq!(
        encode_mpv_list(&vec!["A: 1".to_owned(), "".to_owned(), "\u{e4}%".to_owned()]),
        "%4%A: 1,%0%,%3%\u{e4}%"
    );
}

#[test]
fn engines_start_with_their_options() {
    let setup = create_engine();
    assert_eq!(
        setup.calls,
        vec![EngineCall::DisableDeprecatedEvents, EngineCall::DisableTickEvent]
    );
    let list = setup.options;
    let names: Vec<&str> = list.iter().map(|option| option.name).collect();
    assert_eq!(
        names,
        vec![
            "vo",
            "hwdec",
            "gpu-api",
            "video-timing-offset",
            "keep-open",
            "osc",
            "osd-level",
            "input-default-bindings",
            "cache",
        ]
    );
    assert!(matches!(&list[0].value, MpvValue::Text(value) if value == "libmpv"));
    assert!(matches!(list[3].value, MpvValue::Number(value) if value == number(0.0)));
}

#[test]
fn buffering_defaults_fill_the_gaps() {
    let standard = defaults();
    assert_eq!(standard.cache_seconds, number(3_600_000.0));
    assert_eq!(standard.readahead_seconds, number(1.0));
    assert_eq!(standard.forward_bytes, 150 * 1024 * 1024);
    assert_eq!(standard.backward_bytes, 50 * 1024 * 1024);
    assert!(standard.donate_buffer);
    assert_eq!(standard.hysteresis_seconds, number(0.0));
    let read = MpvBufferDefaults::read(BufferReadings {
        cache_seconds: Some(number(9.0)),
        readahead_seconds: Some(number(2.0)),
        forward_bytes: Some(1),
        backward_bytes: Some(2),
        donate_buffer: Some(false),
        hysteresis_seconds: Some(number(3.0)),
    });
    assert_eq!(read.cache_seconds, number(9.0));
    assert_eq!(read.forward_bytes, 1);
    assert!(!read.donate_buffer);
}

#[test]
fn sources_load_in_order() {
    let player = create_player(defaults(), 0);
    let mut payload = request();
    payload.headers.insert("X".to_owned(), "1".to_owned());
    payload.headers.insert("Cookie".to_owned(), "old".to_owned());
    payload.cookies = text("a=1,b=2");
    payload.referrer = text("");
    let list = load_source(&player, &payload).calls;
    assert_eq!(list.len(), 15);
    assert!(matches!(list[0], MpvCall::Stop));
    assert!(matches!(
        set(&list[1], MpvProperty::HttpHeaderFields),
        MpvValue::Text(value) if value == "%15%Cookie: a=1,b=2,%4%X: 1"
    ));
    assert!(matches!(
        set(&list[2], MpvProperty::UserAgent),
        MpvValue::Text(value) if value == "tauri-plugin-video"
    ));
    assert!(matches!(
        set(&list[3], MpvProperty::TlsCaFile),
        MpvValue::Text(value) if value.is_empty()
    ));
    assert!(matches!(
        set(&list[4], MpvProperty::CacheSecs),
        MpvValue::Number(value) if *value == number(3_600_000.0)
    ));
    assert!(matches!(
        set(&list[6], MpvProperty::DemuxerMaxBytes),
        MpvValue::Integer(157_286_400)
    ));
    assert!(matches!(
        set(&list[8], MpvProperty::DemuxerDonateBuffer),
        MpvValue::Flag(true)
    ));
    assert!(matches!(
        set(&list[10], MpvProperty::Volume),
        MpvValue::Percent(value) if *value == number(0.5)
    ));
    assert!(matches!(
        set(&list[11], MpvProperty::Start),
        MpvValue::Offset(value) if *value == number(12.5)
    ));
    assert!(matches!(set(&list[12], MpvProperty::Pause), MpvValue::Flag(true)));
    assert!(matches!(&list[13], MpvCall::LoadFile(uri) if uri == "http://example.test/a.mp4"));
    assert!(matches!(list[14], MpvCall::PlaceWidget));
}

#[test]
fn mpv_sessions_are_taken_over_behind_the_last_call() {
    let (mut player, mut log) = loaded();
    log.presented_frames = 12;
    log.error = text("old");
    let mut payload = request();
    payload.session_key = "s2".to_owned();
    let mut loading = load_source(&player, &payload);
    let mut redraw = Latch::new();
    for _ in 0..14 {
        let (loading, player, log) = (&mut loading, &mut player, &mut log);
        assert!(!load_call_done(loading, player, log, &mut redraw, &payload, Ok(()), 5).unwrap());
    }
    assert!(!redraw.pending);
    assert_eq!(player.session_key, "s1");
    assert!(matches!(loading.next(), Some(MpvCall::PlaceWidget)));
    let failure = Err(Error::Pipeline("no layer".to_owned()));
    assert_eq!(
        pipeline(load_call_done(
            &mut loading,
            &mut player,
            &mut log,
            &mut redraw,
            &payload,
            failure,
            6
        )),
        "no layer"
    );
    assert!(!redraw.pending);
    assert_eq!(player.session_key, "s1");
    assert!(log.error.is_some());
    let order =
        load_call_done(&mut loading, &mut player, &mut log, &mut redraw, &payload, Ok(()), 7);
    assert!(order.unwrap());
    assert!(redraw.pending);
    assert_eq!(player.session_key, "s2");
    assert!(log.error.is_none());
    assert_eq!(player.meter.last_frames, 12);
    assert_eq!(player.meter.last_sample_at, 7);
    assert!(loading.next().is_none());
}

#[test]
fn requested_buffers_are_split() {
    let player = create_player(defaults(), 0);
    let parts = |requested: u64| {
        let mut payload = request();
        payload.target_buffer_bytes = Some(requested);
        payload.max_buffer_ms = Some(200_000);
        payload.muted = true;
        payload.start_at_seconds = number(-1.0);
        let list = load_source(&player, &payload).calls;
        assert!(matches!(
            set(&list[5], MpvProperty::DemuxerReadaheadSecs),
            MpvValue::Milliseconds(120_000)
        ));
        assert!(matches!(
            set(&list[8], MpvProperty::DemuxerDonateBuffer),
            MpvValue::Flag(false)
        ));
        assert!(matches!(
            set(&list[10], MpvProperty::Volume),
            MpvValue::Percent(value) if *value == number(0.0)
        ));
        assert!(matches!(
            set(&list[11], MpvProperty::Start),
            MpvValue::Offset(value) if *value == number(0.0)
        ));
        let forward = match set(&list[6], MpvProperty::DemuxerMaxBytes) {
            MpvValue::Integer(bytes) => *bytes,
            _ => panic!("no bytes"),
        };
        let backward = match set(&list[7], MpvProperty::DemuxerMaxBackBytes) {
            MpvValue::Integer(bytes) => *bytes,
            _ => panic!("no bytes"),
        };
        (forward, backward)
    };
    assert_eq!(parts(0), (4_194_304, 4_194_304));
    assert_eq!(parts(40_000_000), (30_000_000, 10_000_000));
    assert_eq!(parts(1_000_000_000), (983_222_784, 16_777_216));
    assert_eq!(parts(u64::MAX), (i64::MAX - 16_777_216, 16_777_216));
}

#[test]
fn engine_errors_are_named() {
    assert!(matches!(mpv_error("gone"), Error::Pipeline(text) if text == "mpv backend: gone"));
    let say = |step: CreateStep| match creation_error(step, "why") {
        Error::Pipeline(text) => text,
        _ => panic!("wrong error"),
    };
    assert_eq!(
        say(CreateStep::SelectNumericLocale),
        "mpv backend could not select the required C numeric locale"
    );
    assert_eq!(say(CreateStep::RealizeArea), "could not create the mpv OpenGL surface: why");
    assert_eq!(say(CreateStep::StartEngine), "mpv backend: why");
    assert_eq!(say(CreateStep::MakeRenderContext), "mpv backend: why");
    assert_eq!(say(CreateStep::PlaceWidget), "why");
    let steps = creation_steps();
    assert_eq!(steps.len(), 10);
    assert_eq!(steps[0], CreateStep::SelectNumericLocale);
    assert_eq!(steps[9], CreateStep::QueueRender);
}

#[test]
fn frames_are_counted_and_errors_kept() {
    let mut log = RenderLog::new();
    log.rendered(Ok(()));
    log.rendered(Ok(()));
    assert_eq!(log.presented_frames, 2);
    log.rendered(Err("lost".to_owned()));
    assert_eq!(log.presented_frames, 2);
    assert_eq!(log.error.as_deref(), Some("lost"));
    let mut log = RenderLog { presented_frames: u64::MAX, error: None };
    log.rendered(Ok(()));
    assert_eq!(log.presented_frames, u64::MAX);
    assert_eq!(device_size(640, 2), 1280);
    assert_eq!(device_size(0, 0), 1);
    assert_eq!(device_size(i32::MAX, 3), i32::MAX);
}

#[test]
fn mpv_players_are_kept_after_their_first_report() {
    let mut slot: Option<MpvPlayer> = None;
    assert_eq!(
        open(&slot),
        vec![
            OpenStep::EnsureLayer,
            OpenStep::Create,
            OpenStep::Load,
            OpenStep::Report,
            OpenStep::Keep,
        ]
    );
    let (player, _) = loaded();
    assert!(opened(&mut slot, player, Err(Error::Pipeline("no".to_owned()))).is_err());
    assert!(slot.is_none());
    let (mut player, log) = loaded();
    let report = snapshot(&mut player, &log, &readings(), 0).0;
    assert!(opened(&mut slot, player, Ok(report)).is_ok());
    assert_eq!(
        open(&slot),
        vec![OpenStep::EnsureLayer, OpenStep::Load, OpenStep::Report]
    );
}

#[test]
fn mpv_actions_become_calls() {
    let (mut player, _) = loaded();
    refresh_tracks(&mut player, &listed());
    let slot = Some(player);
    let call = control(&slot, &action("play", 0.0, 0)).unwrap();
    assert!(matches!(set(&call, MpvProperty::Pause), MpvValue::Flag(false)));
    let call = control(&slot, &action("pause", 0.0, 0)).unwrap();
    assert!(matches!(set(&call, MpvProperty::Pause), MpvValue::Flag(true)));
    let call = control(&slot, &action("seek", 7.25, 0)).unwrap();
    assert!(matches!(call, MpvCall::Seek(value) if value == number(7.25)));
    let call = control(&slot, &action("volume", 4.0, 0)).unwrap();
    assert!(matches!(
        set(&call, MpvProperty::Volume),
        MpvValue::Percent(value) if *value == number(1.0)
    ));
    let call = control(&slot, &action("fit", 0.0, 0)).unwrap();
    assert!(matches!(
        set(&call, MpvProperty::Panscan),
        MpvValue::Number(value) if *value == number(0.0)
    ));
    let call = control(&slot, &action("crop", 0.0, 0)).unwrap();
    assert!(matches!(
        set(&call, MpvProperty::Panscan),
        MpvValue::Number(value) if *value == number(1.0)
    ));
    let call = control(&slot, &action("stretch", 0.0, 0)).unwrap();
    assert!(matches!(
        set(&call, MpvProperty::VideoUnscaled),
        MpvValue::Text(value) if value == "downscale-big"
    ));
    let call = control(&slot, &action("zoom", 0.5, 0)).unwrap();
    assert!(matches!(
        set(&call, MpvProperty::VideoZoom),
        MpvValue::Log2(value) if *value == number(1.0)
    ));
    let call = control(&slot, &action("track", 0.0, 1)).unwrap();
    assert!(matches!(set(&call, MpvProperty::Aid), MpvValue::Integer(2)));
    let call = control(&slot, &action("deselectTrack", 0.0, 3)).unwrap();
    assert!(matches!(set(&call, MpvProperty::Sid), MpvValue::Text(value) if value == "no"));
    assert_eq!(
        invalid(control(&slot, &action("track", 0.0, 4))),
        "unknown native track index 4"
    );
    assert_eq!(
        invalid(control(&slot, &action("dance", 0.0, 0))),
        "unsupported native action: dance"
    );
    let mut stale = action("play", 0.0, 0);
    stale.session_key = "s0".to_owned();
    assert_eq!(invalid(control(&slot, &stale)), "native player session is stale");
    assert_eq!(invalid(control(&None, &stale)), "native player is not open");
}

#[test]
fn first_targets_win() {
    let targets = vec![
        TrackTarget { public_index: 3, mpv_id: 1, kind: TrackKind::Video },
        TrackTarget { public_index: 3, mpv_id: 2, kind: TrackKind::Audio },
    ];
    let call = select_track(&targets, 3, true).unwrap();
    assert!(matches!(set(&call, MpvProperty::Vid), MpvValue::Integer(1)));
    assert_eq!(invalid(select_track(&targets, -1, true)), "unknown native track index -1");
}

#[test]
fn track_choices_are_read_back() {
    let (mut player, _) = loaded();
    refresh_tracks(&mut player, &listed());
    assert!(!player.tracks_dirty);
    let call = select_track(&player.track_targets, 0, true).unwrap();
    assert_eq!(
        pipeline(call_done(&mut player, &call, Err("busy".to_owned()))),
        "mpv backend: busy"
    );
    assert!(!player.tracks_dirty);
    call_done(&mut player, &MpvCall::Stop, Ok(())).unwrap();
    assert!(!player.tracks_dirty);
    call_done(&mut player, &call, Ok(())).unwrap();
    assert!(player.tracks_dirty);
}

#[test]
fn listed_tracks_are_named_and_numbered() {
    let (mut player, _) = loaded();
    refresh_tracks(&mut player, &listed());
    let labels: Vec<&str> = player.tracks.iter().map(|track| track.label.as_str()).collect();
    assert_eq!(labels, vec!["video", "DE", "Signs", "sub"]);
    let ids: Vec<&str> = player.tracks.iter().map(|track| track.id.as_str()).collect();
    assert_eq!(ids, vec!["mpv-video-1", "mpv-audio-2", "mpv-sub-3", "mpv-sub--7"]);
    let indices: Vec<i32> = player.tracks.iter().map(|track| track.index).collect();
    assert_eq!(indices, vec![0, 1, 2, 3]);
    assert_eq!(player.tracks[0].language, "und");
    assert!(player.tracks[0].selected);
    assert!(!player.tracks[1].selected);
    assert_eq!(player.track_targets[2].mpv_id, 3);
    assert_eq!(player.track_targets[3].kind, TrackKind::Subtitle);
    assert_eq!(track_field(12, TrackField::Language), "track-list/12/lang");
    assert_eq!(track_field(0, TrackField::Selected), "track-list/0/selected");
}

#[test]
fn layouts_are_counted_and_reported() {
    let (mut player, _) = loaded();
    let mut redraw = Latch::new();
    let mut commit = |telemetry: bool, now: u64| {
        layout_committed(&mut player, &mut redraw, telemetry, now).report
    };
    assert_eq!(commit(true, 400_000_000), None);
    assert_eq!(commit(false, 900_000_000), None);
    assert_eq!(commit(true, 900_000_000), Some((3, 900_000_000)));
    assert_eq!(player.layout.commits, 0);
    assert_eq!(player.layout.sample_at, 900_000_000);
    let slot = Some(player);
    let host = SurfaceHost { ready: true };
    let mut request = NativeLayoutRequest {
        session_key: "s1".to_owned(),
        x: number(1.0),
        y: number(2.0),
        width: number(3.0),
        height: number(4.0),
    };
    let calls = layout(&slot, &host, false, true, &request).unwrap();
    assert_eq!(calls[0], SurfaceCall::Put { x: 1, y: 2 });
    assert_eq!(calls.len(), 5);
    request.session_key.clear();
    assert_eq!(
        invalid(layout(&slot, &host, false, true, &request)),
        "native player session is stale"
    );
    assert_eq!(
        invalid(layout(&None, &host, false, true, &request)),
        "native player is not open"
    );
}

#[test]
fn layouts_share_one_redraw() {
    let (mut player, _) = loaded();
    let mut redraw = Latch::new();
    let mut orders = Vec::new();
    for now in 0..5 {
        orders.push(layout_committed(&mut player, &mut redraw, false, now).redraw);
    }
    assert_eq!(orders, vec![true, false, false, false, false]);
    assert_eq!(
        redraw_runs(&mut redraw, true),
        vec![RedrawCall::DrawParent, RedrawCall::QueueRender]
    );
    assert!(layout_committed(&mut player, &mut redraw, false, 9).redraw);
    assert!(!redraw_ordered(&mut redraw));
    assert_eq!(redraw_runs(&mut redraw, false), vec![RedrawCall::QueueRender]);
    assert!(redraw_ordered(&mut redraw));
}

#[test]
fn mpv_rests_whatever_the_session() {
    let (player, mut log) = loaded();
    log.error = text("late");
    let mut slot = Some(player);
    let other = NativeSessionRequest { session_key: "other".to_owned() };
    assert_eq!(invalid(stats(&slot, &other)), "native player session is stale");
    let calls = close(&slot, &other);
    assert_eq!(calls.len(), 2);
    assert!(matches!(calls[0], MpvCall::Stop));
    assert!(matches!(calls[1], MpvCall::HideWidget));
    park_player(&mut slot, &mut log);
    assert!(log.error.is_none());
    assert!(slot.as_ref().unwrap().tracks_dirty);
    assert_eq!(slot.as_ref().unwrap().session_key, "");
    assert!(force_close(&mut slot));
    assert!(slot.is_none());
    assert!(!force_close(&mut slot));
    assert!(close(&slot, &other).is_empty());
    let steps = teardown();
    let context = steps.iter().position(|step| *step == TeardownStep::DropRenderContext);
    let engine = steps.iter().position(|step| *step == TeardownStep::DropEngine);
    assert!(context < engine);
}

#[test]
fn events_are_taken_in_up_to_a_budget() {
    let (mut player, log) = loaded();
    player.tracks_dirty = false;
    let mut drain = EventDrain::new();
    let mut taken = 0;
    while drain.wants_more() {
        drain_events(&mut drain, &mut player, Ok(MpvEvent::Other)).unwrap();
        taken += 1;
    }
    assert_eq!(taken, 64);
    assert_eq!(EVENT_BUDGET, 64);
    assert!(!player.tracks_dirty);
    assert!(!events_drained(&player, &log).unwrap());
    for event in [
        MpvEvent::StartFile,
        MpvEvent::FileLoaded,
        MpvEvent::VideoReconfig,
        MpvEvent::AudioReconfig,
    ] {
        player.tracks_dirty = false;
        drain_events(&mut EventDrain::new(), &mut player, Ok(event)).unwrap();
        assert!(events_drained(&player, &log).unwrap());
    }
    player.tracks_dirty = false;
    drain_events(&mut EventDrain::new(), &mut player, Ok(MpvEvent::EndFile)).unwrap();
    assert!(!player.tracks_dirty);
    assert_eq!(
        pipeline(drain_events(&mut EventDrain::new(), &mut player, Ok(MpvEvent::Shutdown))),
        "mpv shut down"
    );
    assert_eq!(
        pipeline(drain_events(&mut EventDrain::new(), &mut player, Err("bad".to_owned()))),
        "mpv backend: bad"
    );
    let broken = RenderLog { presented_frames: 0, error: text("lost") };
    assert_eq!(pipeline(events_drained(&player, &broken)), "lost");
}

fn readings() -> Readings {
    Readings {
        position: Some(number(-0.25)),
        duration: Some(number(100.0)),
        cached_until: Some(number(30.0)),
        seekable: None,
        seekable_start: Some(number(-1.0)),
        seekable_end: None,
        dropped: Some(-4),
        width: Some(4_294_967_297),
        height: Some(720),
        paused: Some(false),
        decoder: text("h264"),
        hardware: None,
        cache_used: Some(3),
    }
}

#[test]
fn mpv_snapshots_report_the_player() {
    let (mut player, mut log) = loaded();
    log.presented_frames = 25;
    let (report, measured) = snapshot(&mut player, &log, &readings(), 1_000_000_000);
    assert!(measured);
    assert_eq!(report.duration_seconds, seconds(100.0));
    assert_eq!(report.current_time_seconds, seconds(0.0));
    assert_eq!(report.buffered_seconds, seconds(30.0));
    assert!(!report.live);
    assert!(report.seekable);
    assert_eq!(report.seekable_start_seconds, seconds(0.0));
    assert_eq!(report.seekable_end_seconds, seconds(100.0));
    assert!(report.playing);
    assert_eq!((report.video_width, report.video_height), (1, 720));
    assert_eq!(report.presented_frames, 25);
    assert_eq!(report.dropped_frames, 0);
    assert_eq!(report.measured_fps, FrameRate { frames: 25, nanoseconds: 1_000_000_000 });
    assert_eq!(report.hardware_backend, "mpv:software:h264:gtk-glarea");
    assert_eq!(report.backend, "mpv");
    assert_eq!(report.encoded_bytes_buffered, 3072);
    assert_eq!(report.average_frame_processing_us, number(0.0));
}

#[test]
fn mpv_live_sources_have_no_end() {
    let (mut player, log) = loaded();
    let live = Readings {
        position: Some(number(10.0)),
        duration: Some(number(0.0)),
        cached_until: Some(number(30.0)),
        seekable: None,
        seekable_start: Some(number(5.0)),
        seekable_end: Some(number(29.0)),
        dropped: Some(4),
        width: None,
        height: None,
        paused: None,
        decoder: None,
        hardware: text("vaapi"),
        cache_used: None,
    };
    let (report, measured) = snapshot(&mut player, &log, &live, 1);
    assert!(!measured);
    assert!(report.live);
    assert!(!report.seekable);
    assert_eq!(report.buffered_seconds, seconds(10.0));
    assert_eq!(report.seekable_start_seconds, seconds(5.0));
    assert_eq!(report.seekable_end_seconds, seconds(29.0));
    assert!(!report.playing);
    assert_eq!(report.dropped_frames, 4);
    assert_eq!(report.hardware_backend, "mpv:vaapi::gtk-glarea");
    let narrow = Readings { seekable_end: Some(number(5.0)), ..live };
    let report = snapshot(&mut player, &log, &narrow, 1).0;
    assert_eq!(report.seekable_end_seconds, seconds(10.0));
}

#[test]
fn names_of_properties_are_those_of_the_engine() {
    assert_eq!(MpvProperty::HttpHeaderFields.name(), "http-header-fields");
    assert_eq!(MpvProperty::DemuxerDonateBuffer.name(), "demuxer-donate-buffer");
    assert_eq!(MpvProperty::VideoZoom.name(), "video-zoom");
    assert_eq!(MpvProperty::Sid.name(), "sid");
}
