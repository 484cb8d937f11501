//! The GStreamer player.
use tauri_plugin_video::desktop::linux_gstreamer::session::{
    bus_drained, call_done, close, control, drain_bus, force_close, layout, park_player,
    select_stream, snapshot, stats, stream_track, BusMessage, Readings, StreamReading,
};
use tauri_plugin_video::desktop::linux_gstreamer::{
    configure_source, create_player, creation_error, initialize_gstreamer, load_call_done,
    load_source, open, open_volume, opened, playback_timeline, ready_reached, rendered_frames,
    sink_step_taken, subtitle_safe_gtk_sink, BufferDuration, CreateStep, EngineState, GstCall,
    GstInit, NativePlayer, Seeking, SinkProgress, SinkStep, SourceProperties,
    SourceSetting, Timeline,
};
use tauri_plugin_video::desktop::OpenStep;
use tauri_plugin_video::desktop::linux_surface::{SurfaceCall, SurfaceHost};
use tauri_plugin_video::double::Double;
use tauri_plugin_video::error::Error;
use tauri_plugin_video::models::{
    FrameRate, MediaTime, NativeControlRequest, NativeLayoutRequest, NativeOpenRequest,
    NativeSessionRequest, TrackKind,
};
use tauri_plugin_video::ordered::{NameMap, NameSet};

fn number(value: f64) -> Double {
    Double { bits: value.to_bits() }
}

fn request() -> NativeOpenRequest {
    NativeOpenRequest {
        session_key: "s1".to_owned(),
        uri: "http://example.test/a.mp4".to_owned(),
        backend: None,
        headers: NameMap::new(),
        cookies: None,
        referrer: None,
        user_agent: None,
        tls_ca_file: None,
        max_buffer_ms: None,
        target_buffer_bytes: None,
        muted: false,
        volume: number(0.5),
        start_at_seconds: number(0.0),
        autoplay: true,
        x: number(0.0),
        y: number(0.0),
        width: number(640.0),
        height: number(360.0),
    }
}

fn playing(payload: &NativeOpenRequest) -> NativePlayer {
    let (mut player, _) = create_player(payload, 0);
    let mut loading = load_source(payload);
    while loading.next().is_some() {
        load_call_done(&mut loading, &mut player, payload, Ok(()), None, 0).unwrap();
    }
    player
}

fn stream(kind: TrackKind, id: Option<&str>, language: Option<&str>, title: Option<&str>) -> StreamReading {
    StreamReading {
        video: kind == TrackKind::Video,
        audio: kind == TrackKind::Audio,
        text: kind == TrackKind::Subtitle,
        id: id.map(|id| id.to_owned()),
        language: language.map(|language| language.to_owned()),
        title: title.map(|title| title.to_owned()),
        codec: Some("codec".to_owned()),
    }
}

fn action(name: &str, value: f64, index: i32) -> NativeControlRequest {
    NativeControlRequest {
        session_key: "s1".to_owned(),
        action: name.to_owned(),
        value: number(value),
        index,
    }
}

fn pipeline<T>(result: Result<T, Error>) -> String {
    match result {
        Err(Error::Pipeline(text)) => text,
        _ => panic!("not a pipeline error"),
    }
}

fn invalid<T>(result: Result<T, Error>) -> String {
    match result {
        Err(Error::InvalidRequest(text)) => text,
        _ => panic!("not an invalid request"),
    }
}

fn with_tracks() -> NativePlayer {
    let mut player = playing(&request());
    let list = vec![
        Some(stream(TrackKind::Video, Some("v"), None, None)),
        Some(stream(TrackKind::Audio, Some("a-en"), Some("en"), None)),
        None,
        Some(stream(TrackKind::Audio, Some("a-de"), Some("de"), Some("Kommentar"))),
        Some(stream(TrackKind::Subtitle, None, None, Some(""))),
    ];
    assert!(drain_bus(&mut player, BusMessage::StreamCollection(list)).unwrap().is_none());
    player
}

#[test]
fn initialisation_is_decided_once() {
    let mut init = GstInit::Untried;
    assert!(init.untried());
    assert!(matches!(
        initialize_gstreamer(&mut init, Err("no library".to_owned())),
        Err(Error::RuntimeUnavailable(text)) if text == "no library"
    ));
    assert!(!init.untried());
    assert!(matches!(
        initialize_gstreamer(&mut init, Ok(())),
        Err(Error::RuntimeUnavailable(text)) if text == "no library"
    ));
    let mut init = GstInit::Untried;
    assert!(initialize_gstreamer(&mut init, Ok(())).is_ok());
    assert!(initialize_gstreamer(&mut init, Err("late".to_owned())).is_ok());
}

#[test]
fn sources_get_the_settings_that_they_know() {
    let mut payload = request();
    payload.user_agent = Some("agent".to_owned());
    payload.cookies = Some("a=1".to_owned());
    payload.tls_ca_file = Some("/ca.pem".to_owned());
    payload.referrer = Some("http://r.test".to_owned());
    payload.headers.insert("X-B".to_owned(), "2".to_owned());
    payload.headers.insert("X-A".to_owned(), "1".to_owned());
    let all = SourceProperties {
        user_agent: true,
        timeout: true,
        cookies: true,
        tls_database: true,
        ssl_ca_file: true,
        extra_headers: true,
    };
    let list = configure_source(all, &payload);
    assert_eq!(list.len(), 5);
    assert!(matches!(&list[0], SourceSetting::UserAgent(text) if text == "agent"));
    assert!(matches!(&list[1], SourceSetting::Timeout(60)));
    assert!(matches!(&list[2], SourceSetting::Cookies(text) if text == "a=1"));
    assert!(matches!(&list[3], SourceSetting::TlsDatabase(text) if text == "/ca.pem"));
    match &list[4] {
        SourceSetting::ExtraHeaders(headers) => assert_eq!(
            headers,
            &vec![
                ("X-A".to_owned(), "1".to_owned()),
                ("X-B".to_owned(), "2".to_owned()),
                ("Referer".to_owned(), "http://r.test".to_owned()),
            ]
        ),
        _ => panic!("no headers"),
    }
    let list = configure_source(SourceProperties { tls_database: false, ..all }, &payload);
    assert!(matches!(&list[3], SourceSetting::SslCaFile(text) if text == "/ca.pem"));
    let none = SourceProperties {
        user_agent: false,
        timeout: false,
        cookies: false,
        tls_database: false,
        ssl_ca_file: false,
        extra_headers: false,
    };
    assert!(configure_source(none, &payload).is_empty());
    assert_eq!(configure_source(all, &request()).len(), 1);
}

#[test]
fn own_referer_headers_win() {
    let mut payload = request();
    payload.referrer = Some("http://r.test".to_owned());
    payload.headers.insert("rEFERER".to_owned(), "own".to_owned());
    let known = SourceProperties {
        user_agent: false,
        timeout: false,
        cookies: false,
        tls_database: false,
        ssl_ca_file: false,
        extra_headers: true,
    };
    match &configure_source(known, &payload)[0] {
        SourceSetting::ExtraHeaders(headers) => {
            assert_eq!(headers, &vec![("rEFERER".to_owned(), "own".to_owned())])
        }
        _ => panic!("no headers"),
    }
}

#[test]
fn players_are_made_in_order() {
    let mut payload = request();
    payload.max_buffer_ms = Some(1);
    payload.target_buffer_bytes = Some(u64::MAX);
    let (player, steps) = create_player(&payload, 9);
    assert_eq!(player.session_key, "");
    assert_eq!(player.buffer_duration_ms, Some(3_000));
    assert_eq!(player.target_buffer_bytes, Some(2_147_483_647));
    assert!(player.desired_playing);
    assert_eq!(steps.len(), 7);
    assert!(matches!(
        steps[0],
        CreateStep::MakeVideoSink { force_aspect_ratio: true, sync: true, enable_last_sample: false }
    ));
    assert!(matches!(steps[1], CreateStep::MakeTerminalSink));
    assert!(matches!(steps[2], CreateStep::MakeGlSink));
    assert!(matches!(
        &steps[3],
        CreateStep::MakePipeline { uri, buffer_duration_ms: Some(3_000), buffer_size: Some(i32::MAX) }
            if uri == "http://example.test/a.mp4"
    ));
    assert!(matches!(steps[6], CreateStep::PlaceWidget));
    let say = |step: &CreateStep| match creation_error(step, "why") {
        Error::Pipeline(text) => text,
        _ => panic!("wrong error"),
    };
    assert_eq!(say(&steps[0]), "gtkglsink is unavailable: why");
    assert_eq!(say(&steps[2]), "glsinkbin is unavailable: why");
    assert_eq!(say(&steps[3]), "playbin3 is unavailable: why");
    assert_eq!(say(&steps[1]), "why");
    payload.max_buffer_ms = Some(500_000);
    payload.target_buffer_bytes = Some(5);
    let (player, _) = create_player(&payload, 9);
    assert_eq!(player.buffer_duration_ms, Some(120_000));
    assert_eq!(player.target_buffer_bytes, Some(4_194_304));
}

#[test]
fn a_player_is_kept_only_after_its_first_report() {
    let mut slot = None;
    let create = vec![
        OpenStep::InitializeLibrary,
        OpenStep::EnsureLayer,
        OpenStep::Create,
        OpenStep::Load,
        OpenStep::Report,
        OpenStep::Keep,
    ];
    assert_eq!(open(&slot), create);
    let player = playing(&request());
    assert!(opened(&mut slot, player, Err(Error::Pipeline("no".to_owned()))).is_err());
    assert_eq!(open(&slot), create);
    let mut player = playing(&request());
    let report = snapshot(&mut player, readings(), 0).0;
    assert!(opened(&mut slot, player, Ok(report)).is_ok());
    assert_eq!(
        open(&slot),
        vec![
            OpenStep::InitializeLibrary,
            OpenStep::EnsureLayer,
            OpenStep::Load,
            OpenStep::Report,
        ]
    );
}

#[test]
fn subtitles_get_a_compositor_from_version_1_26_on() {
    assert!(matches!(subtitle_safe_gtk_sink(1, 25), SinkProgress::Bare));
    assert!(matches!(subtitle_safe_gtk_sink(0, 99), SinkProgress::Bare));
    assert!(matches!(subtitle_safe_gtk_sink(2, 0), SinkProgress::Next(SinkStep::MakeCompositor)));
    let mut progress = subtitle_safe_gtk_sink(1, 26);
    let mut taken = 0;
    while let SinkProgress::Next(step) = progress {
        progress = sink_step_taken(step, Ok(()));
        taken += 1;
    }
    assert_eq!(taken, 9);
    assert!(matches!(progress, SinkProgress::Composited));
    assert!(matches!(
        sink_step_taken(SinkStep::MakeCompositor, Err("x".to_owned())),
        SinkProgress::Bare
    ));
    assert!(matches!(
        sink_step_taken(SinkStep::FindCompositorPad, Err("x".to_owned())),
        SinkProgress::Failed(Error::Pipeline(text)) if text == "gloverlaycompositor has no sink pad"
    ));
    assert!(matches!(
        sink_step_taken(SinkStep::LinkElements, Err("x".to_owned())),
        SinkProgress::Failed(Error::Pipeline(text)) if text == "x"
    ));
}

#[test]
fn loading_starts_from_rest() {
    let list = load_source(&request()).calls;
    assert_eq!(list.len(), 11);
    assert!(matches!(list[0], GstCall::SetState(EngineState::Ready)));
    assert!(matches!(list[1], GstCall::ReachReady(5)));
    assert!(matches!(list[2], GstCall::DiscardMessages));
    assert!(matches!(list[10], GstCall::SetState(EngineState::Playing)));
    assert!(ready_reached(Ok(()), EngineState::Ready, EngineState::VoidPending).is_ok());
    assert_eq!(
        pipeline(ready_reached(Ok(()), EngineState::Paused, EngineState::Ready)),
        "native pipeline did not reach READY before source change (current: Paused, pending: Ready)"
    );
    assert_eq!(
        pipeline(ready_reached(
            Err("late".to_owned()),
            EngineState::Ready,
            EngineState::Null
        )),
        "failed to park native pipeline before source change: late"
    );
}

#[test]
fn sources_are_set_up_at_rest() {
    let mut payload = request();
    payload.muted = true;
    payload.autoplay = false;
    let list = load_source(&payload).calls;
    assert!(matches!(list[3], GstCall::AdoptSource));
    assert!(matches!(&list[4], GstCall::SetUri(uri) if uri == "http://example.test/a.mp4"));
    assert!(matches!(list[5], GstCall::SetBufferDuration(BufferDuration::Automatic)));
    assert!(matches!(list[6], GstCall::SetBufferSize(-1)));
    assert!(matches!(list[7], GstCall::SetVolume(volume) if volume == number(0.0)));
    assert!(matches!(list[8], GstCall::SetForceAspectRatio(true)));
    assert!(matches!(list[9], GstCall::PlaceWidget));
    assert!(matches!(list[10], GstCall::SetState(EngineState::Paused)));
    payload.muted = false;
    payload.volume = number(7.0);
    payload.max_buffer_ms = Some(4_500);
    payload.target_buffer_bytes = Some(8_000_000);
    let list = load_source(&payload).calls;
    assert!(matches!(
        list[5],
        GstCall::SetBufferDuration(BufferDuration::Milliseconds(4_500))
    ));
    assert!(matches!(list[6], GstCall::SetBufferSize(8_000_000)));
    assert!(matches!(list[7], GstCall::SetVolume(volume) if volume == number(1.0)));
}

#[test]
fn volumes_stay_between_none_and_full() {
    assert_eq!(open_volume(false, number(-2.0)), number(0.0));
    assert_eq!(open_volume(false, number(0.25)), number(0.25));
    assert_eq!(open_volume(true, number(0.25)), number(0.0));
    assert!(open_volume(false, number(f64::NAN)).is_nan());
}

#[test]
fn a_session_is_taken_over_only_when_its_source_moves() {
    let mut player = with_tracks();
    let mut payload = request();
    payload.session_key = "s2".to_owned();
    payload.autoplay = false;
    let mut loading = load_source(&payload);
    while loading.taken < 9 {
        load_call_done(&mut loading, &mut player, &payload, Ok(()), Some(40), 7).unwrap();
    }
    assert_eq!(player.tracks.len(), 4);
    assert!(matches!(loading.next(), Some(GstCall::PlaceWidget)));
    load_call_done(&mut loading, &mut player, &payload, Ok(()), Some(40), 7).unwrap();
    assert_eq!(player.session_key, "s1");
    assert!(player.tracks.is_empty());
    assert_eq!(player.meter.last_frames, 40);
    let stuck = Err(Error::Pipeline("stuck".to_owned()));
    assert_eq!(
        pipeline(load_call_done(&mut loading, &mut player, &payload, stuck, None, 8)),
        "stuck"
    );
    assert_eq!(player.session_key, "s1");
    assert_eq!(loading.taken, 10);
    load_call_done(&mut loading, &mut player, &payload, Ok(()), None, 9).unwrap();
    assert_eq!(player.session_key, "s2");
    assert!(loading.next().is_none());
}

#[test]
fn streams_become_tracks() {
    let player = with_tracks();
    assert_eq!(player.tracks.len(), 4);
    let indices: Vec<i32> = player.tracks.iter().map(|track| track.index).collect();
    assert_eq!(indices, vec![0, 1, 3, 4]);
    assert_eq!(player.tracks[0].label, "Track 1");
    assert_eq!(player.tracks[1].label, "EN");
    assert_eq!(player.tracks[1].language, "en");
    assert_eq!(player.tracks[2].label, "Kommentar");
    assert_eq!(player.tracks[3].label, "Track 5");
    assert_eq!(player.tracks[3].id, "native-4");
    assert_eq!(player.tracks[3].kind, TrackKind::Subtitle);
    assert_eq!(player.tracks[0].codec, "codec");
    assert!(player.tracks.iter().all(|track| !track.selected));
}

#[test]
fn languages_are_shown_in_capitals() {
    let selected = NameSet::new();
    let reading = stream(TrackKind::Audio, Some("a"), Some("stra\u{df}e"), None);
    let track = stream_track(&reading, 0, &selected).unwrap();
    assert_eq!(track.label, "STRASSE");
    let none = StreamReading {
        video: false,
        audio: false,
        text: false,
        id: None,
        language: None,
        title: None,
        codec: None,
    };
    assert!(stream_track(&none, 0, &selected).is_none());
    let both = StreamReading {
        video: false,
        audio: true,
        text: true,
        id: None,
        language: None,
        title: None,
        codec: None,
    };
    assert_eq!(stream_track(&both, 6, &selected).unwrap().kind, TrackKind::Audio);
    assert_eq!(stream_track(&both, 6, &selected).unwrap().id, "native-6");
}

#[test]
fn choices_replace_their_own_kind_only() {
    let mut player = with_tracks();
    let ids = vec![Some("v".to_owned()), Some("a-en".to_owned()), None, Some("gone".to_owned())];
    drain_bus(&mut player, BusMessage::StreamsSelected(ids)).unwrap();
    assert!(player.tracks[0].selected);
    assert!(player.tracks[1].selected);
    let calls = select_stream(&mut player, 3, true).unwrap();
    match &calls[0] {
        GstCall::SelectStreams(ids) => {
            assert_eq!(ids, &vec!["a-de".to_owned(), "v".to_owned()])
        }
        _ => panic!("no selection"),
    }
    assert!(player.tracks[1].selected);
    call_done(&mut player, &calls[0], Ok(())).unwrap();
    assert!(!player.tracks[1].selected);
    assert!(player.tracks[2].selected);
    let calls = select_stream(&mut player, 0, false).unwrap();
    match &calls[0] {
        GstCall::SelectStreams(ids) => assert_eq!(ids, &vec!["a-de".to_owned()]),
        _ => panic!("no selection"),
    }
    assert_eq!(
        pipeline(call_done(&mut player, &calls[0], Err(String::new()))),
        "decoder rejected track selection"
    );
    assert!(player.tracks[0].selected);
    assert_eq!(
        invalid(select_stream(&mut player, -2, true)),
        "unknown native track index -2"
    );
}

#[test]
fn actions_become_calls() {
    let mut slot = Some(with_tracks());
    let calls = control(&mut slot, &action("pause", 0.0, 0)).unwrap();
    assert!(matches!(calls[0], GstCall::SetState(EngineState::Paused)));
    assert!(!slot.as_ref().unwrap().desired_playing);
    let calls = control(&mut slot, &action("play", 0.0, 0)).unwrap();
    assert!(matches!(calls[0], GstCall::SetState(EngineState::Playing)));
    assert!(slot.as_ref().unwrap().desired_playing);
    let calls = control(&mut slot, &action("seek", -4.0, 0)).unwrap();
    assert_eq!(calls.len(), 2);
    assert!(matches!(calls[0], GstCall::Settle(3)));
    assert!(matches!(calls[1], GstCall::Seek(position) if position == number(0.0)));
    let calls = control(&mut slot, &action("volume", 1.5, 0)).unwrap();
    assert!(matches!(calls[0], GstCall::SetVolume(volume) if volume == number(1.0)));
    let calls = control(&mut slot, &action("fit", 0.0, 0)).unwrap();
    assert!(matches!(calls[0], GstCall::SetForceAspectRatio(true)));
    for name in ["crop", "stretch"] {
        let calls = control(&mut slot, &action(name, 0.0, 0)).unwrap();
        assert!(matches!(calls[0], GstCall::SetForceAspectRatio(false)));
    }
    let calls = control(&mut slot, &action("track", 0.0, 1)).unwrap();
    assert!(matches!(&calls[0], GstCall::SelectStreams(ids) if ids == &vec!["a-en".to_owned()]));
    let calls = control(&mut slot, &action("deselectTrack", 0.0, 1)).unwrap();
    assert!(matches!(&calls[0], GstCall::SelectStreams(ids) if ids.is_empty()));
    assert_eq!(
        invalid(control(&mut slot, &action("zoom", 2.0, 0))),
        "unsupported native action: zoom"
    );
    assert_eq!(
        pipeline(call_done(
            slot.as_mut().unwrap(),
            &GstCall::Settle(3),
            Err("slow".to_owned())
        )),
        "native pipeline state did not settle before seek: slow"
    );
    assert_eq!(
        pipeline(call_done(
            slot.as_mut().unwrap(),
            &GstCall::HideWidget,
            Err("other".to_owned())
        )),
        "other"
    );
}

#[test]
fn closed_slots_refuse_requests() {
    let mut slot: Option<NativePlayer> = None;
    let expected = "native player is not open";
    assert_eq!(invalid(control(&mut slot, &action("play", 0.0, 0))), expected);
    let request = NativeSessionRequest { session_key: "s1".to_owned() };
    assert_eq!(invalid(stats(&slot, &request)), expected);
    assert!(close(&slot, &request).is_empty());
    assert!(force_close(&slot).is_empty());
    park_player(&mut slot);
    assert!(slot.is_none());
}

#[test]
fn parked_players_hold_no_session() {
    let mut slot = Some(with_tracks());
    let other = NativeSessionRequest { session_key: "other".to_owned() };
    let calls = close(&slot, &other);
    assert_eq!(calls.len(), 2);
    assert!(matches!(calls[0], GstCall::SetState(EngineState::Ready)));
    assert!(matches!(calls[1], GstCall::HideWidget));
    park_player(&mut slot);
    let player = slot.as_ref().unwrap();
    assert_eq!(player.session_key, "");
    assert!(player.tracks.is_empty());
    assert_eq!(player.selected_streams.len(), 0);
    let request = NativeSessionRequest { session_key: "s1".to_owned() };
    assert_eq!(invalid(stats(&slot, &request)), "native player session is stale");
}

#[test]
fn layout_needs_the_open_session() {
    let slot = Some(with_tracks());
    let host = SurfaceHost { ready: true };
    let mut request = NativeLayoutRequest {
        session_key: "s1".to_owned(),
        x: number(5.0),
        y: number(6.0),
        width: number(7.0),
        height: number(8.0),
    };
    let calls = layout(&slot, &host, true, false, &request).unwrap();
    assert_eq!(calls[0], SurfaceCall::Move { x: 5, y: 6 });
    assert_eq!(calls[5], SurfaceCall::Show);
    assert_eq!(
        pipeline(layout(&slot, &SurfaceHost::new(), true, false, &request)),
        "native surface host is unavailable"
    );
    request.session_key = "s2".to_owned();
    assert_eq!(
        invalid(layout(&slot, &host, true, false, &request)),
        "native player session is stale"
    );
}

#[test]
fn buffering_never_wakes_a_paused_player() {
    let mut player = playing(&request());
    let call = drain_bus(&mut player, BusMessage::Buffering(99)).unwrap();
    assert!(matches!(call, Some(GstCall::SetState(EngineState::Paused))));
    let call = drain_bus(&mut player, BusMessage::Buffering(100)).unwrap();
    assert!(matches!(call, Some(GstCall::SetState(EngineState::Playing))));
    player.desired_playing = false;
    let call = drain_bus(&mut player, BusMessage::Buffering(100)).unwrap();
    assert!(matches!(call, Some(GstCall::SetState(EngineState::Paused))));
    assert_eq!(player.buffering_percent, 100);
    assert!(drain_bus(&mut player, BusMessage::Other).unwrap().is_none());
}

#[test]
fn engine_errors_stay_until_the_player_rests() {
    let mut player = playing(&request());
    assert!(bus_drained(&player).is_ok());
    let message = BusMessage::Failed {
        error: "decode".to_owned(),
        debug: Some("at 7".to_owned()),
    };
    assert_eq!(pipeline(drain_bus(&mut player, message)), "decode: at 7");
    assert_eq!(pipeline(bus_drained(&player)), "decode: at 7");
    drain_bus(&mut player, BusMessage::Buffering(100)).unwrap();
    assert_eq!(pipeline(bus_drained(&player)), "decode: at 7");
    let mut slot = Some(player);
    park_player(&mut slot);
    assert!(bus_drained(slot.as_ref().unwrap()).is_ok());
    let silent = BusMessage::Failed { error: "decode".to_owned(), debug: None };
    assert_eq!(pipeline(drain_bus(slot.as_mut().unwrap(), silent)), "decode: ");
}

#[test]
fn timelines_follow_the_answers_of_the_pipeline() {
    assert_eq!(
        playback_timeline(10, Some(false), None),
        Timeline { live: false, seekable: true, start: 0, end: 10 }
    );
    assert_eq!(
        playback_timeline(0, None, None),
        Timeline { live: true, seekable: false, start: 0, end: 0 }
    );
    assert_eq!(
        playback_timeline(
            10,
            Some(true),
            Some(Seeking { seekable: true, start: Some(2), end: None })
        ),
        Timeline { live: true, seekable: true, start: 2, end: 0 }
    );
    assert_eq!(rendered_frames(None), 0);
    assert_eq!(rendered_frames(Some(3)), 3);
}

fn readings() -> Readings {
    Readings {
        position: Some(2_000_000_000),
        duration: Some(60_000_000_000),
        latency: Some(false),
        seeking: None,
        rendered: Some(30),
        dropped: Some(2),
        width: Some(1920),
        height: Some(-1),
    }
}

#[test]
fn snapshots_report_the_player() {
    let mut payload = request();
    payload.max_buffer_ms = Some(10_000);
    payload.target_buffer_bytes = Some(8_000_000);
    let mut player = playing(&payload);
    player.buffering_percent = 50;
    let (report, measured) = snapshot(&mut player, readings(), 500_000_000);
    assert!(measured);
    assert_eq!(report.duration_seconds, MediaTime::Nanoseconds(60_000_000_000));
    assert_eq!(report.current_time_seconds, MediaTime::Nanoseconds(2_000_000_000));
    assert_eq!(report.buffered_seconds, MediaTime::Nanoseconds(7_000_000_000));
    assert!(!report.live);
    assert!(report.seekable);
    assert_eq!(report.seekable_start_seconds, MediaTime::Nanoseconds(0));
    assert_eq!(report.seekable_end_seconds, MediaTime::Nanoseconds(60_000_000_000));
    assert!(report.playing);
    assert_eq!((report.video_width, report.video_height), (1920, 0));
    assert_eq!(report.presented_frames, 30);
    assert_eq!(report.dropped_frames, 2);
    assert_eq!(report.measured_fps, FrameRate { frames: 30, nanoseconds: 500_000_000 });
    assert_eq!(report.hardware_backend, "gstreamer-va-gl-gtk");
    assert_eq!(report.backend, "gstreamer");
    assert_eq!(report.encoded_bytes_buffered, 4_000_000);
    player.buffering_percent = 100;
    let late = Readings { position: Some(59_000_000_000), ..readings() };
    let (report, measured) = snapshot(&mut player, late, 600_000_000);
    assert!(!measured);
    assert_eq!(report.buffered_seconds, MediaTime::Nanoseconds(60_000_000_000));
    assert_eq!(report.measured_fps, FrameRate { frames: 30, nanoseconds: 500_000_000 });
    let live = Readings { duration: None, ..readings() };
    let report = snapshot(&mut player, live, 600_000_000).0;
    assert!(report.live);
    assert!(!report.seekable);
    assert_eq!(report.buffered_seconds, MediaTime::Nanoseconds(12_000_000_000));
    assert_eq!(report.seekable_end_seconds, MediaTime::Nanoseconds(12_000_000_000));
    player.buffering_percent = -3;
    let report = snapshot(&mut player, live, 600_000_000).0;
    assert_eq!(report.buffered_seconds, MediaTime::Nanoseconds(2_000_000_000));
    assert_eq!(report.encoded_bytes_buffered, 0);
}
