//! Which engine answers a request on Linux.
use tauri_plugin_video::desktop::linux::{
    active_backend, close, closed, control, force_close, layout, open, opened, replaced,
    select_backend, stats, Backend, EngineCalls, LinuxDesktop, OpenPlan, Runtimes,
};
use tauri_plugin_video::desktop::linux_gstreamer::{self, EngineState, GstCall};
use tauri_plugin_video::desktop::linux_mpv::{
    self, BufferReadings, MpvBufferDefaults, MpvCall, RenderLog,
};
use tauri_plugin_video::desktop::linux_surface::{SurfaceCall, SurfaceHost};
use tauri_plugin_video::desktop::unavailable_linux_backend;
use tauri_plugin_video::double::Double;
use tauri_plugin_video::error::Error;
use tauri_plugin_video::latch::Latch;
use tauri_plugin_video::models::{
    FrameRate, MediaTime, NativeControlRequest, NativeLayoutRequest, NativeOpenRequest,
    NativePlaybackSnapshot, NativeSessionRequest,
};
use tauri_plugin_video::ordered::NameMap;

const BOTH: Runtimes = Runtimes { gstreamer: true, mpv: true };
const NEITHER: Runtimes = Runtimes { gstreamer: false, mpv: false };

fn number(value: f64) -> Double {
    Double { bits: value.to_bits() }
}

fn request(backend: Option<&str>) -> NativeOpenRequest {
    NativeOpenRequest {
        session_key: "s1".to_owned(),
        uri: "http://example.test/a.mp4".to_owned(),
        backend: backend.map(|name| name.to_owned()),
        headers: NameMap::new(),
        cookies: None,
        referrer: None,
        user_agent: None,
        tls_ca_file: None,
        max_buffer_ms: None,
        target_buffer_bytes: None,
        muted: false,
        volume: number(1.0),
        start_at_seconds: number(0.0),
        autoplay: true,
        x: number(0.0),
        y: number(0.0),
        width: number(640.0),
        height: number(360.0),
    }
}

fn session(key: &str) -> NativeSessionRequest {
    NativeSessionRequest { session_key: key.to_owned() }
}

fn action(key: &str, name: &str) -> NativeControlRequest {
    NativeControlRequest {
        session_key: key.to_owned(),
        action: name.to_owned(),
        value: number(0.0),
        index: 0,
    }
}

fn report() -> NativePlaybackSnapshot {
    let zero = MediaTime::Nanoseconds(0);
    NativePlaybackSnapshot {
        duration_seconds: zero,
        current_time_seconds: zero,
        buffered_seconds: zero,
        live: false,
        seekable: false,
        seekable_start_seconds: zero,
        seekable_end_seconds: zero,
        playing: false,
        video_width: 0,
        video_height: 0,
        tracks: Vec::new(),
        presented_frames: 0,
        dropped_frames: 0,
        measured_fps: FrameRate { frames: 0, nanoseconds: 500_000_000 },
        hardware_backend: String::new(),
        backend: String::new(),
        encoded_bytes_buffered: 0,
        average_frame_processing_us: number(0.0),
    }
}

fn with_gstreamer() -> LinuxDesktop {
    let mut desktop = LinuxDesktop::new(BOTH);
    let payload = request(None);
    let (mut player, _) = linux_gstreamer::create_player(&payload, 0);
    let mut loading = linux_gstreamer::load_source(&payload);
    while loading.next().is_some() {
        linux_gstreamer::load_call_done(&mut loading, &mut player, &payload, Ok(()), None, 0)
            .unwrap();
    }
    linux_gstreamer::opened(&mut desktop.gstreamer, player, Ok(report())).unwrap();
    opened(&mut desktop, Backend::Gstreamer, Ok(report())).unwrap();
    desktop
}

fn with_mpv() -> LinuxDesktop {
    let mut desktop = LinuxDesktop::new(BOTH);
    let payload = request(Some("mpv"));
    let defaults = MpvBufferDefaults::read(BufferReadings {
        cache_seconds: None,
        readahead_seconds: None,
        forward_bytes: None,
        backward_bytes: None,
        donate_buffer: None,
        hysteresis_seconds: None,
    });
    let mut player = linux_mpv::create_player(defaults, 0);
    let mut log = RenderLog::new();
    let mut loading = linux_mpv::load_source(&player, &payload);
    let mut redraw = Latch::new();
    while loading.next().is_some() {
        linux_mpv::load_call_done(
            &mut loading,
            &mut player,
            &mut log,
            &mut redraw,
            &payload,
            Ok(()),
            0,
        )
        .unwrap();
    }
    linux_mpv::opened(&mut desktop.mpv, player, Ok(report())).unwrap();
    opened(&mut desktop, Backend::Mpv, Ok(report())).unwrap();
    desktop
}

fn invalid<T>(result: Result<T, Error>) -> String {
    match result {
        Err(Error::InvalidRequest(text)) => text,
        _ => panic!("not an invalid request"),
    }
}

fn unavailable<T>(result: Result<T, Error>) -> String {
    match result {
        Err(Error::RuntimeUnavailable(text)) => text,
        _ => panic!("not an unavailable runtime"),
    }
}

#[test]
fn explicit_mobile_backend_is_rejected_on_linux() {
    assert!(select_backend(BOTH, Some("libvlc")).is_err());
}

#[test]
fn omitted_backend_selects_gstreamer() {
    assert_eq!(select_backend(BOTH, None).unwrap(), Backend::Gstreamer);
    let only = Runtimes { gstreamer: true, mpv: false };
    assert_eq!(select_backend(only, None).unwrap(), Backend::Gstreamer);
}

#[test]
fn mpv_requires_an_explicit_request() {
    let only = Runtimes { gstreamer: false, mpv: true };
    assert_eq!(select_backend(only, Some("mpv")).unwrap(), Backend::Mpv);
    assert_eq!(select_backend(BOTH, Some("mpv")).unwrap(), Backend::Mpv);
    assert!(select_backend(only, None).is_err());
}

#[test]
fn backend_failures_say_what_is_missing() {
    assert_eq!(
        unavailable(select_backend(NEITHER, Some("gstreamer"))),
        "the gstreamer backend was not compiled; enable gstreamer-runtime"
    );
    assert_eq!(
        unavailable(select_backend(NEITHER, Some("mpv"))),
        "the mpv backend was not compiled; enable mpv-runtime"
    );
    assert_eq!(
        unavailable(select_backend(NEITHER, None)),
        "the default gstreamer backend was not compiled; request 'mpv' explicitly or enable gstreamer-runtime"
    );
    assert_eq!(
        invalid(select_backend(BOTH, Some("libvlc"))),
        "backend 'libvlc' is not available on Linux"
    );
    assert_eq!(
        invalid(select_backend(NEITHER, Some(""))),
        "backend '' is not available on Linux"
    );
}

#[test]
fn nothing_open_turns_every_request_away() {
    let mut desktop = LinuxDesktop::new(BOTH);
    let expected = "native player is not open";
    assert_eq!(invalid(active_backend(&desktop)), expected);
    assert_eq!(invalid(control(&mut desktop, &action("", "play"))), expected);
    assert_eq!(invalid(stats(&desktop, &session(""))), expected);
    assert_eq!(invalid(close(&desktop, &session(""))), expected);
    let host = SurfaceHost { ready: true };
    let move_request = NativeLayoutRequest {
        session_key: String::new(),
        x: number(0.0),
        y: number(0.0),
        width: number(1.0),
        height: number(1.0),
    };
    assert_eq!(invalid(layout(&desktop, &host, false, false, &move_request)), expected);
}

#[test]
fn requests_go_to_the_engine_in_use() {
    let mut desktop = with_gstreamer();
    assert_eq!(active_backend(&desktop).unwrap(), Backend::Gstreamer);
    match control(&mut desktop, &action("s1", "play")).unwrap() {
        EngineCalls::Gstreamer(calls) => {
            assert_eq!(calls.len(), 1);
            assert!(matches!(calls[0], GstCall::SetState(EngineState::Playing)));
        }
        EngineCalls::Mpv(_) => panic!("wrong engine"),
    }
    assert_eq!(stats(&desktop, &session("s1")).unwrap(), Backend::Gstreamer);

    let mut desktop = with_mpv();
    match control(&mut desktop, &action("s1", "seek")).unwrap() {
        EngineCalls::Mpv(calls) => {
            assert_eq!(calls.len(), 1);
            assert!(matches!(calls[0], MpvCall::Seek(position) if position == number(0.0)));
        }
        EngineCalls::Gstreamer(_) => panic!("wrong engine"),
    }
    assert_eq!(stats(&desktop, &session("s1")).unwrap(), Backend::Mpv);
}

#[test]
fn stale_sessions_are_turned_away_and_change_nothing() {
    let mut desktop = with_gstreamer();
    let expected = "native player session is stale";
    assert_eq!(invalid(control(&mut desktop, &action("s0", "pause"))), expected);
    assert!(desktop.gstreamer.as_ref().unwrap().desired_playing);
    assert_eq!(invalid(stats(&desktop, &session("s0"))), expected);
    let mut desktop = with_mpv();
    assert_eq!(invalid(control(&mut desktop, &action("s0", "pause"))), expected);
    assert_eq!(invalid(stats(&desktop, &session("s0"))), expected);
}

#[test]
fn layout_reaches_the_engine_in_use() {
    let desktop = with_mpv();
    let host = SurfaceHost { ready: true };
    let request = NativeLayoutRequest {
        session_key: "s1".to_owned(),
        x: number(-3.5),
        y: number(2.4),
        width: number(0.0),
        height: number(99.5),
    };
    let calls = layout(&desktop, &host, true, true, &request).unwrap();
    assert_eq!(
        calls,
        vec![
            SurfaceCall::Move { x: -4, y: 2 },
            SurfaceCall::RequestSize { width: 1, height: 100 },
            SurfaceCall::ResizeWidget,
            SurfaceCall::ResizeLayer,
            SurfaceCall::DrawLayer,
        ]
    );
}

#[test]
fn another_engine_is_closed_before_a_source_opens() {
    let desktop = with_gstreamer();
    assert_eq!(
        open(&desktop, &request(Some("mpv"))).unwrap(),
        OpenPlan { close: Some(Backend::Gstreamer), requested: Backend::Mpv }
    );
    assert_eq!(
        open(&desktop, &request(None)).unwrap(),
        OpenPlan { close: None, requested: Backend::Gstreamer }
    );
    let empty = LinuxDesktop::new(BOTH);
    assert_eq!(
        open(&empty, &request(Some("mpv"))).unwrap(),
        OpenPlan { close: None, requested: Backend::Mpv }
    );
    assert_eq!(
        invalid(open(&empty, &request(Some("x")))),
        "backend 'x' is not available on Linux"
    );
}

#[test]
fn failed_replacement_leaves_nothing_open() {
    let mut desktop = with_gstreamer();
    let plan = open(&desktop, &request(Some("mpv"))).unwrap();
    match force_close(&desktop, Backend::Gstreamer) {
        EngineCalls::Gstreamer(calls) => {
            assert!(matches!(calls[0], GstCall::SetState(EngineState::Ready)));
            assert!(matches!(calls[1], GstCall::HideWidget));
            assert_eq!(calls.len(), 2);
        }
        EngineCalls::Mpv(_) => panic!("wrong engine"),
    }
    replaced(&mut desktop, plan, Ok(())).unwrap();
    assert_eq!(desktop.gstreamer.as_ref().unwrap().session_key, "");
    let failure = Err(Error::Pipeline("no surface".to_owned()));
    assert!(opened(&mut desktop, plan.requested, failure).is_err());
    assert_eq!(
        invalid(control(&mut desktop, &action("s1", "play"))),
        "native player is not open"
    );
}

#[test]
fn refused_room_keeps_the_engine_in_use() {
    let mut desktop = with_gstreamer();
    let plan = open(&desktop, &request(Some("mpv"))).unwrap();
    assert!(replaced(&mut desktop, plan, Err(Error::Pipeline("stuck".to_owned()))).is_err());
    assert_eq!(active_backend(&desktop).unwrap(), Backend::Gstreamer);
    assert_eq!(desktop.gstreamer.as_ref().unwrap().session_key, "s1");
}

#[test]
fn mpv_is_given_up_for_another_engine() {
    let mut desktop = with_mpv();
    let plan = open(&desktop, &request(Some("gstreamer"))).unwrap();
    match force_close(&desktop, Backend::Mpv) {
        EngineCalls::Mpv(calls) => assert!(calls.is_empty()),
        EngineCalls::Gstreamer(_) => panic!("wrong engine"),
    }
    replaced(&mut desktop, plan, Ok(())).unwrap();
    assert!(desktop.mpv.is_none());
    assert!(desktop.active.is_none());
}

#[test]
fn close_puts_the_engine_to_rest_whatever_the_session() {
    let mut desktop = with_mpv();
    let mut log = RenderLog::new();
    log.error = Some("late".to_owned());
    match close(&desktop, &session("other")).unwrap() {
        EngineCalls::Mpv(calls) => {
            assert_eq!(calls.len(), 2);
            assert!(matches!(calls[0], MpvCall::Stop));
            assert!(matches!(calls[1], MpvCall::HideWidget));
        }
        EngineCalls::Gstreamer(_) => panic!("wrong engine"),
    }
    closed(&mut desktop, &mut log, Ok(())).unwrap();
    assert!(log.error.is_none());
    assert!(desktop.mpv.is_some());
    assert_eq!(desktop.mpv.as_ref().unwrap().session_key, "");
    assert_eq!(invalid(stats(&desktop, &session("s1"))), "native player is not open");
    assert_eq!(invalid(close(&desktop, &session("s1"))), "native player is not open");
}

#[test]
fn close_that_fails_leaves_the_engine_in_use() {
    let mut desktop = with_gstreamer();
    let mut log = RenderLog::new();
    assert!(closed(&mut desktop, &mut log, Err(Error::Pipeline("busy".to_owned()))).is_err());
    assert_eq!(stats(&desktop, &session("s1")).unwrap(), Backend::Gstreamer);
    closed(&mut desktop, &mut log, Ok(())).unwrap();
    assert!(active_backend(&desktop).is_err());
    assert_eq!(desktop.gstreamer.as_ref().unwrap().session_key, "");
}

#[test]
fn missing_engines_answer_that_they_are_missing() {
    let expected = "the requested Linux playback backend was not compiled";
    assert_eq!(unavailable(unavailable_linux_backend::unavailable::<()>()), expected);
    assert_eq!(unavailable(unavailable_linux_backend::open(&request(None))), expected);
    assert_eq!(unavailable(unavailable_linux_backend::control(&action("", "play"))), expected);
    assert_eq!(unavailable(unavailable_linux_backend::stats(&session(""))), expected);
    let move_request = NativeLayoutRequest {
        session_key: String::new(),
        x: number(0.0),
        y: number(0.0),
        width: number(1.0),
        height: number(1.0),
    };
    assert_eq!(unavailable(unavailable_linux_backend::layout(&move_request)), expected);
    assert!(unavailable_linux_backend::close(&session("")).is_ok());
    assert!(unavailable_linux_backend::force_close().is_ok());
    let mut desktop = LinuxDesktop {
        runtimes: NEITHER,
        active: Some(Backend::Mpv),
        gstreamer: None,
        mpv: None,
    };
    assert_eq!(unavailable(control(&mut desktop, &action("", "play"))), expected);
}
