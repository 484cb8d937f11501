//! Requests and textures on Windows.
use tauri_plugin_video::desktop::windows::texture_stream::d3d11::{
    device_step_taken, gst_device_for_adapter, signed_luid, DeviceStep,
};
use tauri_plugin_video::desktop::windows::texture_stream::presenter::{
    copy_sample, copy_step_taken, need_met, needs, setup_step_taken, wide, Acquired, CopyStep,
    NativeStep, PoolCall, PresentCall, Presented, SampleNeed, SetupStep, TextureStreamPresenter,
    UiJob,
};
use tauri_plugin_video::desktop::windows::texture_stream::targets::{
    draw_target, same_size, DrawTarget, Found, Reclaimed, NV12,
};
use tauri_plugin_video::desktop::windows::texture_stream::texture_error;
use tauri_plugin_video::desktop::windows::{self, gstreamer, Served};
use tauri_plugin_video::double::Double;
use tauri_plugin_video::error::Error;
use tauri_plugin_video::models::{
    NativeControlRequest, NativeLayoutRequest, NativeOpenRequest, NativeSessionRequest,
};
use tauri_plugin_video::ordered::NameMap;

fn number(value: f64) -> Double {
    Double { bits: value.to_bits() }
}

fn request(backend: Option<&str>) -> NativeOpenRequest {
    NativeOpenRequest {
        session_key: "s1".to_owned(),
        uri: "u".to_owned(),
        backend: backend.map(|name| name.to_owned()),
        headers: NameMap::new(),
        cookies: None,
        referrer: None,
        user_agent: None,
        tls_ca_file: None,
        max_buffer_ms: None,
        target_buffer_bytes: None,
        muted: false,
        volume: number(1.0),
        start_at_seconds: number(0.0),
        autoplay: false,
        x: number(0.0),
        y: number(0.0),
        width: number(1.0),
        height: number(1.0),
    }
}

fn pipeline<T>(result: Result<T, Error>) -> String {
    match result {
        Err(Error::Pipeline(text)) => text,
        _ => panic!("not a pipeline error"),
    }
}

fn unavailable<T>(result: Result<T, Error>) -> String {
    match result {
        Err(Error::RuntimeUnavailable(text)) => text,
        _ => panic!("not an unavailable runtime"),
    }
}

fn target(texture: u32) -> DrawTarget<u32, u32> {
    DrawTarget { texture, resource: texture + 100 }
}

#[test]
fn windows_opens_gstreamer_only() {
    assert_eq!(windows::open(true, &request(None)).unwrap(), Served::ByEngine);
    assert_eq!(windows::open(true, &request(Some("gstreamer"))).unwrap(), Served::ByEngine);
    assert_eq!(
        unavailable(windows::open(true, &request(Some("mpv")))),
        "the mpv backend is not implemented on Windows; use gstreamer"
    );
    assert!(matches!(
        windows::open(false, &request(Some("libvlc"))),
        Err(Error::InvalidRequest(text)) if text == "backend 'libvlc' is not available on Windows"
    ));
    assert_eq!(
        unavailable(windows::open(false, &request(None))),
        "Windows playback requires the gstreamer-runtime feature"
    );
}

#[test]
fn windows_requests_need_the_engine() {
    let expected = "Windows playback requires the gstreamer-runtime feature";
    let action = NativeControlRequest {
        session_key: String::new(),
        action: "play".to_owned(),
        value: number(0.0),
        index: 0,
    };
    let place = NativeLayoutRequest {
        session_key: String::new(),
        x: number(0.0),
        y: number(0.0),
        width: number(1.0),
        height: number(1.0),
    };
    let session = NativeSessionRequest { session_key: String::new() };
    assert_eq!(unavailable(windows::control(false, &action)), expected);
    assert_eq!(unavailable(windows::layout(false, &place)), expected);
    assert_eq!(unavailable(windows::stats(false, &session)), expected);
    assert_eq!(unavailable(windows::prepare_texture_stream(false, "id")), expected);
    assert_eq!(windows::close(false, &session).unwrap(), Served::AtOnce);
    assert_eq!(windows::control(true, &action).unwrap(), Served::ByEngine);
    assert_eq!(windows::layout(true, &place).unwrap(), Served::ByEngine);
    assert_eq!(windows::stats(true, &session).unwrap(), Served::ByEngine);
    assert_eq!(windows::prepare_texture_stream(true, "id").unwrap(), Served::ByEngine);
    assert_eq!(windows::close(true, &session).unwrap(), Served::ByEngine);
    assert_eq!(unavailable(gstreamer::unavailable::<()>()), expected);
    assert_eq!(unavailable(gstreamer::open(&request(None))), expected);
    assert_eq!(unavailable(gstreamer::control(&action)), expected);
    assert_eq!(unavailable(gstreamer::layout(&place)), expected);
    assert_eq!(unavailable(gstreamer::stats(&session)), expected);
    assert_eq!(unavailable(gstreamer::prepare_texture_stream("id")), expected);
    assert!(gstreamer::close(&session).is_ok());
}

#[test]
fn texture_errors_name_the_call() {
    assert!(matches!(
        texture_error("open it", "closed"),
        Error::Pipeline(text) if text == "failed to open it: closed"
    ));
    assert!(matches!(
        NativeStep::CreateStream.error("no"),
        Error::Pipeline(text) if text == "failed to create the WebView2 texture stream: no"
    ));
    assert!(matches!(
        NativeStep::RetireTexture.error("no"),
        Error::Pipeline(text) if text == "failed to retire an old WebView2 video texture: no"
    ));
}

#[test]
fn wide_text_is_utf16_with_a_zero() {
    for value in ["", "stream-1", "\u{e4}\u{ffff}", "a\u{10000}\u{10ffff}z", "\u{1f3ac}"] {
        let expected: Vec<u16> = value.encode_utf16().chain([0]).collect();
        assert_eq!(wide(value), expected);
    }
}

fn presenter() -> TextureStreamPresenter<u32, u32> {
    TextureStreamPresenter::new("stream-1").0
}

fn fill(presenter: &mut TextureStreamPresenter<u32, u32>, width: u32, height: u32) {
    let mut job = presenter.create_pool(width, height);
    let mut name = 1;
    while let Some(call) = job.next() {
        match call {
            PoolCall::Retire { .. } => job.texture_retired(Ok(())).unwrap(),
            PoolCall::Allocate { .. } => {
                job.texture_allocated(Ok((name, video(name + 100)))).unwrap();
                name += 1;
            }
        }
    }
    presenter.pool_made(job, Ok(())).unwrap();
}

fn video(resource: u32) -> Found<u32> {
    Found::Resource { resource, format: NV12, format_text: String::new() }
}

#[test]
fn streams_are_set_up_in_order() {
    let (_, steps) = TextureStreamPresenter::<u32, u32>::new("stream-1");
    assert_eq!(steps.len(), 9);
    assert!(matches!(steps[0], SetupStep::QueryTextureStreams));
    assert!(matches!(steps[1], SetupStep::QueryAdapter));
    assert!(matches!(steps[2], SetupStep::MakeDevice));
    assert!(matches!(steps[3], SetupStep::QueryDeviceIdentity));
    assert!(matches!(&steps[4], SetupStep::CreateStream { name } if *name == wide("stream-1")));
    let origins = [
        "http://localhost:1420",
        "http://tauri.localhost",
        "https://tauri.localhost",
        "tauri://localhost",
    ];
    for at in 0..4 {
        assert!(matches!(
            &steps[5 + at],
            SetupStep::AllowOrigin { origin, allow_web_texture: false }
                if *origin == wide(origins[at])
        ));
    }
    let fails = |at: usize| pipeline(setup_step_taken(&steps[at], Err("no".to_owned())));
    assert_eq!(fails(0), "failed to query WebView2 TextureStream support: no");
    assert_eq!(fails(1), "failed to query the WebView2 render adapter: no");
    assert_eq!(fails(2), "no");
    assert_eq!(fails(3), "failed to query the D3D11 device identity: no");
    assert_eq!(fails(4), "failed to create the WebView2 texture stream: no");
    assert!(setup_step_taken(&steps[5], Err("no".to_owned())).is_ok());
    assert!(setup_step_taken(&steps[0], Ok(())).is_ok());
}

#[test]
fn devices_are_made_in_order() {
    let steps = gst_device_for_adapter();
    assert_eq!(steps.len(), 5);
    assert!(device_step_taken(DeviceStep::InitializeMemory, false).is_ok());
    assert!(device_step_taken(DeviceStep::MakeDevice, true).is_ok());
    assert_eq!(
        pipeline(device_step_taken(DeviceStep::MakeDevice, false)),
        "GStreamer could not create a device on WebView2's adapter"
    );
    assert_eq!(
        pipeline(device_step_taken(DeviceStep::FindDevice, false)),
        "GStreamer returned no D3D11 device"
    );
    assert_eq!(
        pipeline(device_step_taken(DeviceStep::FindDeviceContext, false)),
        "GStreamer returned no D3D11 device context"
    );
    assert_eq!(
        pipeline(device_step_taken(DeviceStep::MakeContext, false)),
        "GStreamer could not create a D3D11 device context"
    );
    for luid in [0, 1, u64::MAX, 1 << 63, (1 << 63) - 1, 0xdead_beef_0000_0001] {
        assert_eq!(signed_luid(luid), luid as i64);
    }
}

#[test]
fn frames_are_looked_over_before_they_are_copied() {
    assert_eq!(needs().len(), 5);
    assert_eq!(needs()[0], SampleNeed::Buffer);
    assert!(need_met(SampleNeed::Buffer, true).is_ok());
    assert_eq!(
        pipeline(need_met(SampleNeed::Buffer, false)),
        "Windows video sample has no buffer"
    );
    assert_eq!(
        pipeline(need_met(SampleNeed::Memory, false)),
        "Windows video sample has no D3D11 memory"
    );
    assert_eq!(
        pipeline(need_met(SampleNeed::DeviceMemory, false)),
        "Windows video sample did not negotiate D3D11Memory"
    );
    assert_eq!(
        pipeline(need_met(SampleNeed::Mapping, false)),
        "could not map GStreamer D3D11 memory"
    );
    assert_eq!(
        pipeline(need_met(SampleNeed::Texture, false)),
        "GStreamer returned no D3D11 texture"
    );
}

#[test]
fn copies_lock_and_unlock() {
    assert_eq!(
        copy_sample(0),
        vec![
            CopyStep::QueryMutex,
            CopyStep::Acquire { key: 0, timeout_ms: 1_000 },
            CopyStep::LockDevice,
            CopyStep::CopyWhole,
            CopyStep::Flush,
            CopyStep::UnlockDevice,
            CopyStep::Release { key: 0 },
        ]
    );
    assert_eq!(copy_sample(5)[3], CopyStep::CopyPart { subresource: 5 });
    let fails = |step: CopyStep| pipeline(copy_step_taken(step, Err("no".to_owned())));
    assert_eq!(fails(CopyStep::QueryMutex), "failed to query the WebView2 texture mutex: no");
    assert_eq!(
        fails(CopyStep::Acquire { key: 0, timeout_ms: 1_000 }),
        "failed to acquire the WebView2 texture: no"
    );
    assert_eq!(
        fails(CopyStep::Release { key: 0 }),
        "failed to release the WebView2 texture: no"
    );
    assert!(copy_step_taken(CopyStep::Flush, Ok(())).is_ok());
    assert!(copy_step_taken(CopyStep::QueryMutex, Ok(())).is_ok());
}

#[test]
fn only_video_textures_are_drawn_to() {
    let found = Found::Resource { resource: 7, format: NV12, format_text: String::new() };
    let made = draw_target(1, found).unwrap();
    assert_eq!((made.texture, made.resource), (1, 7));
    let other = Found::Resource {
        resource: 7,
        format: 87,
        format_text: "DXGI_FORMAT(87)".to_owned(),
    };
    assert_eq!(
        pipeline(draw_target(1, other)),
        "WebView2 created unsupported video texture format DXGI_FORMAT(87)"
    );
    assert_eq!(
        pipeline(draw_target::<u32, u32>(1, Found::NoResource("x".to_owned()))),
        "failed to get a WebView2 video texture resource: x"
    );
    assert_eq!(
        pipeline(draw_target::<u32, u32>(1, Found::NoDescription("x".to_owned()))),
        "failed to inspect a WebView2 video texture: x"
    );
    assert!(same_size(None, None));
    assert!(!same_size(None, Some((1, 1))));
    assert!(!same_size(Some((1, 2)), Some((2, 1))));
}

#[test]
fn pools_are_made_once_for_each_size() {
    let mut presenter = presenter();
    assert!(matches!(presenter.acquire(0, 720), Acquired::MakePool { width: 1, height: 720 }));
    assert!(matches!(presenter.acquire(0, 720), Acquired::Wait));
    presenter.dispatched(UiJob::MakePool, Ok(())).unwrap();
    assert!(matches!(presenter.acquire(0, 720), Acquired::Wait));
    fill(&mut presenter, 1, 720);
    for texture in [4, 3, 2, 1] {
        assert!(matches!(
            presenter.acquire(1, 720),
            Acquired::Target(given) if given.texture == texture
        ));
    }
    assert!(matches!(presenter.acquire(1, 720), Acquired::Reclaim));
    assert!(matches!(presenter.acquire(1, 720), Acquired::Wait));
    presenter.reclaim_ended();
    assert!(matches!(presenter.acquire(1, 720), Acquired::Reclaim));
    assert!(presenter
        .dispatched(UiJob::Reclaim, Err(Error::Pipeline("no thread".to_owned())))
        .is_err());
    assert!(matches!(presenter.acquire(1, 720), Acquired::Reclaim));
    assert!(matches!(presenter.acquire(2, 720), Acquired::MakePool { width: 2, height: 720 }));
}

#[test]
fn failed_pools_can_be_asked_for_again() {
    let mut presenter = presenter();
    assert!(matches!(presenter.acquire(4, 4), Acquired::MakePool { .. }));
    let refused =
        presenter.dispatched(UiJob::MakePool, Err(Error::Pipeline("no thread".to_owned())));
    assert_eq!(pipeline(refused), "no thread");
    assert!(matches!(presenter.acquire(4, 4), Acquired::MakePool { .. }));
    fill(&mut presenter, 4, 4);
    assert!(matches!(presenter.acquire(8, 8), Acquired::MakePool { .. }));
    let mut job = presenter.create_pool(8, 8);
    assert_eq!(job.old.len(), 4);
    assert_eq!(job.next(), Some(PoolCall::Retire { at: 0 }));
    job.texture_retired(Ok(())).unwrap();
    assert_eq!(job.next(), Some(PoolCall::Retire { at: 1 }));
    let failure = job.texture_retired(Err("busy".to_owned()));
    let expected = "failed to retire an old WebView2 video texture: busy";
    assert_eq!(pipeline(presenter.pool_made(job, failure)), expected);
    assert!(presenter.free.is_empty());
    assert_eq!(presenter.texture_size, Some((4, 4)));
    assert!(matches!(presenter.acquire(8, 8), Acquired::MakePool { .. }));
    let mut job = presenter.create_pool(8, 8);
    assert_eq!(job.next(), Some(PoolCall::Allocate { width: 8, height: 8 }));
    assert_eq!(
        pipeline(job.texture_allocated(Err("no memory".to_owned()))),
        "failed to allocate a WebView2 video texture: no memory"
    );
    let other = Found::Resource { resource: 1, format: 1, format_text: "F".to_owned() };
    assert_eq!(
        pipeline(job.texture_allocated(Ok((1, other)))),
        "WebView2 created unsupported video texture format F"
    );
    assert!(job.made.is_empty());
}

#[test]
fn frames_get_their_time_before_they_are_presented() {
    let mut presenter = presenter();
    let job = presenter.present(target(1), 77);
    assert_eq!(job.next(), Some(PresentCall::SetTimestamp { nanoseconds: 77 }));
    let job = match presenter.present_call_done(job, true) {
        Presented::Next(job) => job,
        _ => panic!("the frame was not presented"),
    };
    assert_eq!(job.next(), Some(PresentCall::PresentTexture));
    assert!(matches!(presenter.present_call_done(job, true), Presented::Reclaim));
    assert!(presenter.free.is_empty());
    let job = presenter.present(target(2), 78);
    assert!(matches!(presenter.present_call_done(job, false), Presented::Returned));
    assert_eq!(presenter.free.len(), 1);
    let job = presenter.present(target(3), 79);
    if let Presented::Next(job) = presenter.present_call_done(job, true) {
        assert!(matches!(presenter.present_call_done(job, false), Presented::Returned));
    }
    assert_eq!(presenter.free.len(), 2);
    assert_eq!(presenter.free[1].texture, 3);
    let refused = Err(Error::Pipeline("no thread".to_owned()));
    assert_eq!(pipeline(presenter.dispatched(UiJob::Present, refused)), "no thread");
    assert_eq!(presenter.free.len(), 2);
}

#[test]
fn textures_come_back_when_they_still_fit() {
    let mut presenter = presenter();
    presenter.texture_size = Some((4, 4));
    assert!(matches!(presenter.reclaim(Ok(target(3)), Some((4, 4))), Reclaimed::Kept));
    assert_eq!(presenter.free.len(), 1);
    assert!(matches!(
        presenter.reclaim(Ok(target(4)), Some((2, 2))),
        Reclaimed::Close(given) if given.texture == 4
    ));
    assert!(matches!(presenter.reclaim(Ok(target(5)), None), Reclaimed::Close(_)));
    assert!(matches!(
        presenter.reclaim(Err(Error::Pipeline("x".to_owned())), None),
        Reclaimed::Failed(_)
    ));
    assert_eq!(presenter.free.len(), 1);
}
