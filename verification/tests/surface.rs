//! Where the video stands below the web view.
use tauri_plugin_video::desktop::linux_surface::{
    ensure_host, place_widget, placement, step_taken, HostStep, Placement, SurfaceCall,
    SurfaceHost,
};
use tauri_plugin_video::desktop::{run_on_main, unsupported, MainThread};
use tauri_plugin_video::double::Double;
use tauri_plugin_video::error::Error;

fn number(value: f64) -> Double {
    Double { bits: value.to_bits() }
}

fn pipeline<T>(result: Result<T, Error>) -> String {
    match result {
        Err(Error::Pipeline(text)) => text,
        _ => panic!("not a pipeline error"),
    }
}

#[test]
fn rounding_matches_the_rounding_of_doubles() {
    let values = [
        0.0, -0.0, 0.4, 0.5, 0.49999999999999994, 0.6, 1.0, 1.5, 2.5, -0.5, -0.4, -1.5, 1e9,
        2147483646.5, 2147483647.0, 2147483647.5, 2147483648.0, -2147483648.0, -2147483648.5,
        -2147483649.0, 1e300, -1e300, f64::INFINITY, f64::NEG_INFINITY, f64::NAN, 5e-324,
        4503599627370497.5, 123456.789, -98765.4321,
    ];
    for value in values {
        assert_eq!(number(value).round(), value.round() as i32, "{value}");
    }
}

#[test]
fn ordering_matches_the_order_of_doubles() {
    let values = [
        0.0, -0.0, 1.0, -1.0, 1e-300, -1e-300, f64::INFINITY, f64::NEG_INFINITY, f64::NAN, 2.5,
    ];
    for a in values {
        for b in values {
            assert_eq!(number(a).less_than(number(b)), a < b, "{a} {b}");
            if !(a == b) && !(a.is_nan() && b.is_nan()) {
                assert_eq!(number(a).max(number(b)), number(a.max(b)), "{a} {b}");
                assert_eq!(number(a).min(number(b)), number(a.min(b)), "{a} {b}");
            }
        }
        assert_eq!(number(a).is_nan(), a.is_nan());
        let held = number(a).clamp(number(0.0), number(1.0));
        if a.is_nan() {
            assert!(held.is_nan());
        } else {
            assert_eq!(f64::from_bits(held.bits), a.clamp(0.0, 1.0));
        }
    }
}

#[test]
fn placements_round_and_keep_negative_positions() {
    assert_eq!(
        placement(number(-10.5), number(-0.4), number(0.2), number(10.49)),
        Placement { x: -11, y: 0, width: 1, height: 10 }
    );
    assert_eq!(
        placement(number(f64::NAN), number(1e12), number(f64::NAN), number(-5.0)),
        Placement { x: 0, y: i32::MAX, width: 1, height: 1 }
    );
}

#[test]
fn widgets_are_put_once_and_then_moved() {
    let host = SurfaceHost { ready: true };
    let calls = place_widget(
        &host,
        false,
        false,
        number(1.0),
        number(2.0),
        number(3.0),
        number(4.0),
    )
    .unwrap();
    assert_eq!(
        calls,
        vec![
            SurfaceCall::Put { x: 1, y: 2 },
            SurfaceCall::RequestSize { width: 3, height: 4 },
            SurfaceCall::ResizeWidget,
            SurfaceCall::ResizeLayer,
            SurfaceCall::DrawLayer,
            SurfaceCall::Show,
        ]
    );
    let calls = place_widget(
        &host,
        true,
        true,
        number(1.0),
        number(2.0),
        number(3.0),
        number(4.0),
    )
    .unwrap();
    assert_eq!(calls[0], SurfaceCall::Move { x: 1, y: 2 });
    assert_eq!(calls.len(), 5);
}

#[test]
fn widgets_need_a_layer() {
    let zero = number(0.0);
    assert_eq!(
        pipeline(place_widget(&SurfaceHost::new(), false, false, zero, zero, zero, zero)),
        "native surface host is unavailable"
    );
}

#[test]
fn the_layer_is_made_once() {
    let mut host = SurfaceHost::new();
    let steps = ensure_host(&host);
    assert_eq!(steps.len(), 11);
    assert_eq!(steps[0], HostStep::FindWindow);
    assert_eq!(steps[10], HostStep::ShowWindow);
    for step in steps {
        assert!(!host.ready);
        step_taken(&mut host, step, Ok(())).unwrap();
    }
    assert!(host.ready);
    assert!(ensure_host(&host).is_empty());
}

#[test]
fn failed_steps_leave_no_layer() {
    let mut host = SurfaceHost::new();
    let fails = |host: &mut SurfaceHost, step: HostStep| {
        pipeline(step_taken(host, step, Err("detail".to_owned())))
    };
    assert_eq!(fails(&mut host, HostStep::FindWindow), "no Tauri webview window is available");
    assert_eq!(fails(&mut host, HostStep::FindChild), "Tauri GTK window has no webview child");
    assert_eq!(fails(&mut host, HostStep::LoadStyle), "detail");
    assert_eq!(fails(&mut host, HostStep::ShowWindow), "detail");
    assert!(!host.ready);
}

#[test]
fn the_main_thread_answers_or_fails() {
    assert_eq!(run_on_main(MainThread::Answered(Ok(7))).unwrap(), 7);
    assert_eq!(
        pipeline(run_on_main::<()>(MainThread::Unreachable("gone".to_owned()))),
        "native UI dispatcher is unavailable: gone"
    );
    assert_eq!(
        pipeline(run_on_main::<()>(MainThread::Silent("timed out".to_owned()))),
        "native UI thread timed out: timed out"
    );
    assert!(matches!(
        run_on_main::<()>(MainThread::Answered(Err(Error::InvalidRequest("x".to_owned())))),
        Err(Error::InvalidRequest(text)) if text == "x"
    ));
}

#[test]
fn other_platforms_are_unsupported() {
    assert!(matches!(
        unsupported::<()>(),
        Err(Error::InvalidRequest(text))
            if text == "native desktop surfaces are currently implemented on Linux and Windows"
    ));
}
