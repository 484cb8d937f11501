//! The native layer below the web view, and where the video stands on it.
use crate::double;
use crate::double::Double;
use crate::error;
use crate::error::Error;
use crate::error::Failure;
use vstd::prelude::*;

verus! {

/// Where a widget stands, in pixels.
#[derive(Clone, Copy, Debug, PartialEq, Eq, Structural)]
pub struct Placement {
    pub x: i32,
    pub y: i32,
    pub width: i32,
    pub height: i32,
}

/// The placement for a rectangle: each number to the nearest pixel, and at
/// least one pixel in each direction.
pub open spec fn placed(x: Double, y: Double, width: Double, height: Double) -> Placement {
    let one = Double { bits: 0x3ff0_0000_0000_0000 };
    Placement {
        x: x.rounded() as i32,
        y: y.rounded() as i32,
        width: width.max_spec(one).rounded() as i32,
        height: height.max_spec(one).rounded() as i32,
    }
}

/// Rounds a rectangle to pixels.
///
/// Negative positions stay negative: the layer clips what stands outside the
/// window, so that the video leaves it together with the page that scrolls.
pub fn placement(x: Double, y: Double, width: Double, height: Double) -> (placement: Placement)
    ensures
        placement == placed(x, y, width, height),
{
    Placement {
        x: x.round(),
        y: y.round(),
        width: width.max(Double::one()).round(),
        height: height.max(Double::one()).round(),
    }
}

/// A widget is at least one pixel wide and high.
pub proof fn placed_widgets_are_visible(x: Double, y: Double, width: Double, height: Double)
    ensures
        placed(x, y, width, height).width >= 1,
        placed(x, y, width, height).height >= 1,
{
    let one = Double { bits: 0x3ff0_0000_0000_0000 };
    width.max_spec(one).lemma_rounds_up_to_one();
    height.max_spec(one).lemma_rounds_up_to_one();
}

/// A position of half a pixel or more outside the window stays outside.
pub proof fn negative_positions_stay_negative(x: Double, y: Double, width: Double, height: Double)
    requires
        !x.is_nan_spec(),
        x.rank() <= (Double { bits: 0xbfe0_0000_0000_0000 }).rank(),
    ensures
        placed(x, y, width, height).x < 0,
{
    x.lemma_rounds_down_to_minus_one();
}

/// A call on the widget or on the layer that holds it.
#[derive(Clone, Copy, Debug, PartialEq, Eq, Structural)]
pub enum SurfaceCall {
    /// Put the widget on the layer.
    Put { x: i32, y: i32 },
    /// Move the widget, which is on the layer already.
    Move { x: i32, y: i32 },
    RequestSize { width: i32, height: i32 },
    ResizeWidget,
    ResizeLayer,
    DrawLayer,
    Show,
}

/// The calls that place a widget.
pub open spec fn placing(has_parent: bool, visible: bool, at: Placement) -> Seq<SurfaceCall> {
    let first = if has_parent {
        SurfaceCall::Move { x: at.x, y: at.y }
    } else {
        SurfaceCall::Put { x: at.x, y: at.y }
    };
    let calls = seq![
        first,
        SurfaceCall::RequestSize { width: at.width, height: at.height },
        SurfaceCall::ResizeWidget,
        SurfaceCall::ResizeLayer,
        SurfaceCall::DrawLayer,
    ];
    if visible {
        calls
    } else {
        calls.push(SurfaceCall::Show)
    }
}

/// A step on the way to a layer below the web view.
#[derive(Clone, Copy, Debug, PartialEq, Eq, Structural)]
pub enum HostStep {
    FindWindow,
    /// Make the backing of the web view transparent. Only that: the window
    /// itself stays opaque.
    ClearBackground,
    FindGtkWindow,
    LoadStyle,
    ApplyStyle,
    FindChild,
    RemoveChild,
    AddOpaqueBase,
    AddVideoLayer,
    AddWebView,
    ShowWindow,
}

/// All steps, in order. The web view comes to stand above the video, and
/// the video above an opaque base.
pub open spec fn host_steps() -> Seq<HostStep> {
    seq![
        HostStep::FindWindow,
        HostStep::ClearBackground,
        HostStep::FindGtkWindow,
        HostStep::LoadStyle,
        HostStep::ApplyStyle,
        HostStep::FindChild,
        HostStep::RemoveChild,
        HostStep::AddOpaqueBase,
        HostStep::AddVideoLayer,
        HostStep::AddWebView,
        HostStep::ShowWindow,
    ]
}

/// The failure of a step.
pub open spec fn host_failure(step: HostStep, detail: Seq<char>) -> Failure {
    match step {
        HostStep::FindWindow => Failure::Pipeline("no Tauri webview window is available"@),
        HostStep::FindChild => Failure::Pipeline("Tauri GTK window has no webview child"@),
        _ => Failure::Pipeline(detail),
    }
}

/// Whether the layer is there.
pub struct SurfaceHost {
    pub ready: bool,
}

impl SurfaceHost {
    /// No layer yet.
    pub fn new() -> (host: SurfaceHost)
        ensures
            !host.ready,
    {
        SurfaceHost { ready: false }
    }
}

/// The steps that are still to be taken before the layer is there.
pub fn ensure_host(host: &SurfaceHost) -> (steps: Vec<HostStep>)
    ensures
        steps@ == if host.ready { Seq::empty() } else { host_steps() },
{
    let mut steps: Vec<HostStep> = Vec::new();
    if !host.ready {
        steps.push(HostStep::FindWindow);
        steps.push(HostStep::ClearBackground);
        steps.push(HostStep::FindGtkWindow);
        steps.push(HostStep::LoadStyle);
        steps.push(HostStep::ApplyStyle);
        steps.push(HostStep::FindChild);
        steps.push(HostStep::RemoveChild);
        steps.push(HostStep::AddOpaqueBase);
        steps.push(HostStep::AddVideoLayer);
        steps.push(HostStep::AddWebView);
        steps.push(HostStep::ShowWindow);
    }
    assert(steps@ =~= if host.ready { Seq::empty() } else { host_steps() });
    steps
}

/// Takes note of how a step went. The layer is there after the last one.
pub fn step_taken(host: &mut SurfaceHost, step: HostStep, outcome: Result<(), String>) -> (result: Result<
    (),
    Error,
>)
    ensures
        match outcome {
            Ok(_) => result is Ok,
            Err(detail) => error::fails(result, host_failure(step, detail@)),
        },
        final(host).ready == (old(host).ready || (outcome is Ok && step
            == HostStep::ShowWindow)),
{
    match outcome {
        Ok(_) => {
            if step == HostStep::ShowWindow {
                host.ready = true;
            }
            Ok(())
        },
        Err(detail) => match step {
            HostStep::FindWindow => Err(Error::pipeline("no Tauri webview window is available")),
            HostStep::FindChild => Err(
                Error::pipeline("Tauri GTK window has no webview child"),
            ),
            _ => Err(Error::Pipeline(detail)),
        },
    }
}

/// The calls for a placement were given, or the failure that there is no
/// layer.
pub open spec fn places(
    result: Result<Vec<SurfaceCall>, Error>,
    host: SurfaceHost,
    has_parent: bool,
    visible: bool,
    at: Placement,
) -> bool {
    if host.ready {
        result matches Ok(calls) && calls@ == placing(has_parent, visible, at)
    } else {
        error::fails(result, Failure::Pipeline("native surface host is unavailable"@))
    }
}

/// The calls that place a widget on the layer.
pub fn place_widget(
    host: &SurfaceHost,
    has_parent: bool,
    visible: bool,
    x: Double,
    y: Double,
    width: Double,
    height: Double,
) -> (result: Result<Vec<SurfaceCall>, Error>)
    ensures
        places(result, *host, has_parent, visible, placed(x, y, width, height)),
{
    if !host.ready {
        return Err(Error::pipeline("native surface host is unavailable"));
    }
    let at = placement(x, y, width, height);
    let mut calls: Vec<SurfaceCall> = Vec::new();
    if has_parent {
        calls.push(SurfaceCall::Move { x: at.x, y: at.y });
    } else {
        calls.push(SurfaceCall::Put { x: at.x, y: at.y });
    }
    calls.push(SurfaceCall::RequestSize { width: at.width, height: at.height });
    calls.push(SurfaceCall::ResizeWidget);
    calls.push(SurfaceCall::ResizeLayer);
    calls.push(SurfaceCall::DrawLayer);
    if !visible {
        calls.push(SurfaceCall::Show);
    }
    assert(calls@ =~= placing(has_parent, visible, at));
    Ok(calls)
}

/// A widget stands at the pixels that are nearest to where it was asked to
/// stand, and has the nearest size, but no smaller than a pixel.
pub proof fn widgets_stand_where_asked(x: Double, y: Double, width: Double, height: Double)
    ensures
        ({
            let at = placed(x, y, width, height);
            let one = Double { bits: 0x3ff0_0000_0000_0000 };
            &&& at.x == x.rounded()
            &&& at.y == y.rounded()
            &&& !width.is_nan_spec() && width.rank() >= one.rank() ==> at.width == width.rounded()
            &&& !height.is_nan_spec() && height.rank() >= one.rank() ==> at.height
                == height.rounded()
            &&& width.is_nan_spec() || width.rank() < one.rank() ==> at.width == 1
            &&& height.is_nan_spec() || height.rank() < one.rank() ==> at.height == 1
        }),
{
    double::rounded_numbers_fit(x);
    double::rounded_numbers_fit(y);
    double::rounded_numbers_fit(width);
    double::rounded_numbers_fit(height);
}

/// A widget is put on the layer once, and only moved after that; then it gets
/// its size, and the layer is drawn; a hidden widget is shown last, and a
/// visible one not again.
pub proof fn widgets_are_placed_in_order(has_parent: bool, visible: bool, at: Placement, i: int)
    requires
        0 <= i < placing(has_parent, visible, at).len(),
    ensures
        ({
            let calls = placing(has_parent, visible, at);
            &&& !has_parent ==> calls[0] == SurfaceCall::Put { x: at.x, y: at.y }
            &&& has_parent ==> calls[0] == SurfaceCall::Move { x: at.x, y: at.y }
            &&& calls[1] == SurfaceCall::RequestSize { width: at.width, height: at.height }
            &&& calls[2] == SurfaceCall::ResizeWidget
            &&& calls[3] == SurfaceCall::ResizeLayer
            &&& calls[4] == SurfaceCall::DrawLayer
            &&& calls[i] is Show ==> !visible && i == calls.len() - 1
            &&& !visible ==> calls.last() is Show
            &&& calls[i] is Put || calls[i] is Move ==> i == 0
            &&& calls.len() == if visible {
                5int
            } else {
                6
            }
        }),
{
}

/// The web view is found and taken off the window before anything is added; the
/// base comes to stand below the video, and the video below the web view; the
/// window is shown last.
pub proof fn layers_stand_in_order()
    ensures
        ({
            let steps = host_steps();
            &&& steps.len() == 11
            &&& steps[0] == HostStep::FindWindow
            &&& steps[1] == HostStep::ClearBackground
            &&& steps[2] == HostStep::FindGtkWindow
            &&& steps[3] == HostStep::LoadStyle
            &&& steps[4] == HostStep::ApplyStyle
            &&& steps[5] == HostStep::FindChild
            &&& steps[6] == HostStep::RemoveChild
            &&& steps[7] == HostStep::AddOpaqueBase
            &&& steps[8] == HostStep::AddVideoLayer
            &&& steps[9] == HostStep::AddWebView
            &&& steps[10] == HostStep::ShowWindow
        }),
{
}

/// A step that finds nothing says what is missing; any other that fails says
/// what it was told.
pub proof fn missing_hosts_are_named(step: HostStep, detail: Seq<char>)
    ensures
        host_failure(HostStep::FindWindow, detail) == Failure::Pipeline(
            "no Tauri webview window is available"@,
        ),
        host_failure(HostStep::FindChild, detail) == Failure::Pipeline(
            "Tauri GTK window has no webview child"@,
        ),
        step != HostStep::FindWindow && step != HostStep::FindChild ==> host_failure(step, detail)
            == Failure::Pipeline(detail),
{
}

/// Without a layer nothing is placed, and that is said.
pub proof fn nothing_is_placed_without_a_layer(
    result: Result<Vec<SurfaceCall>, Error>,
    host: SurfaceHost,
    has_parent: bool,
    visible: bool,
    at: Placement,
)
    requires
        places(result, host, has_parent, visible, at),
    ensures
        result is Ok <==> host.ready,
        result matches Err(error) ==> error@ == Failure::Pipeline(
            "native surface host is unavailable"@,
        ),
        result matches Ok(calls) ==> calls@ == placing(has_parent, visible, at),
{
}

} // verus!
