//! The textures that frames are copied to.
use crate::desktop::windows::texture_stream;
use crate::desktop::windows::texture_stream::texture_error;
use crate::error;
use crate::error::Error;
use crate::error::Failure;
use crate::text;
use vstd::prelude::*;

verus! {

/// A texture of the web view, and the resource behind it.
#[derive(Debug)]
pub struct DrawTarget<T, R> {
    pub texture: T,
    pub resource: R,
}

/// The number by which the graphics system knows the format of video
/// textures, NV12.
pub const NV12: i32 = 103;

/// What was found behind a texture.
#[derive(Debug)]
pub enum Found<R> {
    /// The resource could not be had.
    NoResource(String),
    /// The resource could not be described.
    NoDescription(String),
    Resource {
        resource: R,
        format: i32,
        /// The format in words.
        format_text: String,
    },
}

/// Why a texture cannot be drawn to; `None` when it can.
pub open spec fn target_failure<R>(found: Found<R>) -> Option<Failure> {
    match found {
        Found::NoResource(detail) => Some(
            texture_stream::texture_failure("get a WebView2 video texture resource"@, detail@),
        ),
        Found::NoDescription(detail) => Some(
            texture_stream::texture_failure("inspect a WebView2 video texture"@, detail@),
        ),
        Found::Resource { format, format_text, .. } => if format == NV12 {
            None
        } else {
            Some(
                Failure::Pipeline(
                    "WebView2 created unsupported video texture format "@ + format_text@,
                ),
            )
        },
    }
}

/// Makes a target of a texture, when it has the format of video.
pub fn draw_target<T, R>(texture: T, found: Found<R>) -> (result: Result<DrawTarget<T, R>, Error>)
    ensures
        match target_failure(found) {
            Some(failure) => error::fails(result, failure),
            None => result == Ok::<DrawTarget<T, R>, Error>(
                DrawTarget { texture, resource: found->resource },
            ),
        },
{
    match found {
        Found::NoResource(detail) => Err(
            texture_error("get a WebView2 video texture resource", detail.as_str()),
        ),
        Found::NoDescription(detail) => Err(
            texture_error("inspect a WebView2 video texture", detail.as_str()),
        ),
        Found::Resource { resource, format, format_text } => if format == NV12 {
            Ok(DrawTarget { texture, resource })
        } else {
            Err(
                Error::Pipeline(
                    text::join(
                        "WebView2 created unsupported video texture format ",
                        format_text.as_str(),
                    ),
                ),
            )
        },
    }
}

/// What becomes of a texture that the web view has given back.
#[derive(Debug)]
pub enum Reclaimed<T, R> {
    /// It is free again.
    Kept,
    /// It has another size than frames have now, and is to be closed.
    Close(DrawTarget<T, R>),
    /// It cannot be drawn to.
    Failed(Error),
}

/// Takes back a texture when it has the size that frames have now.
pub fn reclaim_available<T, R>(
    free: &mut Vec<DrawTarget<T, R>>,
    expected: Option<(u32, u32)>,
    target: Result<DrawTarget<T, R>, Error>,
    actual: Option<(u32, u32)>,
) -> (reclaimed: Reclaimed<T, R>)
    ensures
        match target {
            Err(error) => reclaimed == Reclaimed::<T, R>::Failed(error)
                && final(free)@ == old(free)@,
            Ok(target) => if actual == expected {
                reclaimed == Reclaimed::<T, R>::Kept && final(free)@ == old(free)@.push(target)
            } else {
                reclaimed == Reclaimed::Close(target) && final(free)@ == old(free)@
            },
        },
{
    match target {
        Err(error) => Reclaimed::Failed(error),
        Ok(target) => {
            if same_size(actual, expected) {
                free.push(target);
                Reclaimed::Kept
            } else {
                Reclaimed::Close(target)
            }
        },
    }
}

/// Whether two sizes are the same, or both are unknown.
pub fn same_size(a: Option<(u32, u32)>, b: Option<(u32, u32)>) -> (same: bool)
    ensures
        same == (a == b),
{
    match (a, b) {
        (None, None) => true,
        (Some((width, height)), Some((other_width, other_height))) => width == other_width
            && height == other_height,
        _ => false,
    }
}

/// A texture can be drawn to exactly when its resource was found and has the
/// format of video; otherwise it is said what was in the way.
pub proof fn only_video_textures_are_drawn_to<R>(found: Found<R>)
    ensures
        target_failure(found) is None <==> found is Resource && found->format == 103,
        found matches Found::NoResource(detail) ==> target_failure(found) == Some(
            Failure::Pipeline("failed to "@ + "get a WebView2 video texture resource"@ + ": "@ + detail@),
        ),
        found matches Found::NoDescription(detail) ==> target_failure(found) == Some(
            Failure::Pipeline("failed to "@ + "inspect a WebView2 video texture"@ + ": "@ + detail@),
        ),
        found is Resource && found->format != 103 ==> target_failure(found) == Some(
            Failure::Pipeline(
                "WebView2 created unsupported video texture format "@ + found->format_text@,
            ),
        ),
{
}

} // verus!
