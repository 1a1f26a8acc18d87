//! Target dimensions of a resize request.

use vstd::prelude::*;

use crate::errors::{ErrorKind, ProcessingError};
use crate::models::ResizeOptions;

verus! {

/// `v` scaled by `percentage`%, rounded half up, clamped to `1..=u32::MAX`.
pub open spec fn scaled_spec(v: u32, percentage: u32) -> u32 {
    let exact = (v * percentage + 50) / 100;
    if exact < 1 {
        1
    } else if exact > u32::MAX {
        u32::MAX
    } else {
        exact as u32
    }
}

pub open spec fn zero_dimensions_message() -> Seq<char> {
    "Width and height must be greater than zero"@
}

pub open spec fn zero_percentage_message() -> Seq<char> {
    "Scale percentage must be greater than zero"@
}

/// The target size of a request: none for `Original`, the exact pair for
/// `Dimensions` (the aspect lock is applied by the frontend), both axes
/// scaled for `Percentage`.
pub open spec fn target_size_spec(original: (u32, u32), opts: ResizeOptions) -> Result<Option<(u32, u32)>, (ErrorKind, Seq<char>)> {
    match opts {
        ResizeOptions::Original => Ok(None),
        ResizeOptions::Dimensions { width, height, .. } => if width == 0 || height == 0 {
            Err((ErrorKind::InvalidDimensions, zero_dimensions_message()))
        } else {
            Ok(Some((width, height)))
        },
        ResizeOptions::Percentage { percentage } => if percentage == 0 {
            Err((ErrorKind::InvalidDimensions, zero_percentage_message()))
        } else {
            Ok(Some((scaled_spec(original.0, percentage), scaled_spec(original.1, percentage))))
        },
    }
}

pub open spec fn size_result_view(r: Result<Option<(u32, u32)>, ProcessingError>) -> Result<Option<(u32, u32)>, (ErrorKind, Seq<char>)> {
    match r {
        Ok(t) => Ok(t),
        Err(e) => Err((e.kind(), e.message_view())),
    }
}

fn scale_axis(v: u32, percentage: u32) -> (r: u32)
    ensures
        r == scaled_spec(v, percentage),
{
    let v64: u64 = v as u64;
    let p64: u64 = percentage as u64;
    assert(v64 * p64 <= 0xffff_fffe_0000_0001u64) by (nonlinear_arith)
        requires
            v64 <= 0xffff_ffffu64,
            p64 <= 0xffff_ffffu64,
    ;
    let exact: u64 = (v64 * p64 + 50) / 100;
    if exact < 1 {
        1
    } else if exact > 0xffff_ffffu64 {
        0xffff_ffffu32
    } else {
        exact as u32
    }
}

/// Computes the target dimensions for a resize request; `Ok(None)` when no
/// resize applies.
pub fn target_size(original: (u32, u32), opts: &ResizeOptions) -> (r: Result<Option<(u32, u32)>, ProcessingError>)
    ensures
        size_result_view(r) == target_size_spec(original, *opts),
{
    match opts {
        ResizeOptions::Original => Ok(None),
        ResizeOptions::Dimensions { width, height, .. } => {
            if *width == 0 || *height == 0 {
                Err(ProcessingError::invalid_dimensions("Width and height must be greater than zero"))
            } else {
                Ok(Some((*width, *height)))
            }
        },
        ResizeOptions::Percentage { percentage } => {
            if *percentage == 0 {
                Err(ProcessingError::invalid_dimensions("Scale percentage must be greater than zero"))
            } else {
                let (width, height) = original;
                Ok(Some((scale_axis(width, *percentage), scale_axis(height, *percentage))))
            }
        },
    }
}

/// The resize an image of size `original` undergoes: the target size, or
/// `None` when no resize applies or the target equals the current size.
pub open spec fn resize_plan_spec(original: (u32, u32), opts: ResizeOptions) -> Result<Option<(u32, u32)>, (ErrorKind, Seq<char>)> {
    match target_size_spec(original, opts) {
        Ok(Some(t)) => if t == original { Ok(None) } else { Ok(Some(t)) },
        other => other,
    }
}

/// Decides whether and to what size an image is resampled.
pub fn resize_plan(original: (u32, u32), opts: &ResizeOptions) -> (r: Result<Option<(u32, u32)>, ProcessingError>)
    ensures
        size_result_view(r) == resize_plan_spec(original, *opts),
{
    match target_size(original, opts) {
        Ok(Some((w, h))) => {
            if w == original.0 && h == original.1 {
                Ok(None)
            } else {
                Ok(Some((w, h)))
            }
        },
        other => other,
    }
}

/// Exact dimensions are applied as given: for positive sides the target is
/// the requested width and height, in that order, whatever the image's size
/// and the aspect lock (which the frontend has already applied), and the
/// image is resampled unless it already has that size.
pub proof fn law_exact_dimensions_are_kept(
    original: (u32, u32),
    other: (u32, u32),
    width: u32,
    height: u32,
    lock_aspect_ratio: bool,
)
    requires
        width > 0,
        height > 0,
    ensures
        target_size_spec(original, ResizeOptions::Dimensions { width, height, lock_aspect_ratio }) matches Ok(Some(t))
            && t.0 == width && t.1 == height,
        target_size_spec(original, ResizeOptions::Dimensions { width, height, lock_aspect_ratio })
            == target_size_spec(other, ResizeOptions::Dimensions { width, height, lock_aspect_ratio: !lock_aspect_ratio }),
        resize_plan_spec(original, ResizeOptions::Dimensions { width, height, lock_aspect_ratio }) is Ok,
        (resize_plan_spec(original, ResizeOptions::Dimensions { width, height, lock_aspect_ratio }) matches Ok(None))
            <==> original == (width, height),
{
}

/// A percentage resize never produces a side below one pixel.
pub proof fn law_percentage_never_below_one_pixel(original: (u32, u32), percentage: u32)
    requires
        percentage > 0,
    ensures
        target_size_spec(original, ResizeOptions::Percentage { percentage }) matches Ok(Some((w, h))) && w >= 1 && h >= 1,
{
}

/// Scaling by 100% keeps every non-empty size.
pub proof fn law_full_scale_keeps_size(original: (u32, u32))
    requires
        original.0 >= 1,
        original.1 >= 1,
    ensures
        target_size_spec(original, ResizeOptions::Percentage { percentage: 100 }) == Ok::<Option<(u32, u32)>, (ErrorKind, Seq<char>)>(Some(original)),
        resize_plan_spec(original, ResizeOptions::Percentage { percentage: 100 }) == Ok::<Option<(u32, u32)>, (ErrorKind, Seq<char>)>(None),
{
    assert((original.0 * 100u32 + 50) / 100 == original.0 as int) by (nonlinear_arith)
        requires original.0 >= 1;
    assert((original.1 * 100u32 + 50) / 100 == original.1 as int) by (nonlinear_arith)
        requires original.1 >= 1;
}

/// Within the clamp, a scaled side is the whole pixel count nearest to the
/// exact product, ties rounding up.
pub proof fn law_percentage_is_nearest(v: u32, percentage: u32)
    requires
        percentage > 0,
        1 <= (v * percentage + 50) / 100 <= u32::MAX,
    ensures
        100 * scaled_spec(v, percentage) - 50 <= v * percentage < 100 * scaled_spec(v, percentage) + 50,
{
    let exact = (v * percentage + 50) / 100;
    assert(100 * exact <= v * percentage + 50 < 100 * exact + 100) by (nonlinear_arith)
        requires exact == (v * percentage + 50) / 100, v * percentage >= 0;
}

} // verus!
