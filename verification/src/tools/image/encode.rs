//! Quality rules of the lossy encoders.

use vstd::prelude::*;

verus! {

/// The quality used when a request names none.
pub const DEFAULT_QUALITY: u8 = 82;

pub open spec fn clamp_spec(q: int) -> int {
    if q < 1 { 1 } else if q > 100 { 100 } else { q }
}

/// `quality.clamp(1, 100)`.
pub fn clamp_quality(quality: u8) -> (q: u8)
    ensures
        q == clamp_spec(quality as int),
{
    if quality < 1 {
        1
    } else if quality > 100 {
        100
    } else {
        quality
    }
}

/// The JPEG and WebP quality: the requested value, or 82, clamped to
/// `1..=100`. PNG ignores it.
pub fn effective_quality(quality: Option<u8>) -> (q: u8)
    ensures
        q == clamp_spec(match quality { Some(v) => v as int, None => 82 }),
        1 <= q <= 100,
{
    let requested = match quality {
        Some(v) => v,
        None => DEFAULT_QUALITY,
    };
    clamp_quality(requested)
}

} // verus!
