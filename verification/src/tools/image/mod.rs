//! Image tools: size guards, resize arithmetic, quality rules, lossless PNG
//! optimization, the logo pack and the palette sheet.

use vstd::prelude::*;

use crate::text::{ascii_lower, chars_eq_str, chars_of, lower_chars};

pub mod decode;
pub mod encode;
pub mod logo_pack;
pub mod optimize_png;
pub mod palette;
pub mod resize;
pub mod svg;

verus! {

/// Largest accepted side of a decoded or rendered image.
pub const MAX_DIMENSION: u32 = 16_384;

/// Largest accepted pixel count of a decoded or rendered image.
pub const MAX_PIXELS: u64 = 64_000_000;

/// The extension names an SVG source (any ASCII case).
pub open spec fn is_svg_spec(extension: Option<Seq<char>>) -> bool {
    extension matches Some(e) && ascii_lower(e) == "svg"@
}

pub open spec fn opt_str(extension: Option<&str>) -> Option<Seq<char>> {
    match extension {
        Some(e) => Some(e@),
        None => None,
    }
}

/// Whether a source with this extension is handled as SVG.
pub fn is_svg_extension(extension: Option<&str>) -> (b: bool)
    ensures
        b == is_svg_spec(opt_str(extension)),
{
    match extension {
        Some(e) => {
            let lowered = lower_chars(&chars_of(e));
            chars_eq_str(&lowered, "svg")
        },
        None => false,
    }
}

} // verus!
