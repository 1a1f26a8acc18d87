//! Decisions of the image input inspection: which directory entries are
//! inspected, and what the probe of one file makes of it.

use vstd::prelude::*;

use crate::text::{ascii_lower, chars_eq_str, chars_of, lower_chars};

verus! {

/// The image extensions a directory expansion picks up.
pub open spec fn supported_image_extension_spec(lowered: Seq<char>) -> bool {
    lowered == "png"@ || lowered == "jpg"@ || lowered == "jpeg"@ || lowered == "webp"@ || lowered == "svg"@
}

/// Whether a directory entry with this extension (any ASCII case) is
/// inspected as an image.
pub fn is_supported_image_extension(extension: &str) -> (b: bool)
    ensures
        b == supported_image_extension_spec(ascii_lower(extension@)),
{
    let e = lower_chars(&chars_of(extension));
    chars_eq_str(&e, "png") || chars_eq_str(&e, "jpg") || chars_eq_str(&e, "jpeg") || chars_eq_str(&e, "webp")
        || chars_eq_str(&e, "svg")
}

/// What probing one image file found.
#[derive(Debug, Clone, Copy, PartialEq, Eq, Structural)]
pub enum ImageProbe {
    /// The file could not be opened or read.
    Unreadable,
    /// Its format could not be recognized, or is not PNG, JPEG or WebP.
    Unsupported,
    /// A raster header that does not decode.
    NotAnImage,
    /// An SVG that does not parse.
    NotAnSvg,
    /// A readable image of this size.
    Measured { width: u32, height: u32 },
}

/// Ready with the image size, or the message shown for an unusable file.
pub open spec fn probe_verdict_spec(p: ImageProbe) -> Result<(u32, u32), Seq<char>> {
    match p {
        ImageProbe::Unreadable => Err("Could not read file"@),
        ImageProbe::Unsupported => Err("Unsupported format"@),
        ImageProbe::NotAnImage => Err("Not a valid image"@),
        ImageProbe::NotAnSvg => Err("Not a valid SVG"@),
        ImageProbe::Measured { width, height } => Ok((width, height)),
    }
}

pub open spec fn verdict_view(r: Result<(u32, u32), String>) -> Result<(u32, u32), Seq<char>> {
    match r {
        Ok(d) => Ok(d),
        Err(m) => Err(m@),
    }
}

/// Turns a probe into the inspection verdict shown in the file list.
pub fn probe_verdict(p: ImageProbe) -> (r: Result<(u32, u32), String>)
    ensures
        verdict_view(r) == probe_verdict_spec(p),
{
    match p {
        ImageProbe::Unreadable => Err("Could not read file".to_owned()),
        ImageProbe::Unsupported => Err("Unsupported format".to_owned()),
        ImageProbe::NotAnImage => Err("Not a valid image".to_owned()),
        ImageProbe::NotAnSvg => Err("Not a valid SVG".to_owned()),
        ImageProbe::Measured { width, height } => Ok((width, height)),
    }
}

} // verus!
