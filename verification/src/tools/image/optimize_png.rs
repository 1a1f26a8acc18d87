//! Lossless PNG optimization with oxipng.

use vstd::prelude::*;

use crate::errors::{ErrorKind, ProcessingError};
use crate::models::{png_preset, PngOptimizationLevel};
use crate::text::{push_str, string_of};
use crate::tools::image::MAX_PIXELS;

verus! {

#[verifier::external_type_specification]
#[verifier::external_body]
pub struct ExPngError(oxipng::PngError);

/// What `oxipng::optimize_from_memory` gives for `data` under
/// `Options::from_preset(preset)` with `max_decompressed_size =
/// Some(max_decompressed)`: the optimized bytes, or `None` when it fails.
pub uninterp spec fn oxipng_output(data: Seq<u8>, preset: u8, max_decompressed: usize) -> Option<Seq<u8>>;

/// `oxipng::optimize_from_memory` with `Options::from_preset(preset)` and
/// `max_decompressed_size = Some(max_decompressed)`. The presets leave
/// `timeout` and `force` off, so the outcome is a function of the three
/// arguments, named `oxipng_output`. The source returns the input unchanged
/// whenever its best attempt is not smaller, so a success is either
/// strictly smaller or the very input. Which bytes a smaller success holds
/// is left to the name.
#[verifier::external_body]
fn oxipng_optimize(data: &[u8], preset: u8, max_decompressed: usize) -> (r: Result<Vec<u8>, oxipng::PngError>)
    ensures
        r matches Ok(out) ==> oxipng_output(data@, preset, max_decompressed) == Some(out@),
        r matches Ok(out) ==> (out@.len() < data@.len() || out@ == data@),
        r is Err ==> oxipng_output(data@, preset, max_decompressed) is None,
{
    let mut options = oxipng::Options::from_preset(preset);
    options.max_decompressed_size = Some(max_decompressed);
    oxipng::optimize_from_memory(data, &options)
}

/// The `Display` text of an `oxipng::PngError`.
#[verifier::external_body]
fn png_error_text(error: &oxipng::PngError) -> (s: String)
{
    format!("{error}")
}

/// `out` is strictly smaller than `input`, or is `input` itself.
pub open spec fn never_larger(input: Seq<u8>, out: Seq<u8>) -> bool {
    out.len() < input.len() || out == input
}

/// The byte budget for decompressed image data: four bytes per pixel of
/// the largest accepted image.
pub open spec fn max_decompressed_bytes() -> int {
    MAX_PIXELS * 4
}

/// Optimizes PNG bytes losslessly at `level`: oxipng at the level's preset
/// with the decompression budget of the largest accepted image. The result
/// is never larger than the input; a failure is an encode failure whose
/// message starts with `PNG optimization failed: `.
pub fn optimize(data: &[u8], level: PngOptimizationLevel) -> (r: Result<Vec<u8>, ProcessingError>)
    ensures
        r matches Ok(out) ==> oxipng_output(data@, png_preset(level), 256_000_000usize) == Some(out@),
        r matches Ok(out) ==> never_larger(data@, out@),
        r is Err <==> oxipng_output(data@, png_preset(level), 256_000_000usize) is None,
        r matches Err(e) ==> (e.kind() == ErrorKind::EncodeFailed
            && e.message_view().take(25) == "PNG optimization failed: "@),
{
    let budget: usize = 256_000_000;
    assert(budget == max_decompressed_bytes());
    match oxipng_optimize(data, level.preset(), budget) {
        Ok(out) => Ok(out),
        Err(error) => {
            let mut m: Vec<char> = Vec::new();
            push_str(&mut m, "PNG optimization failed: ");
            let ghost prefix = m@;
            let detail = png_error_text(&error);
            push_str(&mut m, detail.as_str());
            proof {
                reveal_strlit("PNG optimization failed: ");
                assert(m@.take(25) =~= prefix);
            }
            Err(ProcessingError::new(ErrorKind::EncodeFailed, string_of(&m)))
        },
    }
}

/// Optimizing twice never grows the file beyond the first pass.
pub proof fn law_reoptimizing_never_grows(input: Seq<u8>, once: Seq<u8>, twice: Seq<u8>)
    requires
        never_larger(input, once),
        never_larger(once, twice),
    ensures
        twice.len() <= once.len() <= input.len(),
{
}

} // verus!
