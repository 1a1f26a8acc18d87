//! The size guard applied to SVG render targets.

use vstd::prelude::*;

use crate::errors::{ErrorKind, ProcessingError};
use crate::tools::image::decode::{fits_limits, too_large_message, too_large_text, within_limits};

verus! {

pub open spec fn zero_size_message() -> Seq<char> {
    "SVG dimensions must be greater than zero"@
}

/// Rejects empty render targets, then targets beyond the decode limits.
pub fn check_size(width: u32, height: u32) -> (r: Result<(), ProcessingError>)
    ensures
        width == 0 || height == 0 ==> (r matches Err(e) && e.is(ErrorKind::InvalidImage, zero_size_message())),
        width > 0 && height > 0 && !within_limits(width, height) ==> (r matches Err(e)
            && e.is(ErrorKind::InvalidImage, too_large_message(width, height))),
        width > 0 && height > 0 && within_limits(width, height) ==> r is Ok,
{
    if width == 0 || height == 0 {
        return Err(ProcessingError::invalid_image("SVG dimensions must be greater than zero"));
    }
    if !fits_limits(width, height) {
        return Err(ProcessingError::new(ErrorKind::InvalidImage, too_large_text(width, height)));
    }
    Ok(())
}

} // verus!
