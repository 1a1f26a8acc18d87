//! Resolution of the bundled qpdf executable among candidate locations.

use vstd::prelude::*;

use crate::errors::{ErrorKind, ProcessingError};

verus! {

pub open spec fn engine_unavailable_message() -> Seq<char> {
    "PDF engine is not available"@
}

/// Picks the first candidate that `is_file` accepts; when none does, the PDF
/// engine is unavailable (there is no fallback to an arbitrary executable).
pub fn resolve_from_candidates<F: Fn(&String) -> bool>(candidates: Vec<String>, is_file: F) -> (r: Result<String, ProcessingError>)
    requires
        forall|i: int| 0 <= i < candidates.len() ==> is_file.requires((&candidates@[i],)),
    ensures
        match r {
            Ok(path) => exists|i: int|
                0 <= i < candidates.len() && path == candidates@[i] && is_file.ensures((&candidates@[i],), true)
                    && forall|j: int| 0 <= j < i ==> is_file.ensures((#[trigger] &candidates@[j],), false),
            Err(e) => e.is(ErrorKind::PdfEngineUnavailable, engine_unavailable_message())
                && forall|j: int| 0 <= j < candidates.len() ==> is_file.ensures((#[trigger] &candidates@[j],), false),
        },
{
    let mut i: usize = 0;
    while i < candidates.len()
        invariant
            i <= candidates.len(),
            forall|k: int| 0 <= k < candidates.len() ==> is_file.requires((&candidates@[k],)),
            forall|j: int| 0 <= j < i ==> is_file.ensures((#[trigger] &candidates@[j],), false),
        decreases candidates.len() - i,
    {
        let found = is_file(&candidates[i]);
        if found {
            let path = candidates[i].clone();
            assert(path == candidates@[i as int]);
            return Ok(path);
        }
        i = i + 1;
    }
    Err(ProcessingError::pdf_engine_unavailable("PDF engine is not available"))
}

} // verus!
