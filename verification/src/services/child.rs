//! How an external engine run ended, as its runner observed it.

use vstd::prelude::*;

use crate::errors::{ErrorKind, ProcessingError};
use crate::text::{push_str, string_of};

verus! {

/// The end of a child process run. The runner polls for cancellation while
/// the child runs and kills it when cancellation is requested.
#[derive(Debug, Clone)]
pub enum ChildRun {
    /// The executable could not be started.
    StartFailed,
    /// Cancellation was requested while the child ran; it was killed.
    Canceled,
    /// The child's status could not be read (the text of the I/O error).
    StatusUnreadable(String),
    /// The child exited; `code` is `None` when a signal ended it.
    Exited { success: bool, code: Option<i32> },
}

pub open spec fn finalize_message(path: Seq<char>, detail: Seq<char>) -> Seq<char> {
    "Could not finalize output '"@ + path + "': "@ + detail
}

/// The failure to move a validated partial output to its final path
/// (`path` as displayed, `detail` the I/O error's text).
pub fn finalize_failure(path: &str, detail: &str) -> (e: ProcessingError)
    ensures
        e.is(ErrorKind::WriteFailed, finalize_message(path@, detail@)),
{
    let mut m: Vec<char> = Vec::new();
    push_str(&mut m, "Could not finalize output '");
    push_str(&mut m, path);
    push_str(&mut m, "': ");
    push_str(&mut m, detail);
    ProcessingError::new(ErrorKind::WriteFailed, string_of(&m))
}

/// `prefix` followed by `detail`, as an error of `kind`.
pub fn prefixed_failure(kind: ErrorKind, prefix: &str, detail: &str) -> (e: ProcessingError)
    ensures
        e.is(kind, prefix@ + detail@),
{
    let mut m: Vec<char> = Vec::new();
    push_str(&mut m, prefix);
    push_str(&mut m, detail);
    ProcessingError::new(kind, string_of(&m))
}

/// The stderr lines kept for a failure message: the last ones, at most
/// this many.
pub const STDERR_TAIL_LINES: usize = 10;

/// The kept tail after one more stderr line: when the tail already holds
/// `cap` lines or more, its oldest line leaves first.
pub open spec fn next_tail(tail: Seq<String>, line: String, cap: usize) -> Seq<String> {
    if tail.len() >= cap && tail.len() > 0 { tail.drop_first().push(line) } else { tail.push(line) }
}

/// Keeps `line` in the stderr tail, dropping the oldest line when the tail
/// is full.
pub fn push_tail_line(tail: &mut Vec<String>, line: String, cap: usize)
    ensures
        final(tail)@ == next_tail(old(tail)@, line, cap),
        old(tail).len() <= cap && cap > 0 ==> final(tail).len() <= cap,
{
    if tail.len() >= cap && tail.len() > 0 {
        tail.remove(0);
        assert(tail@ =~= old(tail)@.drop_first());
    }
    tail.push(line);
}

/// What kind of I/O failure a read of a source file met.
#[derive(Debug, Clone, Copy, PartialEq, Eq, Structural)]
pub enum ReadFailure {
    PermissionDenied,
    NotFound,
    Other,
}

pub open spec fn source_read_spec(failure: ReadFailure, path: Seq<char>, detail: Seq<char>) -> (ErrorKind, Seq<char>) {
    match failure {
        ReadFailure::PermissionDenied => (ErrorKind::PermissionDenied, "Permission denied reading '"@ + path + "': "@ + detail),
        _ => (ErrorKind::FileNotFound, "Could not read source file '"@ + path + "': "@ + detail),
    }
}

/// The error for a source whose metadata could not be read: a permission
/// failure, or the file counts as not found.
pub fn source_read_error(failure: ReadFailure, path: &str, detail: &str) -> (e: ProcessingError)
    ensures
        e.is(source_read_spec(failure, path@, detail@).0, source_read_spec(failure, path@, detail@).1),
{
    let mut m: Vec<char> = Vec::new();
    let kind = match failure {
        ReadFailure::PermissionDenied => {
            push_str(&mut m, "Permission denied reading '");
            ErrorKind::PermissionDenied
        },
        _ => {
            push_str(&mut m, "Could not read source file '");
            ErrorKind::FileNotFound
        },
    };
    push_str(&mut m, path);
    push_str(&mut m, "': ");
    push_str(&mut m, detail);
    ProcessingError::new(kind, string_of(&m))
}

pub open spec fn svg_read_spec(failure: ReadFailure, path: Seq<char>, detail: Seq<char>) -> (ErrorKind, Seq<char>) {
    match failure {
        ReadFailure::Other => (ErrorKind::InvalidImage, "Could not read SVG file '"@ + path + "': "@ + detail),
        _ => source_read_spec(failure, path, detail),
    }
}

/// The error for an SVG source that could not be read: like any source for
/// permission and absence, otherwise an invalid image.
pub fn svg_read_error(failure: ReadFailure, path: &str, detail: &str) -> (e: ProcessingError)
    ensures
        e.is(svg_read_spec(failure, path@, detail@).0, svg_read_spec(failure, path@, detail@).1),
{
    match failure {
        ReadFailure::Other => {
            let mut m: Vec<char> = Vec::new();
            push_str(&mut m, "Could not read SVG file '");
            push_str(&mut m, path);
            push_str(&mut m, "': ");
            push_str(&mut m, detail);
            ProcessingError::new(ErrorKind::InvalidImage, string_of(&m))
        },
        _ => source_read_error(failure, path, detail),
    }
}

} // verus!
