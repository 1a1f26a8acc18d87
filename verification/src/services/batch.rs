//! Per-file results and batch accounting. One file's failure never aborts a
//! batch: it is recorded in its `FileResult` and counted as failed.

use vstd::prelude::*;

use crate::errors::{code_of, ProcessingError, ProcessingErrorDto};
use crate::models::{BatchResult, FileResult, FileWarning};

verus! {

/// The number of successful items.
pub open spec fn count_succeeded(items: Seq<FileResult>) -> nat
    decreases items.len(),
{
    if items.len() == 0 {
        0
    } else {
        count_succeeded(items.drop_last()) + if items.last().success { 1nat } else { 0nat }
    }
}

pub proof fn lemma_count_succeeded_bound(items: Seq<FileResult>)
    ensures
        count_succeeded(items) <= items.len(),
    decreases items.len(),
{
    if items.len() > 0 {
        lemma_count_succeeded_bound(items.drop_last());
    }
}

/// Counts the successful items.
pub fn succeeded_count(items: &Vec<FileResult>) -> (n: usize)
    ensures
        n as nat == count_succeeded(items@),
        n <= items.len(),
{
    let mut n: usize = 0;
    let mut i: usize = 0;
    while i < items.len()
        invariant
            i <= items.len(),
            n as nat == count_succeeded(items@.take(i as int)),
            n <= i,
        decreases items.len() - i,
    {
        assert(items@.take(i + 1).drop_last() =~= items@.take(i as int));
        if items[i].success {
            n = n + 1;
        }
        i = i + 1;
    }
    assert(items@.take(items.len() as int) =~= items@);
    n
}

/// The batch summary of `items`: every item is counted once, as succeeded or
/// failed.
pub open spec fn summarizes(result: BatchResult, items: Seq<FileResult>) -> bool {
    &&& result.items@ == items
    &&& result.total as nat == items.len()
    &&& result.succeeded as nat == count_succeeded(items)
    &&& result.failed as nat == items.len() - count_succeeded(items)
}

/// Summarizes processed items into a `BatchResult`.
pub fn summarize(items: Vec<FileResult>) -> (result: BatchResult)
    requires
        items.len() <= u32::MAX,
    ensures
        summarizes(result, items@),
{
    let succeeded = succeeded_count(&items);
    let total = items.len();
    BatchResult {
        total: total as u32,
        succeeded: succeeded as u32,
        failed: (total - succeeded) as u32,
        items,
    }
}

/// A successful file result.
pub fn success_result(
    source_path: String,
    output_path: String,
    original_size: u64,
    output_size: u64,
    warnings: Option<Vec<FileWarning>>,
) -> (r: FileResult)
    ensures
        r.success,
        r.source_path == source_path,
        r.output_path == Some(output_path),
        r.original_size == original_size,
        r.output_size == Some(output_size),
        r.error.is_none(),
        r.warnings == warnings,
{
    FileResult {
        source_path,
        output_path: Some(output_path),
        success: true,
        original_size,
        output_size: Some(output_size),
        error: None,
        warnings,
    }
}

/// A failed file result carrying the error's code and message.
pub fn failure_result(source_path: String, original_size: u64, error: ProcessingError) -> (r: FileResult)
    ensures
        !r.success,
        r.source_path == source_path,
        r.output_path.is_none(),
        r.original_size == original_size,
        r.output_size.is_none(),
        r.error matches Some(dto) && dto.code@ == code_of(error.kind()) && dto.message@ == error.message_view()
            && dto.detail.is_none(),
        r.warnings.is_none(),
{
    FileResult {
        source_path,
        output_path: None,
        success: false,
        original_size,
        output_size: None,
        error: Some(error.into_dto()),
        warnings: None,
    }
}

/// The result of a file stopped by batch cancellation.
pub fn canceled_result(source_path: String, original_size: u64) -> (r: FileResult)
    ensures
        !r.success,
        r.source_path == source_path,
        r.output_path.is_none(),
        r.original_size == original_size,
        r.output_size.is_none(),
        r.error matches Some(dto) && dto.code@ == crate::errors::canceled_code(),
        r.warnings.is_none(),
{
    FileResult {
        source_path,
        output_path: None,
        success: false,
        original_size,
        output_size: None,
        error: Some(ProcessingErrorDto::canceled()),
        warnings: None,
    }
}

/// Processes files sequentially with one-by-one progress reporting, invoking
/// `on_progress(completed, total, path)` after each file. `process` is
/// expected to capture its own failures in the returned `FileResult`.
pub fn run_sequential_batch<F, P>(files: &Vec<String>, process: F, on_progress: P) -> (r: Result<
    BatchResult,
    ProcessingError,
>)
    where
        F: Fn(&String) -> FileResult,
        P: Fn(u32, u32, &String),
    requires
        files.len() <= u32::MAX,
        forall|i: int| 0 <= i < files.len() ==> call_requires(process, (&files@[i],)),
        forall|a: u32, b: u32, s: &String| call_requires(on_progress, (a, b, s)),
    ensures
        r matches Ok(result) && result.items.len() == files.len() && summarizes(result, result.items@)
            && forall|i: int| 0 <= i < files.len() ==> call_ensures(process, (&files@[i],), #[trigger] result.items@[i]),
{
    let total = files.len();
    let mut items: Vec<FileResult> = Vec::new();
    let mut index: usize = 0;
    while index < total
        invariant
            total == files.len() <= u32::MAX,
            index <= total,
            items.len() == index,
            forall|i: int| 0 <= i < files.len() ==> call_requires(process, (&files@[i],)),
            forall|a: u32, b: u32, s: &String| call_requires(on_progress, (a, b, s)),
            forall|i: int| 0 <= i < index ==> call_ensures(process, (&files@[i],), #[trigger] items@[i]),
        decreases total - index,
    {
        let result = process(&files[index]);
        on_progress((index + 1) as u32, total as u32, &files[index]);
        items.push(result);
        index = index + 1;
    }
    Ok(summarize(items))
}

/// At most this many files are processed at once by the parallel batch.
pub const MAX_WORKER_THREADS: usize = 4;

/// The worker count of the parallel batch: the machine's available
/// parallelism (one when unknown), at most four.
pub fn worker_count(available: Option<usize>) -> (n: usize)
    ensures
        n == (match available {
            Some(a) => if a < MAX_WORKER_THREADS { a } else { MAX_WORKER_THREADS },
            None => 1,
        }),
{
    let a = match available {
        Some(a) => a,
        None => 1,
    };
    if a < MAX_WORKER_THREADS { a } else { MAX_WORKER_THREADS }
}

/// Every summarized batch accounts for each item exactly once.
pub proof fn law_summary_counts_every_item(result: BatchResult, items: Seq<FileResult>)
    requires
        summarizes(result, items),
    ensures
        result.succeeded + result.failed == result.total,
        result.total as nat == result.items@.len(),
{
    lemma_count_succeeded_bound(items);
}

/// An empty batch reports zero files, zero successes and zero failures.
pub proof fn law_empty_batch_is_empty(result: BatchResult)
    requires
        summarizes(result, Seq::empty()),
    ensures
        result.total == 0,
        result.succeeded == 0,
        result.failed == 0,
        result.items@.len() == 0,
{
}

} // verus!
