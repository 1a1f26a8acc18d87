//! Decisions of the video batch: FFmpeg progress interpretation, failure
//! messages, omitted-stream warnings, job cancellation and batch accounting.
//! The driver that spawns FFmpeg and moves files feeds this state machine.

use vstd::prelude::*;

use crate::errors::{ErrorKind, ProcessingError};
use crate::models::{FileResult, FileWarning, VideoBatchResult, VideoBatchStatus};
use crate::services::batch::{
    canceled_result, count_succeeded, failure_result, lemma_count_succeeded_bound, succeeded_count,
    success_result,
};
use crate::services::jobs::{cancel_requested_spec, cancel_spec, JobRegistry, JobState};
use crate::text::{
    chars_eq_str, chars_of, dec_signed, find_char, join, join_strings, parse_i64, parse_i64_spec,
    push_all, push_dec_signed, push_str, slice_chars, string_of, trim, trim_chars, views,
};

use super::probe::ProbedVideo;
use crate::services::child::{finalize_failure, finalize_message, prefixed_failure, ChildRun};

verus! {

// ---------------------------------------------------------------------------
// Job registry
// ---------------------------------------------------------------------------

pub fn register_job(jobs: &mut JobRegistry, job_id: &str)
    ensures
        final(jobs).view() == old(jobs).view().insert(job_id@, JobState::Running),
{
    jobs.register(job_id);
}

pub fn unregister_job(jobs: &mut JobRegistry, job_id: &str)
    ensures
        final(jobs).view() == old(jobs).view().remove(job_id@),
{
    jobs.unregister(job_id);
}

/// Flips a running job into the cancel-requested state.
/// Returns `false` when the job is unknown or already canceling.
pub fn cancel_job(jobs: &mut JobRegistry, job_id: &str) -> (flipped: bool)
    ensures
        (flipped, final(jobs).view()) == cancel_spec(old(jobs).view(), job_id@),
{
    jobs.cancel(job_id)
}

pub fn is_cancel_requested(jobs: &JobRegistry, job_id: &str) -> (b: bool)
    ensures
        b == cancel_requested_spec(jobs.view(), job_id@),
{
    jobs.is_cancel_requested(job_id)
}

// ---------------------------------------------------------------------------
// Progress lines
// ---------------------------------------------------------------------------

/// One `-progress pipe:1` sample from FFmpeg's stdout. The output time is in
/// microseconds.
#[derive(Debug, Clone, Copy, PartialEq, Eq, Structural)]
pub struct ProgressSample {
    pub out_time_micros: Option<i64>,
    pub finished: bool,
}

/// The sample a key=value progress line carries: `out_time_us` and
/// `out_time_ms` (both reported in microseconds) give the output time,
/// `progress` gives the end marker; other keys, lines without `=` and
/// unparsable times carry none. Surrounding whitespace is ignored.
pub open spec fn progress_sample_spec(line: Seq<char>) -> Option<ProgressSample> {
    let t = trim(line);
    match t.index_of_first('=') {
        None => None,
        Some(k) => {
            let key = trim(t.take(k));
            let value = trim(t.skip(k + 1));
            if key == "out_time_us"@ || key == "out_time_ms"@ {
                match parse_i64_spec(value) {
                    Some(micros) => Some(ProgressSample { out_time_micros: Some(micros), finished: false }),
                    None => None,
                }
            } else if key == "progress"@ {
                Some(ProgressSample { out_time_micros: None, finished: value == "end"@ })
            } else {
                None
            }
        },
    }
}

/// Parses a single key=value progress line.
pub fn parse_progress_line(line: &str) -> (r: Option<ProgressSample>)
    ensures
        r == progress_sample_spec(line@),
{
    let raw = chars_of(line);
    let t = trim_chars(&raw);
    let k = match find_char(&t, '=') {
        Some(k) => k,
        None => return None,
    };
    let key_raw = slice_chars(&t, 0, k);
    let key = trim_chars(&key_raw);
    let value_raw = slice_chars(&t, k + 1, t.len());
    let value = trim_chars(&value_raw);
    proof {
        assert(key_raw@ =~= t@.take(k as int));
        assert(value_raw@ =~= t@.skip(k + 1));
    }
    if chars_eq_str(&key, "out_time_us") || chars_eq_str(&key, "out_time_ms") {
        match parse_i64(&value) {
            Some(micros) => Some(ProgressSample { out_time_micros: Some(micros), finished: false }),
            None => None,
        }
    } else if chars_eq_str(&key, "progress") {
        Some(ProgressSample { out_time_micros: None, finished: chars_eq_str(&value, "end") })
    } else {
        None
    }
}

// ---------------------------------------------------------------------------
// Failure messages
// ---------------------------------------------------------------------------

/// The captured stderr lines joined for a failure message.
pub fn stderr_tail_message(tail: &Vec<String>) -> (m: String)
    ensures
        m@ == join(views(tail@), " | "@),
{
    string_of(&join_strings(tail, " | "))
}

/// `base`, followed by `: ` and the stderr tail when the tail is non-empty.
pub open spec fn with_tail(base: Seq<char>, tail: Seq<Seq<char>>) -> Seq<char> {
    let joined = join(tail, " | "@);
    if joined.len() == 0 { base } else { base + ": "@ + joined }
}

fn push_tail(message: &mut Vec<char>, tail: &Vec<String>)
    ensures
        final(message)@ == with_tail(old(message)@, views(tail@)),
{
    let joined = join_strings(tail, " | ");
    if joined.len() > 0 {
        push_str(message, ": ");
        push_all(message, &joined);
    }
}

/// The failure of an FFmpeg run that exited unsuccessfully with `code`
/// (`None` when it was ended by a signal).
pub open spec fn exit_failure_message(code: Option<i32>, tail: Seq<Seq<char>>) -> Seq<char> {
    let code_text = match code {
        Some(c) => dec_signed(c as int),
        None => "unknown"@,
    };
    with_tail("FFmpeg exited with code "@ + code_text, tail)
}

pub fn exit_failure(code: Option<i32>, tail: &Vec<String>) -> (e: ProcessingError)
    ensures
        e.is(ErrorKind::EncodeFailed, exit_failure_message(code, views(tail@))),
{
    let mut message: Vec<char> = Vec::new();
    push_str(&mut message, "FFmpeg exited with code ");
    match code {
        Some(c) => push_dec_signed(&mut message, c as i64),
        None => push_str(&mut message, "unknown"),
    }
    push_tail(&mut message, tail);
    ProcessingError::new(ErrorKind::EncodeFailed, string_of(&message))
}

/// The failure of an FFmpeg run whose output is empty or not a valid video.
pub fn invalid_output_failure(tail: &Vec<String>) -> (e: ProcessingError)
    ensures
        e.is(ErrorKind::EncodeFailed, with_tail("FFmpeg produced invalid output"@, views(tail@))),
{
    let mut message = chars_of("FFmpeg produced invalid output");
    push_tail(&mut message, tail);
    ProcessingError::new(ErrorKind::EncodeFailed, string_of(&message))
}

// ---------------------------------------------------------------------------
// Omitted streams
// ---------------------------------------------------------------------------

/// The (code, message) warnings for source streams the output does not keep:
/// extra audio tracks, subtitles, attachments and data streams.
pub open spec fn omitted_warnings_spec(p: ProbedVideo) -> Seq<(Seq<char>, Seq<char>)> {
    let audio = if p.audio_stream_count > 1 {
        seq![("VIDEO_OMITTED_AUDIO"@, if p.audio_stream_count == 2 {
            "Extra audio stream omitted: only the first track is kept"@
        } else {
            "Extra audio streams omitted: only the first track is kept"@
        })]
    } else {
        Seq::empty()
    };
    let subtitles = if p.subtitle_stream_count > 0 {
        seq![("VIDEO_OMITTED_SUBTITLES"@, if p.subtitle_stream_count == 1 {
            "Subtitle stream is not preserved"@
        } else {
            "Subtitle streams are not preserved"@
        })]
    } else {
        Seq::empty()
    };
    let attachments = if p.attachment_stream_count > 0 {
        seq![("VIDEO_OMITTED_ATTACHMENTS"@, if p.attachment_stream_count == 1 {
            "Attached file is not preserved"@
        } else {
            "Attached files are not preserved"@
        })]
    } else {
        Seq::empty()
    };
    let data = if p.data_stream_count > 0 {
        seq![("VIDEO_OMITTED_DATA"@, if p.data_stream_count == 1 {
            "Data stream is not preserved"@
        } else {
            "Data streams are not preserved"@
        })]
    } else {
        Seq::empty()
    };
    audio + subtitles + attachments + data
}

pub open spec fn warning_views(w: Seq<FileWarning>) -> Seq<(Seq<char>, Seq<char>)> {
    w.map_values(|x: FileWarning| (x.code@, x.message@))
}

fn push_warning(warnings: &mut Vec<FileWarning>, code: &str, message: &str)
    ensures
        warning_views(final(warnings)@) == warning_views(old(warnings)@).push((code@, message@)),
        forall|i: int| 0 <= i < final(warnings)@.len() ==> (old(warnings)@.len() <= i ==> final(warnings)@[i].pages.is_none()),
        forall|i: int| 0 <= i < old(warnings)@.len() ==> final(warnings)@[i] == old(warnings)@[i],
{
    warnings.push(FileWarning { code: code.to_owned(), message: message.to_owned(), pages: None });
    assert(warning_views(warnings@) =~= warning_views(old(warnings)@).push((code@, message@)));
}

/// Warnings for streams that the encode drops; `None` when nothing is dropped.
pub fn omitted_stream_warnings(probe: &ProbedVideo) -> (r: Option<Vec<FileWarning>>)
    ensures
        match r {
            None => omitted_warnings_spec(*probe).len() == 0,
            Some(w) => w@.len() > 0 && warning_views(w@) == omitted_warnings_spec(*probe)
                && forall|i: int| 0 <= i < w@.len() ==> (#[trigger] w@[i]).pages.is_none(),
        },
{
    let mut warnings: Vec<FileWarning> = Vec::new();
    if probe.audio_stream_count > 1 {
        if probe.audio_stream_count - 1 == 1 {
            push_warning(&mut warnings, "VIDEO_OMITTED_AUDIO", "Extra audio stream omitted: only the first track is kept");
        } else {
            push_warning(&mut warnings, "VIDEO_OMITTED_AUDIO", "Extra audio streams omitted: only the first track is kept");
        }
    }
    if probe.subtitle_stream_count > 0 {
        if probe.subtitle_stream_count == 1 {
            push_warning(&mut warnings, "VIDEO_OMITTED_SUBTITLES", "Subtitle stream is not preserved");
        } else {
            push_warning(&mut warnings, "VIDEO_OMITTED_SUBTITLES", "Subtitle streams are not preserved");
        }
    }
    if probe.attachment_stream_count > 0 {
        if probe.attachment_stream_count == 1 {
            push_warning(&mut warnings, "VIDEO_OMITTED_ATTACHMENTS", "Attached file is not preserved");
        } else {
            push_warning(&mut warnings, "VIDEO_OMITTED_ATTACHMENTS", "Attached files are not preserved");
        }
    }
    if probe.data_stream_count > 0 {
        if probe.data_stream_count == 1 {
            push_warning(&mut warnings, "VIDEO_OMITTED_DATA", "Data stream is not preserved");
        } else {
            push_warning(&mut warnings, "VIDEO_OMITTED_DATA", "Data streams are not preserved");
        }
    }
    assert(warning_views(warnings@) =~= omitted_warnings_spec(*probe));
    if warnings.len() == 0 {
        None
    } else {
        Some(warnings)
    }
}

// ---------------------------------------------------------------------------
// Batch state
// ---------------------------------------------------------------------------

/// The state of a video batch. Files are processed in order; cancellation
/// stops the batch, and files that never started are not recorded.
pub struct VideoBatch {
    items: Vec<FileResult>,
    canceled: bool,
}

impl VideoBatch {
    pub closed spec fn items_view(&self) -> Seq<FileResult> {
        self.items@
    }

    pub closed spec fn is_canceled(&self) -> bool {
        self.canceled
    }

    /// A batch with no processed file.
    pub fn new() -> (b: Self)
        ensures
            b.items_view().len() == 0,
            !b.is_canceled(),
    {
        VideoBatch { items: Vec::new(), canceled: false }
    }

    /// Decides whether the next file may start: not after a cancellation,
    /// and not when a cancel was requested (which cancels the batch).
    pub fn start_next(&mut self, cancel_requested: bool) -> (go: bool)
        ensures
            go == (!old(self).is_canceled() && !cancel_requested),
            final(self).is_canceled() == (old(self).is_canceled() || cancel_requested),
            final(self).items_view() == old(self).items_view(),
    {
        if self.canceled || cancel_requested {
            self.canceled = true;
            false
        } else {
            true
        }
    }

    /// Records a file that was encoded and committed.
    pub fn record_success(
        &mut self,
        source_path: String,
        original_size: u64,
        output_path: String,
        output_size: u64,
        warnings: Option<Vec<FileWarning>>,
    )
        ensures
            final(self).is_canceled() == old(self).is_canceled(),
            final(self).items_view().len() == old(self).items_view().len() + 1,
            final(self).items_view().drop_last() == old(self).items_view(),
            final(self).items_view().last().success,
            final(self).items_view().last().source_path == source_path,
            final(self).items_view().last().original_size == original_size,
            final(self).items_view().last().error is None,
            final(self).items_view().last().output_path == Some(output_path),
            final(self).items_view().last().output_size == Some(output_size),
            final(self).items_view().last().warnings == warnings,
    {
        let item = success_result(source_path, output_path, original_size, output_size, warnings);
        self.items.push(item);
        assert(self.items@.drop_last() =~= old(self).items@);
    }

    /// Records a file that failed; the batch goes on.
    pub fn record_failure(&mut self, source_path: String, original_size: u64, error: ProcessingError)
        ensures
            final(self).is_canceled() == old(self).is_canceled(),
            final(self).items_view().len() == old(self).items_view().len() + 1,
            final(self).items_view().drop_last() == old(self).items_view(),
            !final(self).items_view().last().success,
            final(self).items_view().last().source_path == source_path,
            final(self).items_view().last().original_size == original_size,
            final(self).items_view().last().output_path is None,
            final(self).items_view().last().output_size is None,
            final(self).items_view().last().warnings is None,
            final(self).items_view().last().error matches Some(dto) && dto.code@ == crate::errors::code_of(error.kind())
                && dto.message@ == error.message_view(),
    {
        let item = failure_result(source_path, original_size, error);
        self.items.push(item);
        assert(self.items@.drop_last() =~= old(self).items@);
    }

    /// Records the file that was stopped by cancellation and cancels the batch.
    pub fn record_canceled(&mut self, source_path: String, original_size: u64)
        ensures
            final(self).is_canceled(),
            final(self).items_view().len() == old(self).items_view().len() + 1,
            final(self).items_view().drop_last() == old(self).items_view(),
            !final(self).items_view().last().success,
            final(self).items_view().last().source_path == source_path,
            final(self).items_view().last().original_size == original_size,
            final(self).items_view().last().output_path is None,
            final(self).items_view().last().output_size is None,
            final(self).items_view().last().warnings is None,
            final(self).items_view().last().error matches Some(dto) && dto.code@ == crate::errors::canceled_code(),
    {
        let item = canceled_result(source_path, original_size);
        self.items.push(item);
        self.canceled = true;
        assert(self.items@.drop_last() =~= old(self).items@);
    }

    /// The batch result: the status, and the recorded files counted as
    /// succeeded or failed (canceled files count as failed).
    pub fn finish(self) -> (r: VideoBatchResult)
        requires
            self.items_view().len() <= u32::MAX,
        ensures
            r.items@ == self.items_view(),
            r.status == (if self.is_canceled() { VideoBatchStatus::Canceled } else { VideoBatchStatus::Completed }),
            r.total as nat == self.items_view().len(),
            r.succeeded as nat == count_succeeded(self.items_view()),
            r.failed as nat == self.items_view().len() - count_succeeded(self.items_view()),
    {
        let status = if self.canceled { VideoBatchStatus::Canceled } else { VideoBatchStatus::Completed };
        let succeeded = succeeded_count(&self.items);
        let total = self.items.len();
        VideoBatchResult {
            status,
            total: total as u32,
            succeeded: succeeded as u32,
            failed: (total - succeeded) as u32,
            items: self.items,
        }
    }
}

/// In every finished video batch each recorded file is counted once.
pub proof fn law_video_batch_counts(r: VideoBatchResult)
    requires
        r.total as nat == r.items@.len(),
        r.succeeded as nat == count_succeeded(r.items@),
        r.failed as nat == r.items@.len() - count_succeeded(r.items@),
    ensures
        r.succeeded + r.failed == r.total,
{
    lemma_count_succeeded_bound(r.items@);
}

// ---------------------------------------------------------------------------
// Verdicts on one encode
// ---------------------------------------------------------------------------

/// The outcome of encoding one file.
#[derive(Debug)]
pub enum VideoEncodeOutcome {
    /// The output was validated and moved to its final path.
    Success { warnings: Option<Vec<FileWarning>> },
    Failed(ProcessingError),
    Canceled,
}

/// The verdict on an FFmpeg run: `None` when FFmpeg exited successfully and
/// its output is to be validated next. A canceled run is canceled; a run
/// that could not start, whose status could not be read, or that exited
/// unsuccessfully fails with an encode error.
pub fn encode_run_verdict(run: &ChildRun, tail: &Vec<String>) -> (v: Option<VideoEncodeOutcome>)
    ensures
        *run is StartFailed ==> (v matches Some(VideoEncodeOutcome::Failed(e))
            && e.is(ErrorKind::EncodeFailed, "Could not start FFmpeg"@)),
        *run is Canceled ==> v matches Some(VideoEncodeOutcome::Canceled),
        *run matches ChildRun::StatusUnreadable(t) ==> (v matches Some(VideoEncodeOutcome::Failed(e))
            && e.is(ErrorKind::EncodeFailed, "Could not read FFmpeg status: "@ + t@)),
        *run matches ChildRun::Exited { success, code } ==> (success ==> v is None),
        *run matches ChildRun::Exited { success, code } ==> (!success ==> (v matches Some(VideoEncodeOutcome::Failed(e))
            && e.is(ErrorKind::EncodeFailed, exit_failure_message(code, views(tail@))))),
{
    match run {
        ChildRun::StartFailed => Some(VideoEncodeOutcome::Failed(ProcessingError::encode_failed("Could not start FFmpeg"))),
        ChildRun::Canceled => Some(VideoEncodeOutcome::Canceled),
        ChildRun::StatusUnreadable(t) => Some(VideoEncodeOutcome::Failed(
            prefixed_failure(ErrorKind::EncodeFailed, "Could not read FFmpeg status: ", t.as_str()),
        )),
        ChildRun::Exited { success, code } => {
            if *success {
                None
            } else {
                Some(VideoEncodeOutcome::Failed(exit_failure(*code, tail)))
            }
        },
    }
}

/// The verdict on the partial output of a successful run: it must be
/// non-empty and probe as a video.
pub fn output_verdict(output_size: u64, probe_ok: bool, tail: &Vec<String>) -> (v: Option<VideoEncodeOutcome>)
    ensures
        output_size > 0 && probe_ok ==> v is None,
        !(output_size > 0 && probe_ok) ==> (v matches Some(VideoEncodeOutcome::Failed(e))
            && e.is(ErrorKind::EncodeFailed, with_tail("FFmpeg produced invalid output"@, views(tail@)))),
{
    if output_size > 0 && probe_ok {
        None
    } else {
        Some(VideoEncodeOutcome::Failed(invalid_output_failure(tail)))
    }
}

/// The outcome after moving the validated output to its final path: the
/// omitted-stream warnings of the source on success.
pub fn finalize_verdict(renamed: Result<(), String>, final_path: &str, probe: &ProbedVideo) -> (v: VideoEncodeOutcome)
    ensures
        renamed matches Err(t) ==> (v matches VideoEncodeOutcome::Failed(e)
            && e.is(ErrorKind::WriteFailed, finalize_message(final_path@, t@))),
        renamed is Ok ==> (v matches VideoEncodeOutcome::Success { warnings } && match warnings {
            None => omitted_warnings_spec(*probe).len() == 0,
            Some(w) => w@.len() > 0 && warning_views(w@) == omitted_warnings_spec(*probe),
        }),
{
    match renamed {
        Err(t) => VideoEncodeOutcome::Failed(finalize_failure(final_path, t.as_str())),
        Ok(()) => VideoEncodeOutcome::Success { warnings: omitted_stream_warnings(probe) },
    }
}

} // verus!
