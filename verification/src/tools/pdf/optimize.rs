//! Decisions of the PDF optimization batch: the pinned qpdf arguments per
//! preset, stderr sanitization, failure and commit decisions, job
//! cancellation and batch accounting. The driver that runs qpdf and moves
//! files feeds this state machine.

use vstd::prelude::*;

use crate::errors::{code_of, canceled_code, ErrorKind, ProcessingError, ProcessingErrorDto};
use crate::models::{
    OptimizePdfBatchResult, OptimizePdfFileResult, PdfOptimizationPreset, PdfOptimizeBatchStatus,
    PdfOptimizeOutcome,
};
use crate::services::child::{finalize_failure, finalize_message, prefixed_failure, ChildRun};
use crate::services::jobs::{cancel_requested_spec, cancel_spec, JobRegistry, JobState};
use crate::text::{
    after_first, chars_of, dec_signed, is_digit, is_whitespace, is_ws, join, join_strings,
    push_all, push_dec_signed, push_owned, push_str, slice_chars, split_after, str_views,
    string_of, trim, trim_chars, views,
};

verus! {

// ---------------------------------------------------------------------------
// Job registry
// ---------------------------------------------------------------------------

pub fn register_job(jobs: &mut JobRegistry, job_id: &str)
    ensures
        final(jobs).view() == old(jobs).view().insert(job_id@, JobState::Running),
{
    jobs.register(job_id);
}

pub fn unregister_job(jobs: &mut JobRegistry, job_id: &str)
    ensures
        final(jobs).view() == old(jobs).view().remove(job_id@),
{
    jobs.unregister(job_id);
}

/// Flips a running job into the cancel-requested state.
/// Returns `false` when the job is unknown or already canceling.
pub fn cancel_job(jobs: &mut JobRegistry, job_id: &str) -> (flipped: bool)
    ensures
        (flipped, final(jobs).view()) == cancel_spec(old(jobs).view(), job_id@),
{
    jobs.cancel(job_id)
}

pub fn is_cancel_requested(jobs: &JobRegistry, job_id: &str) -> (b: bool)
    ensures
        b == cancel_requested_spec(jobs.view(), job_id@),
{
    jobs.is_cancel_requested(job_id)
}

// ---------------------------------------------------------------------------
// qpdf arguments
// ---------------------------------------------------------------------------

/// The structural options every preset uses.
pub open spec fn structural_args() -> Seq<Seq<char>> {
    seq![
        "--compress-streams=y"@,
        "--decode-level=generalized"@,
        "--recompress-flate"@,
        "--compression-level=9"@,
        "--object-streams=generate"@,
    ]
}

/// The pinned qpdf options of a preset: the structural options, plus image
/// recompression at JPEG quality 80 (Balanced) or 55 (Smaller). Lossless adds
/// no lossy option.
pub open spec fn preset_args_spec(preset: PdfOptimizationPreset) -> Seq<Seq<char>> {
    match preset {
        PdfOptimizationPreset::Lossless => structural_args(),
        PdfOptimizationPreset::Balanced => structural_args() + seq!["--optimize-images"@, "--jpeg-quality=80"@],
        PdfOptimizationPreset::Smaller => structural_args() + seq!["--optimize-images"@, "--jpeg-quality=55"@],
    }
}

/// Returns the exact qpdf arguments for a preset (excluding input/output and
/// `--progress`).
pub fn preset_args(preset: PdfOptimizationPreset) -> (args: Vec<&'static str>)
    ensures
        str_views(args@) == preset_args_spec(preset),
{
    let mut args: Vec<&'static str> = Vec::new();
    args.push("--compress-streams=y");
    args.push("--decode-level=generalized");
    args.push("--recompress-flate");
    args.push("--compression-level=9");
    args.push("--object-streams=generate");
    match preset {
        PdfOptimizationPreset::Lossless => {},
        PdfOptimizationPreset::Balanced => {
            args.push("--optimize-images");
            args.push("--jpeg-quality=80");
        },
        PdfOptimizationPreset::Smaller => {
            args.push("--optimize-images");
            args.push("--jpeg-quality=55");
        },
    }
    assert(str_views(args@) =~= preset_args_spec(preset));
    args
}

/// The full qpdf argument list for one file: options, `--progress`, input,
/// output.
pub open spec fn qpdf_args_spec(preset: PdfOptimizationPreset, input: Seq<char>, output: Seq<char>) -> Seq<Seq<char>> {
    preset_args_spec(preset) + seq!["--progress"@, input, output]
}

/// Builds the full qpdf argument list for one file.
pub fn build_qpdf_args(preset: PdfOptimizationPreset, input: &str, output: &str) -> (args: Vec<String>)
    ensures
        views(args@) == qpdf_args_spec(preset, input@, output@),
{
    let options = preset_args(preset);
    let mut args: Vec<String> = Vec::new();
    crate::text::extend_owned(&mut args, &options);
    push_owned(&mut args, "--progress");
    push_owned(&mut args, input);
    push_owned(&mut args, output);
    assert(views(args@) =~= qpdf_args_spec(preset, input@, output@));
    args
}

/// qpdf is called as `qpdf [options] infile outfile`: the argument list is
/// the preset's options, then `--progress`, then the input path, then the
/// output path last. Changing the output path changes only the last
/// argument, and changing the input path only the one before it.
pub proof fn law_input_precedes_output(
    preset: PdfOptimizationPreset,
    input: Seq<char>,
    output: Seq<char>,
    other_input: Seq<char>,
    other_output: Seq<char>,
)
    ensures
        ({
            let args = qpdf_args_spec(preset, input, output);
            let n = args.len();
            &&& n == preset_args_spec(preset).len() + 3
            &&& args.take(n - 3) == preset_args_spec(preset)
            &&& args[n - 3] == "--progress"@
            &&& args[n - 2] == input
            &&& args[n - 1] == output
        }),
        qpdf_args_spec(preset, input, other_output)
            == qpdf_args_spec(preset, input, output).drop_last().push(other_output),
        qpdf_args_spec(preset, other_input, output)
            == qpdf_args_spec(preset, input, output).update(preset_args_spec(preset).len() as int + 1, other_input),
{
    let args = qpdf_args_spec(preset, input, output);
    let n = args.len();
    assert(args.take(n - 3) =~= preset_args_spec(preset));
    assert(qpdf_args_spec(preset, input, other_output) =~= args.drop_last().push(other_output));
    assert(qpdf_args_spec(preset, other_input, output) =~= args.update(preset_args_spec(preset).len() as int + 1, other_input));
}

/// Lossless never asks for lossy image recompression.
pub proof fn law_lossless_never_includes_lossy_flags()
    ensures
        !preset_args_spec(PdfOptimizationPreset::Lossless).contains("--optimize-images"@),
        !preset_args_spec(PdfOptimizationPreset::Lossless).contains("--jpeg-quality=80"@),
        !preset_args_spec(PdfOptimizationPreset::Lossless).contains("--jpeg-quality=55"@),
{
    reveal_strlit("--compress-streams=y");
    reveal_strlit("--decode-level=generalized");
    reveal_strlit("--recompress-flate");
    reveal_strlit("--compression-level=9");
    reveal_strlit("--object-streams=generate");
    reveal_strlit("--optimize-images");
    reveal_strlit("--jpeg-quality=80");
    reveal_strlit("--jpeg-quality=55");
    let s = preset_args_spec(PdfOptimizationPreset::Lossless);
    assert forall|i: int| 0 <= i < s.len() implies s[i] != "--optimize-images"@ && s[i] != "--jpeg-quality=80"@
        && s[i] != "--jpeg-quality=55"@ by {
        assert(s[i].len() != "--optimize-images"@.len() || s[i][2] != "--optimize-images"@[2]);
        assert(s[i].len() != "--jpeg-quality=80"@.len() || s[i][2] != "--jpeg-quality=80"@[2]);
    }
}

/// Balanced and Smaller differ only in the JPEG quality, which is the last
/// option.
pub proof fn law_balanced_and_smaller_differ_only_in_quality()
    ensures
        preset_args_spec(PdfOptimizationPreset::Balanced).drop_last()
            == preset_args_spec(PdfOptimizationPreset::Smaller).drop_last(),
        preset_args_spec(PdfOptimizationPreset::Balanced).last()
            != preset_args_spec(PdfOptimizationPreset::Smaller).last(),
{
    reveal_strlit("--jpeg-quality=80");
    reveal_strlit("--jpeg-quality=55");
    assert(preset_args_spec(PdfOptimizationPreset::Balanced).drop_last()
        =~= preset_args_spec(PdfOptimizationPreset::Smaller).drop_last());
    assert("--jpeg-quality=80"@[15] != "--jpeg-quality=55"@[15]);
}

// ---------------------------------------------------------------------------
// stderr lines
// ---------------------------------------------------------------------------

/// Collapses whitespace runs: the words of `s` (maximal runs of
/// non-whitespace) separated by single spaces, with no leading or trailing
/// space. The flag records that a gap follows the last word so far.
pub open spec fn collapse_ws(s: Seq<char>) -> (Seq<char>, bool)
    decreases s.len(),
{
    if s.len() == 0 {
        (Seq::empty(), false)
    } else {
        let (out, gap) = collapse_ws(s.drop_last());
        let c = s.last();
        if is_ws(c) {
            (out, out.len() > 0)
        } else if gap {
            (out + seq![' ', c], false)
        } else {
            (out.push(c), false)
        }
    }
}

/// At most this many characters of a stderr line are kept.
pub open spec fn max_stderr_chars() -> nat {
    500
}

/// A stderr line with whitespace runs collapsed to single spaces and cut to
/// 500 characters.
pub open spec fn sanitized_spec(line: Seq<char>) -> Seq<char> {
    let c = collapse_ws(line).0;
    if c.len() <= 500 { c } else { c.take(500) }
}

/// Collapses whitespace and bounds the length of a stderr line.
pub fn sanitize_stderr_line(line: &str) -> (r: String)
    ensures
        r@ == sanitized_spec(line@),
{
    let chars = chars_of(line);
    let mut out: Vec<char> = Vec::new();
    let mut gap = false;
    let mut i: usize = 0;
    while i < chars.len()
        invariant
            i <= chars.len(),
            (out@, gap) == collapse_ws(chars@.take(i as int)),
        decreases chars.len() - i,
    {
        let c = chars[i];
        proof {
            assert(chars@.take(i + 1).drop_last() =~= chars@.take(i as int));
            assert(chars@.take(i + 1).last() == c);
        }
        if is_whitespace(c) {
            gap = out.len() > 0;
        } else if gap {
            out.push(' ');
            out.push(c);
            gap = false;
            proof {
                let prev = collapse_ws(chars@.take(i as int)).0;
                assert(out@ =~= prev + seq![' ', c]);
            }
        } else {
            out.push(c);
        }
        i = i + 1;
    }
    assert(chars@.take(chars.len() as int) =~= chars@);
    if out.len() > 500 {
        let mut cut: Vec<char> = Vec::new();
        let mut k: usize = 0;
        while k < 500
            invariant
                k <= 500 < out.len(),
                cut@ == out@.take(k as int),
            decreases 500 - k,
        {
            cut.push(out[k]);
            k = k + 1;
            assert(cut@ =~= out@.take(k as int));
        }
        string_of(&cut)
    } else {
        string_of(&out)
    }
}

proof fn lemma_collapse_shape(s: Seq<char>)
    ensures
        forall|i: int| 0 <= i < collapse_ws(s).0.len() ==> (is_ws(#[trigger] collapse_ws(s).0[i]) ==> collapse_ws(s).0[i] == ' '),
        collapse_ws(s).0.len() > 0 ==> !is_ws(collapse_ws(s).0[0]),
        collapse_ws(s).0.len() > 0 ==> !is_ws(collapse_ws(s).0.last()),
        forall|i: int| 0 <= i < collapse_ws(s).0.len() - 1 ==> !(#[trigger] collapse_ws(s).0[i] == ' ' && collapse_ws(s).0[i + 1] == ' '),
        collapse_ws(s).1 ==> collapse_ws(s).0.len() > 0,
    decreases s.len(),
{
    if s.len() > 0 {
        lemma_collapse_shape(s.drop_last());
        let (out, gap) = collapse_ws(s.drop_last());
        let c = s.last();
        if !is_ws(c) {
            let r = collapse_ws(s).0;
            if gap {
                assert(r =~= out + seq![' ', c]);
                assert forall|i: int| 0 <= i < r.len() - 1 implies !(#[trigger] r[i] == ' ' && r[i + 1] == ' ') by {
                    if i < out.len() - 1 {
                        assert(r[i] == out[i] && r[i + 1] == out[i + 1]);
                    } else if i == out.len() - 1 {
                        assert(r[i] == out.last());
                    }
                }
                assert forall|i: int| 0 <= i < r.len() implies (is_ws(#[trigger] r[i]) ==> r[i] == ' ') by {
                    if i < out.len() {
                        assert(r[i] == out[i]);
                    }
                }
            } else {
                assert(r =~= out.push(c));
                assert forall|i: int| 0 <= i < r.len() - 1 implies !(#[trigger] r[i] == ' ' && r[i + 1] == ' ') by {
                    if i < out.len() - 1 {
                        assert(r[i] == out[i] && r[i + 1] == out[i + 1]);
                    }
                }
                assert forall|i: int| 0 <= i < r.len() implies (is_ws(#[trigger] r[i]) ==> r[i] == ' ') by {
                    if i < out.len() {
                        assert(r[i] == out[i]);
                    }
                }
            }
        }
    }
}

/// A sanitized stderr line has at most 500 characters, no leading or
/// trailing whitespace, no whitespace other than single spaces, and never two
/// spaces in a row.
pub proof fn law_sanitized_line_is_clean(line: Seq<char>)
    ensures
        sanitized_spec(line).len() <= max_stderr_chars(),
        sanitized_spec(line).len() > 0 ==> !is_ws(sanitized_spec(line)[0]),
        forall|i: int| 0 <= i < sanitized_spec(line).len() ==> (is_ws(#[trigger] sanitized_spec(line)[i]) ==> sanitized_spec(line)[i] == ' '),
        forall|i: int| 0 <= i < sanitized_spec(line).len() - 1 ==> !(#[trigger] sanitized_spec(line)[i] == ' ' && sanitized_spec(line)[i + 1] == ' '),
{
    lemma_collapse_shape(line);
    let c = collapse_ws(line).0;
    let r = sanitized_spec(line);
    assert forall|i: int| 0 <= i < r.len() implies (is_ws(#[trigger] r[i]) ==> r[i] == ' ') by {
        assert(r[i] == c[i]);
    }
    assert forall|i: int| 0 <= i < r.len() - 1 implies !(#[trigger] r[i] == ' ' && r[i + 1] == ' ') by {
        assert(r[i] == c[i] && r[i + 1] == c[i + 1]);
    }
    if r.len() > 0 {
        assert(r[0] == c[0]);
    }
}

// ---------------------------------------------------------------------------
// Progress lines
// ---------------------------------------------------------------------------

/// `s` without its trailing `c`s (`str::trim_end_matches(c)`).
pub open spec fn trim_end_char(s: Seq<char>, c: char) -> Seq<char>
    decreases s.len(),
{
    if s.len() > 0 && s.last() == c { trim_end_char(s.drop_last(), c) } else { s }
}

pub open spec fn is_number_char(c: char) -> bool {
    is_digit(c) || c == '.'
}

/// `s` from its first digit or dot on.
pub open spec fn skip_to_number(s: Seq<char>) -> Seq<char>
    decreases s.len(),
{
    if s.len() > 0 && !is_number_char(s[0]) { skip_to_number(s.drop_first()) } else { s }
}

/// The run of digits and dots that `s` starts with.
pub open spec fn leading_number(s: Seq<char>) -> Seq<char>
    decreases s.len(),
{
    if s.len() > 0 && is_number_char(s[0]) { seq![s[0]] + leading_number(s.drop_first()) } else { Seq::empty() }
}

/// The number text of a qpdf `--progress` line such as
/// `qpdf: out.pdf: write progress: 17%`: what follows the first
/// `write progress:`, trimmed, without trailing `%` signs and trimmed again,
/// then its first run of digits and dots. `None` without the marker or
/// without such a run.
pub open spec fn progress_number_spec(line: Seq<char>) -> Option<Seq<char>> {
    match after_first(line, "write progress:"@) {
        None => None,
        Some(rest) => {
            let run = leading_number(skip_to_number(trim(trim_end_char(trim(rest), '%'))));
            if run.len() == 0 { None } else { Some(run) }
        },
    }
}

fn trim_end_percent(s: &Vec<char>) -> (r: Vec<char>)
    ensures
        r@ == trim_end_char(s@, '%'),
{
    let mut j: usize = s.len();
    assert(s@.take(j as int) =~= s@);
    while j > 0 && s[j - 1] == '%'
        invariant
            j <= s.len(),
            trim_end_char(s@, '%') == trim_end_char(s@.take(j as int), '%'),
        decreases j,
    {
        assert(s@.take(j as int).drop_last() =~= s@.take(j - 1));
        j = j - 1;
    }
    let r = slice_chars(s, 0, j);
    assert(r@ =~= s@.take(j as int));
    r
}

fn leading_number_text(s: &Vec<char>) -> (r: Vec<char>)
    ensures
        r@ == leading_number(skip_to_number(s@)),
{
    let mut i: usize = 0;
    assert(s@.skip(0) =~= s@);
    while i < s.len() && !(('0' <= s[i] && s[i] <= '9') || s[i] == '.')
        invariant
            i <= s.len(),
            skip_to_number(s@) == skip_to_number(s@.skip(i as int)),
        decreases s.len() - i,
    {
        assert(s@.skip(i as int)[0] == s@[i as int]);
        assert(s@.skip(i as int).drop_first() =~= s@.skip(i + 1));
        i = i + 1;
    }
    if i < s.len() {
        assert(s@.skip(i as int)[0] == s@[i as int]);
    }
    let mut j: usize = i;
    while j < s.len() && (('0' <= s[j] && s[j] <= '9') || s[j] == '.')
        invariant
            i <= j <= s.len(),
            skip_to_number(s@) == s@.skip(i as int),
            leading_number(s@.skip(i as int)) == s@.subrange(i as int, j as int) + leading_number(s@.skip(j as int)),
        decreases s.len() - j,
    {
        let ghost t = s@.skip(j as int);
        assert(t[0] == s@[j as int]);
        assert(t.drop_first() =~= s@.skip(j + 1));
        assert(s@.subrange(i as int, j as int) + leading_number(t)
            =~= s@.subrange(i as int, j + 1) + leading_number(s@.skip(j + 1)));
        j = j + 1;
    }
    if j < s.len() {
        assert(s@.skip(j as int)[0] == s@[j as int]);
    }
    assert(s@.subrange(i as int, j as int) + leading_number(s@.skip(j as int)) =~= s@.subrange(i as int, j as int));
    slice_chars(s, i, j)
}

/// Reads the number text of a qpdf `--progress` line.
pub fn progress_number_text(line: &str) -> (r: Option<String>)
    ensures
        match r {
            Some(t) => progress_number_spec(line@) == Some(t@),
            None => progress_number_spec(line@) is None,
        },
{
    let raw = chars_of(line);
    let rest = match split_after(&raw, "write progress:") {
        Some(rest) => rest,
        None => return None,
    };
    let trimmed = trim_chars(&rest);
    let stripped = trim_end_percent(&trimmed);
    let cleaned = trim_chars(&stripped);
    let run = leading_number_text(&cleaned);
    if run.len() == 0 {
        None
    } else {
        Some(string_of(&run))
    }
}

/// The captured stderr tail joined for a failure message.
pub fn tail_message(tail: &Vec<String>) -> (m: String)
    ensures
        m@ == join(views(tail@), " | "@),
{
    string_of(&join_strings(tail, " | "))
}

// ---------------------------------------------------------------------------
// Failure and commit decisions
// ---------------------------------------------------------------------------

/// The failure of a qpdf run that exited unsuccessfully with `code` (`None`
/// when ended by a signal): only exit 0 is success, warnings (3) included.
pub open spec fn exit_failure_message(code: Option<i32>, tail: Seq<Seq<char>>) -> Seq<char> {
    let base = "PDF optimization failed (exit "@ + match code {
        Some(c) => dec_signed(c as int),
        None => "unknown"@,
    } + ")"@;
    let joined = join(tail, " | "@);
    if joined.len() == 0 { base } else { base + ": "@ + joined }
}

pub fn exit_failure(code: Option<i32>, tail: &Vec<String>) -> (e: ProcessingError)
    ensures
        e.is(ErrorKind::InvalidPdf, exit_failure_message(code, views(tail@))),
{
    let mut message: Vec<char> = Vec::new();
    push_str(&mut message, "PDF optimization failed (exit ");
    match code {
        Some(c) => push_dec_signed(&mut message, c as i64),
        None => push_str(&mut message, "unknown"),
    }
    push_str(&mut message, ")");
    let joined = join_strings(tail, " | ");
    if joined.len() > 0 {
        push_str(&mut message, ": ");
        push_all(&mut message, &joined);
    }
    ProcessingError::new(ErrorKind::InvalidPdf, string_of(&message))
}

/// What to do with a validated partial output.
#[derive(Debug)]
pub enum CommitDecision {
    /// The output is strictly smaller: move it to the final name.
    Commit,
    /// The output is not smaller: discard it, the source is already optimal.
    AlreadyOptimized,
    /// The output is unusable.
    Fail(ProcessingError),
}

/// Decides on a validated partial output from its size and the source's: an
/// empty output fails, an output that is not strictly smaller is discarded as
/// already optimized, a smaller one is committed.
pub fn commit_decision(original_size: u64, partial_size: u64) -> (d: CommitDecision)
    ensures
        partial_size == 0 ==> (d matches CommitDecision::Fail(e)
            && e.is(ErrorKind::WriteFailed, "PDF engine produced an empty output"@)),
        partial_size > 0 && partial_size >= original_size ==> d matches CommitDecision::AlreadyOptimized,
        partial_size > 0 && partial_size < original_size ==> d matches CommitDecision::Commit,
{
    if partial_size == 0 {
        CommitDecision::Fail(ProcessingError::write_failed("PDF engine produced an empty output"))
    } else if partial_size >= original_size {
        CommitDecision::AlreadyOptimized
    } else {
        CommitDecision::Commit
    }
}

// ---------------------------------------------------------------------------
// Verdicts on one file
// ---------------------------------------------------------------------------

/// The outcome of optimizing one file.
#[derive(Debug)]
pub enum PdfEncodeOutcome {
    Optimized { output_size: u64 },
    AlreadyOptimized,
    Failed(ProcessingError),
    Canceled,
}

pub open spec fn engine_start_message() -> Seq<char> {
    "Could not start PDF engine"@
}

/// The verdict on the qpdf optimization run: `None` when qpdf exited with 0
/// and its output is to be checked next. A cancellation seen during or
/// right after the run cancels; exit 3 (warnings) fails like any other
/// non-zero exit.
pub fn engine_verdict(run: &ChildRun, cancel_requested: bool, tail: &Vec<String>) -> (v: Option<PdfEncodeOutcome>)
    ensures
        *run is StartFailed ==> (v matches Some(PdfEncodeOutcome::Failed(e))
            && e.is(ErrorKind::PdfEngineUnavailable, engine_start_message())),
        !(*run is StartFailed) && (*run is Canceled || cancel_requested) ==> v matches Some(PdfEncodeOutcome::Canceled),
        !cancel_requested ==> (*run matches ChildRun::StatusUnreadable(t) ==> (v matches Some(PdfEncodeOutcome::Failed(e))
            && e.is(ErrorKind::ProcessingFailed, "Could not read PDF engine status: "@ + t@))),
        !cancel_requested ==> (*run matches ChildRun::Exited { success, code } ==> (success ==> v is None)),
        !cancel_requested ==> (*run matches ChildRun::Exited { success, code } ==> (!success ==> (
            v matches Some(PdfEncodeOutcome::Failed(e))
            && e.is(ErrorKind::InvalidPdf, exit_failure_message(code, views(tail@)))))),
{
    if let ChildRun::StartFailed = run {
        return Some(PdfEncodeOutcome::Failed(ProcessingError::pdf_engine_unavailable("Could not start PDF engine")));
    }
    if cancel_requested {
        return Some(PdfEncodeOutcome::Canceled);
    }
    match run {
        ChildRun::Canceled => Some(PdfEncodeOutcome::Canceled),
        ChildRun::StatusUnreadable(t) => Some(PdfEncodeOutcome::Failed(
            prefixed_failure(ErrorKind::ProcessingFailed, "Could not read PDF engine status: ", t.as_str()),
        )),
        ChildRun::Exited { success, code } => {
            if *success {
                None
            } else {
                Some(PdfEncodeOutcome::Failed(exit_failure(*code, tail)))
            }
        },
        ChildRun::StartFailed => None,
    }
}

/// The verdict on `qpdf --check` of the partial output: `None` when it
/// passed.
pub fn check_verdict(run: &ChildRun) -> (v: Option<PdfEncodeOutcome>)
    ensures
        *run is StartFailed ==> (v matches Some(PdfEncodeOutcome::Failed(e))
            && e.is(ErrorKind::PdfEngineUnavailable, engine_start_message())),
        *run is Canceled ==> v matches Some(PdfEncodeOutcome::Canceled),
        *run matches ChildRun::StatusUnreadable(t) ==> (v matches Some(PdfEncodeOutcome::Failed(e))
            && e.is(ErrorKind::ProcessingFailed, "Could not read PDF validation status: "@ + t@)),
        *run matches ChildRun::Exited { success, code } ==> (success ==> v is None),
        *run matches ChildRun::Exited { success, code } ==> (!success ==> (v matches Some(PdfEncodeOutcome::Failed(e))
            && e.is(ErrorKind::InvalidPdf, "Optimized PDF failed validation"@))),
{
    match run {
        ChildRun::StartFailed => Some(PdfEncodeOutcome::Failed(ProcessingError::pdf_engine_unavailable("Could not start PDF engine"))),
        ChildRun::Canceled => Some(PdfEncodeOutcome::Canceled),
        ChildRun::StatusUnreadable(t) => Some(PdfEncodeOutcome::Failed(
            prefixed_failure(ErrorKind::ProcessingFailed, "Could not read PDF validation status: ", t.as_str()),
        )),
        ChildRun::Exited { success, .. } => {
            if *success {
                None
            } else {
                Some(PdfEncodeOutcome::Failed(ProcessingError::invalid_pdf("Optimized PDF failed validation")))
            }
        },
    }
}

/// What follows the size comparison of a checked partial output.
#[derive(Debug)]
pub enum SizeVerdict {
    /// The file is done; `discard_partial` says whether the partial output
    /// is removed.
    Finish { outcome: PdfEncodeOutcome, discard_partial: bool },
    /// Move the partial output to the final path.
    Commit { output_size: u64 },
}

/// Decides on a checked partial output from the source's size (`None` when
/// the source is gone) and the output's size (or the text of the error
/// reading it). Only a strictly smaller, non-empty output is committed,
/// and not once cancellation is requested.
pub fn size_verdict(original: Option<u64>, partial: Result<u64, String>, cancel_requested: bool) -> (v: SizeVerdict)
    ensures
        original is None ==> (v matches SizeVerdict::Finish { outcome: PdfEncodeOutcome::Failed(e), discard_partial }
            && discard_partial && e.is(ErrorKind::FileNotFound, "Source PDF is no longer available"@)),
        original is Some ==> (partial matches Err(t) ==> (v matches SizeVerdict::Finish {
            outcome: PdfEncodeOutcome::Failed(e), discard_partial } && !discard_partial
            && e.is(ErrorKind::WriteFailed, "Could not read optimized output: "@ + t@))),
        original is Some ==> (partial == Ok::<u64, String>(0) ==> (v matches SizeVerdict::Finish {
            outcome: PdfEncodeOutcome::Failed(e), discard_partial } && discard_partial
            && e.is(ErrorKind::WriteFailed, "PDF engine produced an empty output"@))),
        original matches Some(o) ==> (partial matches Ok(p) ==> (p > 0 && p >= o ==> (
            v matches SizeVerdict::Finish { outcome: PdfEncodeOutcome::AlreadyOptimized, discard_partial } && discard_partial))),
        original matches Some(o) ==> (partial matches Ok(p) ==> (0 < p < o && cancel_requested ==> (
            v matches SizeVerdict::Finish { outcome: PdfEncodeOutcome::Canceled, discard_partial } && discard_partial))),
        original matches Some(o) ==> (partial matches Ok(p) ==> (0 < p < o && !cancel_requested ==>
            v == (SizeVerdict::Commit { output_size: p }))),
{
    let original_size = match original {
        None => return SizeVerdict::Finish {
            outcome: PdfEncodeOutcome::Failed(ProcessingError::file_not_found("Source PDF is no longer available")),
            discard_partial: true,
        },
        Some(o) => o,
    };
    let partial_size = match partial {
        Err(t) => return SizeVerdict::Finish {
            outcome: PdfEncodeOutcome::Failed(
                prefixed_failure(ErrorKind::WriteFailed, "Could not read optimized output: ", t.as_str()),
            ),
            discard_partial: false,
        },
        Ok(p) => p,
    };
    match commit_decision(original_size, partial_size) {
        CommitDecision::Fail(e) => SizeVerdict::Finish { outcome: PdfEncodeOutcome::Failed(e), discard_partial: true },
        CommitDecision::AlreadyOptimized => SizeVerdict::Finish {
            outcome: PdfEncodeOutcome::AlreadyOptimized,
            discard_partial: true,
        },
        CommitDecision::Commit => {
            if cancel_requested {
                SizeVerdict::Finish { outcome: PdfEncodeOutcome::Canceled, discard_partial: true }
            } else {
                SizeVerdict::Commit { output_size: partial_size }
            }
        },
    }
}

/// The outcome after moving the committed output to its final path.
pub fn commit_verdict(renamed: Result<(), String>, final_path: &str, output_size: u64) -> (v: PdfEncodeOutcome)
    ensures
        renamed matches Err(t) ==> (v matches PdfEncodeOutcome::Failed(e)
            && e.is(ErrorKind::WriteFailed, finalize_message(final_path@, t@))),
        renamed is Ok ==> v == (PdfEncodeOutcome::Optimized { output_size }),
{
    match renamed {
        Err(t) => PdfEncodeOutcome::Failed(finalize_failure(final_path, t.as_str())),
        Ok(()) => PdfEncodeOutcome::Optimized { output_size },
    }
}

// ---------------------------------------------------------------------------
// Batch state
// ---------------------------------------------------------------------------

/// The number of items with an outcome.
pub open spec fn count_outcome(items: Seq<OptimizePdfFileResult>, outcome: PdfOptimizeOutcome) -> nat
    decreases items.len(),
{
    if items.len() == 0 {
        0
    } else {
        count_outcome(items.drop_last(), outcome) + if items.last().outcome == outcome { 1nat } else { 0nat }
    }
}

proof fn lemma_outcomes_partition(items: Seq<OptimizePdfFileResult>)
    ensures
        count_outcome(items, PdfOptimizeOutcome::Optimized) + count_outcome(items, PdfOptimizeOutcome::AlreadyOptimized)
            + count_outcome(items, PdfOptimizeOutcome::Failed) + count_outcome(items, PdfOptimizeOutcome::Canceled)
            == items.len(),
    decreases items.len(),
{
    if items.len() > 0 {
        lemma_outcomes_partition(items.drop_last());
    }
}

fn outcome_count(items: &Vec<OptimizePdfFileResult>, outcome: PdfOptimizeOutcome) -> (n: usize)
    ensures
        n as nat == count_outcome(items@, outcome),
        n <= items.len(),
{
    let mut n: usize = 0;
    let mut i: usize = 0;
    while i < items.len()
        invariant
            i <= items.len(),
            n <= i,
            n as nat == count_outcome(items@.take(i as int), outcome),
        decreases items.len() - i,
    {
        assert(items@.take(i + 1).drop_last() =~= items@.take(i as int));
        if items[i].outcome == outcome {
            n = n + 1;
        }
        i = i + 1;
    }
    assert(items@.take(items.len() as int) =~= items@);
    n
}

/// The state of a PDF optimization batch. Files are processed in order;
/// cancellation stops the batch, and files that never started are not
/// recorded while the requested total keeps counting them.
pub struct PdfBatch {
    items: Vec<OptimizePdfFileResult>,
    canceled: bool,
}

impl PdfBatch {
    pub closed spec fn items_view(&self) -> Seq<OptimizePdfFileResult> {
        self.items@
    }

    pub closed spec fn is_canceled(&self) -> bool {
        self.canceled
    }

    pub fn new() -> (b: Self)
        ensures
            b.items_view().len() == 0,
            !b.is_canceled(),
    {
        PdfBatch { items: Vec::new(), canceled: false }
    }

    /// Decides whether the next file may start: not after a cancellation,
    /// and not when a cancel was requested (which cancels the batch).
    pub fn start_next(&mut self, cancel_requested: bool) -> (go: bool)
        ensures
            go == (!old(self).is_canceled() && !cancel_requested),
            final(self).is_canceled() == (old(self).is_canceled() || cancel_requested),
            final(self).items_view() == old(self).items_view(),
    {
        if self.canceled || cancel_requested {
            self.canceled = true;
            false
        } else {
            true
        }
    }

    fn push_item(&mut self, item: OptimizePdfFileResult)
        ensures
            final(self).items_view() == old(self).items_view().push(item),
            final(self).is_canceled() == old(self).is_canceled(),
    {
        self.items.push(item);
    }

    /// Records a file whose optimized output was committed.
    pub fn record_optimized(&mut self, source_path: String, original_size: u64, output_path: String, output_size: u64)
        ensures
            final(self).is_canceled() == old(self).is_canceled(),
            final(self).items_view().drop_last() == old(self).items_view(),
            final(self).items_view().len() == old(self).items_view().len() + 1,
            final(self).items_view().last().outcome == PdfOptimizeOutcome::Optimized,
            final(self).items_view().last().source_path == source_path,
            final(self).items_view().last().original_size == original_size,
            final(self).items_view().last().warnings.is_none(),
            final(self).items_view().last().output_path == Some(output_path),
            final(self).items_view().last().output_size == Some(output_size),
            final(self).items_view().last().error.is_none(),
    {
        self.push_item(OptimizePdfFileResult {
            source_path,
            outcome: PdfOptimizeOutcome::Optimized,
            original_size,
            output_path: Some(output_path),
            output_size: Some(output_size),
            error: None,
            warnings: None,
        });
        assert(self.items@.drop_last() =~= old(self).items@);
    }

    /// Records a file whose output was not smaller than the source.
    pub fn record_already_optimized(&mut self, source_path: String, original_size: u64)
        ensures
            final(self).is_canceled() == old(self).is_canceled(),
            final(self).items_view().drop_last() == old(self).items_view(),
            final(self).items_view().len() == old(self).items_view().len() + 1,
            final(self).items_view().last().outcome == PdfOptimizeOutcome::AlreadyOptimized,
            final(self).items_view().last().source_path == source_path,
            final(self).items_view().last().original_size == original_size,
            final(self).items_view().last().output_path.is_none(),
            final(self).items_view().last().output_size.is_none(),
            final(self).items_view().last().warnings.is_none(),
            final(self).items_view().last().error.is_none(),
    {
        self.push_item(OptimizePdfFileResult {
            source_path,
            outcome: PdfOptimizeOutcome::AlreadyOptimized,
            original_size,
            output_path: None,
            output_size: None,
            error: None,
            warnings: None,
        });
        assert(self.items@.drop_last() =~= old(self).items@);
    }

    /// Records a file that failed; the batch goes on.
    pub fn record_failure(&mut self, source_path: String, original_size: u64, error: ProcessingError)
        ensures
            final(self).is_canceled() == old(self).is_canceled(),
            final(self).items_view().drop_last() == old(self).items_view(),
            final(self).items_view().len() == old(self).items_view().len() + 1,
            final(self).items_view().last().outcome == PdfOptimizeOutcome::Failed,
            final(self).items_view().last().source_path == source_path,
            final(self).items_view().last().original_size == original_size,
            final(self).items_view().last().output_path.is_none(),
            final(self).items_view().last().output_size.is_none(),
            final(self).items_view().last().warnings.is_none(),
            final(self).items_view().last().error matches Some(dto) && dto.code@ == code_of(error.kind())
                && dto.message@ == error.message_view(),
    {
        self.push_item(OptimizePdfFileResult {
            source_path,
            outcome: PdfOptimizeOutcome::Failed,
            original_size,
            output_path: None,
            output_size: None,
            error: Some(error.into_dto()),
            warnings: None,
        });
        assert(self.items@.drop_last() =~= old(self).items@);
    }

    /// Records the file that was stopped by cancellation and cancels the batch.
    pub fn record_canceled(&mut self, source_path: String, original_size: u64)
        ensures
            final(self).is_canceled(),
            final(self).items_view().drop_last() == old(self).items_view(),
            final(self).items_view().len() == old(self).items_view().len() + 1,
            final(self).items_view().last().outcome == PdfOptimizeOutcome::Canceled,
            final(self).items_view().last().source_path == source_path,
            final(self).items_view().last().original_size == original_size,
            final(self).items_view().last().output_path.is_none(),
            final(self).items_view().last().output_size.is_none(),
            final(self).items_view().last().warnings.is_none(),
            final(self).items_view().last().error matches Some(dto) && dto.code@ == canceled_code(),
    {
        self.push_item(OptimizePdfFileResult {
            source_path,
            outcome: PdfOptimizeOutcome::Canceled,
            original_size,
            output_path: None,
            output_size: None,
            error: Some(ProcessingErrorDto::canceled()),
            warnings: None,
        });
        self.canceled = true;
        assert(self.items@.drop_last() =~= old(self).items@);
    }

    /// The batch result: the status, the requested total, and the recorded
    /// files counted by outcome.
    pub fn finish(self, total_requested: u32) -> (r: OptimizePdfBatchResult)
        requires
            self.items_view().len() <= u32::MAX,
        ensures
            r.items@ == self.items_view(),
            r.status == (if self.is_canceled() { PdfOptimizeBatchStatus::Canceled } else { PdfOptimizeBatchStatus::Completed }),
            r.total == total_requested,
            r.optimized as nat == count_outcome(self.items_view(), PdfOptimizeOutcome::Optimized),
            r.already_optimized as nat == count_outcome(self.items_view(), PdfOptimizeOutcome::AlreadyOptimized),
            r.failed as nat == count_outcome(self.items_view(), PdfOptimizeOutcome::Failed),
    {
        let status = if self.canceled { PdfOptimizeBatchStatus::Canceled } else { PdfOptimizeBatchStatus::Completed };
        let optimized = outcome_count(&self.items, PdfOptimizeOutcome::Optimized);
        let already = outcome_count(&self.items, PdfOptimizeOutcome::AlreadyOptimized);
        let failed = outcome_count(&self.items, PdfOptimizeOutcome::Failed);
        OptimizePdfBatchResult {
            status,
            total: total_requested,
            optimized: optimized as u32,
            already_optimized: already as u32,
            failed: failed as u32,
            items: self.items,
        }
    }
}

/// Every recorded file is counted under exactly one outcome; canceled files
/// are the recorded ones that are neither optimized, already optimized nor
/// failed.
pub proof fn law_pdf_outcomes_partition_items(items: Seq<OptimizePdfFileResult>)
    ensures
        count_outcome(items, PdfOptimizeOutcome::Optimized) + count_outcome(items, PdfOptimizeOutcome::AlreadyOptimized)
            + count_outcome(items, PdfOptimizeOutcome::Failed) + count_outcome(items, PdfOptimizeOutcome::Canceled)
            == items.len(),
{
    lemma_outcomes_partition(items);
}

} // verus!
