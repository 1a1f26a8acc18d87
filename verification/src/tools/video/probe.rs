//! The probed shape of a video source and the interpretation of an ffprobe
//! stream report.

use vstd::prelude::*;

use crate::errors::{ErrorKind, ProcessingError};
use crate::text::{ascii_lower, chars_eq_str, chars_of, lower_chars, push_owned, views};

verus! {

/// The paths of the bundled FFmpeg executables.
#[derive(Debug, Clone)]
pub struct VideoBinaries {
    pub ffmpeg: String,
    pub ffprobe: String,
}

/// The ffprobe arguments for a JSON report of the format and all streams
/// of `path`.
pub open spec fn ffprobe_args_spec(path: Seq<char>) -> Seq<Seq<char>> {
    seq!["-v"@, "error"@, "-print_format"@, "json"@, "-show_format"@, "-show_streams"@, path]
}

pub fn ffprobe_args(path: &str) -> (args: Vec<String>)
    ensures
        views(args@) == ffprobe_args_spec(path@),
{
    let mut args: Vec<String> = Vec::new();
    push_owned(&mut args, "-v");
    push_owned(&mut args, "error");
    push_owned(&mut args, "-print_format");
    push_owned(&mut args, "json");
    push_owned(&mut args, "-show_format");
    push_owned(&mut args, "-show_streams");
    push_owned(&mut args, path);
    assert(views(args@) =~= ffprobe_args_spec(path@));
    args
}

/// What encoding decisions need to know about a source video.
#[derive(Debug, Clone, PartialEq, Eq)]
pub struct ProbedVideo {
    /// Coded (stored) dimensions of the first real video stream.
    pub width: u32,
    pub height: u32,
    /// Rotation in degrees from the display matrix or legacy tag (0 when absent).
    pub rotation: i32,
    pub has_audio: bool,
    pub audio_stream_count: usize,
    pub subtitle_stream_count: usize,
    pub attachment_stream_count: usize,
    pub data_stream_count: usize,
}

/// `true` when a rotation of `degrees` is a quarter or three-quarter turn.
pub open spec fn is_quarter_turn(degrees: int) -> bool {
    degrees % 360 == 90 || degrees % 360 == 270
}

impl ProbedVideo {
    /// The dimensions as displayed: width and height swap for a rotation of
    /// ±90 or ±270 degrees (modulo full turns).
    pub open spec fn visible_spec(&self) -> (u32, u32) {
        if is_quarter_turn(self.rotation as int) {
            (self.height, self.width)
        } else {
            (self.width, self.height)
        }
    }

    pub fn visible_dimensions(&self) -> (d: (u32, u32))
        ensures
            d == self.visible_spec(),
    {
        let r = self.rotation;
        let rem = r % 360;
        let normalized = (rem + 360) % 360;
        proof {
            lemma_rust_rem_normalizes(r as int, rem as int, normalized as int);
        }
        if normalized == 90 || normalized == 270 {
            (self.height, self.width)
        } else {
            (self.width, self.height)
        }
    }
}

/// Rust's truncating remainder, shifted by a full turn and reduced again,
/// equals the mathematical (Euclidean) remainder.
proof fn lemma_rust_rem_normalizes(r: int, rem: int, normalized: int)
    requires
        -2147483648 <= r <= 2147483647,
        rem == (if r >= 0 { r % 360 } else { -((-r) % 360) }),
        normalized == (rem + 360) % 360,
    ensures
        normalized == r % 360,
{
    if r < 0 {
        let m = (-r) % 360;
        assert((-r) == 360 * ((-r) / 360) + m);
        if m == 0 {
            assert(r == 360 * (-((-r) / 360)));
            assert(r % 360 == 0) by (nonlinear_arith)
                requires r == 360 * (-((-r) / 360));
        } else {
            assert(r == 360 * (-((-r) / 360) - 1) + (360 - m));
            assert(r % 360 == 360 - m) by (nonlinear_arith)
                requires r == 360 * (-((-r) / 360) - 1) + (360 - m), 0 < m < 360;
        }
    }
}

/// Visible dimensions depend only on the rotation modulo a full turn, and
/// swapping happens exactly for quarter turns.
pub proof fn law_visible_dimensions_turn_invariant(v: ProbedVideo, w: ProbedVideo)
    requires
        v.width == w.width,
        v.height == w.height,
        (v.rotation as int) % 360 == (w.rotation as int) % 360,
    ensures
        v.visible_spec() == w.visible_spec(),
        v.visible_spec().0 as int * v.visible_spec().1 as int == v.width as int * v.height as int,
{
    assert(v.width as int * v.height as int == v.height as int * v.width as int) by (nonlinear_arith);
}


/// One stream of an ffprobe report, reduced to the fields the decisions read.
/// Rotation values are given already parsed (`None` when absent or unparsable).
#[derive(Debug, Clone)]
pub struct ProbeStream {
    pub codec_type: Option<String>,
    /// `disposition.attached_pic`, when it is an integer.
    pub attached_pic: Option<i64>,
    pub coded_width: Option<u64>,
    pub width: Option<u64>,
    pub coded_height: Option<u64>,
    pub height: Option<u64>,
    /// `side_data_list[].rotation`, in list order.
    pub side_data_rotations: Vec<Option<i32>>,
    /// The legacy `tags.rotate` value.
    pub tag_rotation: Option<i32>,
}

/// An ffprobe report: its `streams` array, when present.
#[derive(Debug, Clone)]
pub struct ProbeReport {
    pub streams: Option<Vec<ProbeStream>>,
}

pub open spec fn codec_is(s: ProbeStream, kind: Seq<char>) -> bool {
    s.codec_type matches Some(c) && c@ == kind
}

/// A real video stream: a video stream that is not cover art.
pub open spec fn is_real_video(s: ProbeStream) -> bool {
    codec_is(s, "video"@) && !(s.attached_pic == Some(1i64))
}

/// The number of streams of a codec type.
pub open spec fn count_codec(streams: Seq<ProbeStream>, kind: Seq<char>) -> nat
    decreases streams.len(),
{
    if streams.len() == 0 {
        0
    } else {
        count_codec(streams.drop_last(), kind) + if codec_is(streams.last(), kind) { 1nat } else { 0nat }
    }
}

/// `i` is the first real video stream.
pub open spec fn first_real_video(streams: Seq<ProbeStream>, i: int) -> bool {
    0 <= i < streams.len() && is_real_video(streams[i])
        && forall|j: int| 0 <= j < i ==> !is_real_video(#[trigger] streams[j])
}

/// A dimension: the coded value when positive, else the display value, else
/// 0, truncated to 32 bits.
pub open spec fn dimension_spec(coded: Option<u64>, plain: Option<u64>) -> u32 {
    let v: u64 = match coded {
        Some(c) => if c > 0 { c } else { match plain { Some(p) => p, None => 0 } },
        None => match plain { Some(p) => p, None => 0 },
    };
    v as u32
}

/// The first parsable rotation: side data first, then the legacy tag, else 0.
pub open spec fn rotation_spec(s: ProbeStream) -> i32 {
    let side = s.side_data_rotations@;
    if exists|i: int| 0 <= i < side.len() && side[i] is Some {
        let i = choose|i: int| 0 <= i < side.len() && side[i] is Some
            && forall|j: int| 0 <= j < i ==> side[j] is None;
        side[i]->0
    } else {
        match s.tag_rotation {
            Some(r) => r,
            None => 0,
        }
    }
}

pub open spec fn invalid_video_message() -> Seq<char> {
    "This video could not be inspected"@
}

/// What a report yields: the first real video stream's dimensions and
/// rotation and the per-type stream counts, or the reason it is not a
/// usable video.
pub open spec fn probe_result_ok(streams: Seq<ProbeStream>, v: ProbedVideo) -> bool {
    exists|i: int| #![trigger streams[i]] first_real_video(streams, i)
        && v.width == dimension_spec(streams[i].coded_width, streams[i].width)
        && v.height == dimension_spec(streams[i].coded_height, streams[i].height)
        && v.width > 0 && v.height > 0
        && v.rotation == rotation_spec(streams[i])
        && v.audio_stream_count as nat == count_codec(streams, "audio"@)
        && v.subtitle_stream_count as nat == count_codec(streams, "subtitle"@)
        && v.attachment_stream_count as nat == count_codec(streams, "attachment"@)
        && v.data_stream_count as nat == count_codec(streams, "data"@)
        && v.has_audio == (count_codec(streams, "audio"@) > 0)
}

fn dimension(coded: Option<u64>, plain: Option<u64>) -> (d: u32)
    ensures
        d == dimension_spec(coded, plain),
{
    let v: u64 = match coded {
        Some(c) => if c > 0 { c } else { match plain { Some(p) => p, None => 0 } },
        None => match plain { Some(p) => p, None => 0 },
    };
    v as u32
}

fn rotation(s: &ProbeStream) -> (r: i32)
    ensures
        r == rotation_spec(*s),
{
    let side = &s.side_data_rotations;
    let mut i: usize = 0;
    while i < side.len()
        invariant
            i <= side.len(),
            side@ == s.side_data_rotations@,
            forall|j: int| 0 <= j < i ==> side@[j] is None,
        decreases side.len() - i,
    {
        if let Some(r) = side[i] {
            proof {
                let c = choose|c: int| 0 <= c < side@.len() && side@[c] is Some
                    && forall|j: int| 0 <= j < c ==> side@[j] is None;
                if c < i as int {
                    assert(side@[c] is None);
                }
                if c > i as int {
                    assert(side@[i as int] is None);
                }
            }
            return r;
        }
        i = i + 1;
    }
    match s.tag_rotation {
        Some(r) => r,
        None => 0,
    }
}

fn codec_matches(s: &ProbeStream, kind: &str) -> (b: bool)
    ensures
        b == codec_is(*s, kind@),
{
    match &s.codec_type {
        Some(c) => {
            let cv = crate::text::chars_of(c.as_str());
            chars_eq_str(&cv, kind)
        },
        None => false,
    }
}

/// The index of the stream a report is read from: its first real video
/// stream, if any.
pub fn primary_video_stream(streams: &Vec<ProbeStream>) -> (r: Option<usize>)
    ensures
        match r {
            Some(i) => first_real_video(streams@, i as int),
            None => forall|j: int| 0 <= j < streams@.len() ==> !is_real_video(#[trigger] streams@[j]),
        },
{
    let mut i: usize = 0;
    while i < streams.len()
        invariant
            i <= streams.len(),
            forall|j: int| 0 <= j < i ==> !is_real_video(#[trigger] streams@[j]),
        decreases streams.len() - i,
    {
        let s = &streams[i];
        let attached = match s.attached_pic {
            Some(a) => a == 1,
            None => false,
        };
        if codec_matches(s, "video") && !attached {
            return Some(i);
        }
        i = i + 1;
    }
    None
}

/// Interprets an ffprobe report (`None` when the report is not valid JSON).
///
/// Cover art (`disposition.attached_pic == 1`) video streams are excluded; a
/// report without a real video stream, without a `streams` array, or whose
/// video has a zero dimension is invalid.
pub fn parse_probe_report(report: Option<ProbeReport>) -> (r: Result<ProbedVideo, ProcessingError>)
    ensures
        match report {
            None => r matches Err(e) && e.is(ErrorKind::InvalidVideo, invalid_video_message()),
            Some(rep) => match rep.streams {
                None => r matches Err(e) && e.is(ErrorKind::InvalidVideo, invalid_video_message()),
                Some(streams) => {
                    let ss = streams@;
                    if !(exists|i: int| 0 <= i < ss.len() && is_real_video(#[trigger] ss[i])) {
                        r matches Err(e) && e.is(ErrorKind::InvalidVideo, "No video stream found"@)
                    } else {
                        match r {
                            Ok(v) => probe_result_ok(ss, v),
                            Err(e) => e.is(ErrorKind::InvalidVideo, invalid_video_message())
                                && forall|i: int| #![trigger ss[i]] first_real_video(ss, i) ==> (
                                    dimension_spec(ss[i].coded_width, ss[i].width) == 0
                                    || dimension_spec(ss[i].coded_height, ss[i].height) == 0),
                        }
                    }
                },
            },
        },
{
    let report = match report {
        Some(rep) => rep,
        None => return Err(ProcessingError::invalid_video("This video could not be inspected")),
    };
    let streams = match report.streams {
        Some(s) => s,
        None => return Err(ProcessingError::invalid_video("This video could not be inspected")),
    };
    let mut video: Option<usize> = None;
    let mut audio: usize = 0;
    let mut subtitle: usize = 0;
    let mut attachment: usize = 0;
    let mut data: usize = 0;
    let mut i: usize = 0;
    while i < streams.len()
        invariant
            i <= streams.len(),
            audio as nat == count_codec(streams@.take(i as int), "audio"@),
            subtitle as nat == count_codec(streams@.take(i as int), "subtitle"@),
            attachment as nat == count_codec(streams@.take(i as int), "attachment"@),
            data as nat == count_codec(streams@.take(i as int), "data"@),
            audio <= i && subtitle <= i && attachment <= i && data <= i,
            match video {
                Some(v) => v < i && first_real_video(streams@, v as int),
                None => forall|j: int| 0 <= j < i ==> !is_real_video(#[trigger] streams@[j]),
            },
        decreases streams.len() - i,
    {
        let s = &streams[i];
        proof {
            assert(streams@.take(i + 1).drop_last() =~= streams@.take(i as int));
            assert(streams@.take(i + 1).last() == streams@[i as int]);
            reveal_strlit("video");
            reveal_strlit("audio");
            reveal_strlit("subtitle");
            reveal_strlit("attachment");
            reveal_strlit("data");
            assert("video"@[0] != "audio"@[0]);
            assert("video"@ != "audio"@);
            assert("video"@ != "subtitle"@);
            assert("video"@ != "attachment"@);
            assert("video"@ != "data"@);
            assert("audio"@ != "subtitle"@);
            assert("audio"@.len() == 5);
            assert("attachment"@.len() == 10);
            assert("subtitle"@.len() == 8);
            assert("audio"@ != "attachment"@);
            assert("audio"@ != "data"@);
            assert("subtitle"@ != "attachment"@);
            assert("subtitle"@ != "data"@);
            assert("attachment"@ != "data"@);
        }
        if codec_matches(s, "video") {
            let attached = match s.attached_pic {
                Some(a) => a == 1,
                None => false,
            };
            if !attached && video.is_none() {
                video = Some(i);
            }
        } else if codec_matches(s, "audio") {
            audio = audio + 1;
        } else if codec_matches(s, "subtitle") {
            subtitle = subtitle + 1;
        } else if codec_matches(s, "attachment") {
            attachment = attachment + 1;
        } else if codec_matches(s, "data") {
            data = data + 1;
        }
        i = i + 1;
    }
    proof {
        assert(streams@.take(streams@.len() as int) =~= streams@);
    }
    let index = match video {
        Some(v) => v,
        None => return Err(ProcessingError::invalid_video("No video stream found")),
    };
    let stream = &streams[index];
    let width = dimension(stream.coded_width, stream.width);
    let height = dimension(stream.coded_height, stream.height);
    if width == 0 || height == 0 {
        proof {
            assert forall|k: int| #![trigger streams@[k]] first_real_video(streams@, k) implies (
                dimension_spec(streams@[k].coded_width, streams@[k].width) == 0
                || dimension_spec(streams@[k].coded_height, streams@[k].height) == 0) by {
                if k < index as int {
                    assert(!is_real_video(streams@[k]));
                } else if k > index as int {
                    assert(!is_real_video(streams@[index as int]));
                }
            }
        }
        return Err(ProcessingError::invalid_video("This video could not be inspected"));
    }
    let v = ProbedVideo {
        width,
        height,
        rotation: rotation(stream),
        has_audio: audio > 0,
        audio_stream_count: audio,
        subtitle_stream_count: subtitle,
        attachment_stream_count: attachment,
        data_stream_count: data,
    };
    assert(probe_result_ok(streams@, v)) by {
        assert(first_real_video(streams@, index as int));
    }
    Ok(v)
}

// ---------------------------------------------------------------------------
// Input inspection
// ---------------------------------------------------------------------------

/// The video container extensions accepted as inputs.
pub open spec fn supported_video_extension_spec(lowered: Seq<char>) -> bool {
    lowered == "mp4"@ || lowered == "mov"@ || lowered == "mkv"@ || lowered == "webm"@ || lowered == "avi"@
}

/// Whether an input with this extension (any ASCII case) is a supported
/// video.
pub fn is_supported_video_extension(extension: &str) -> (b: bool)
    ensures
        b == supported_video_extension_spec(ascii_lower(extension@)),
{
    let e = lower_chars(&chars_of(extension));
    chars_eq_str(&e, "mp4") || chars_eq_str(&e, "mov") || chars_eq_str(&e, "mkv") || chars_eq_str(&e, "webm")
        || chars_eq_str(&e, "avi")
}

/// The checks before a video is probed, in order: supported extension,
/// existing file, non-empty, available engine.
pub open spec fn video_precheck_spec(extension: Seq<char>, exists: bool, size: u64, engine_available: bool) -> Result<(), Seq<char>> {
    if !supported_video_extension_spec(ascii_lower(extension)) {
        Err("Unsupported format"@)
    } else if !exists {
        Err("File not found"@)
    } else if size == 0 {
        Err("File is empty"@)
    } else if !engine_available {
        Err("Video engine is not available"@)
    } else {
        Ok(())
    }
}

pub open spec fn message_result(r: Result<(), String>) -> Result<(), Seq<char>> {
    match r {
        Ok(()) => Ok(()),
        Err(m) => Err(m@),
    }
}

pub fn video_precheck(extension: &str, exists: bool, size: u64, engine_available: bool) -> (r: Result<(), String>)
    ensures
        message_result(r) == video_precheck_spec(extension@, exists, size, engine_available),
{
    if !is_supported_video_extension(extension) {
        return Err("Unsupported format".to_owned());
    }
    if !exists {
        return Err("File not found".to_owned());
    }
    if size == 0 {
        return Err("File is empty".to_owned());
    }
    if !engine_available {
        return Err("Video engine is not available".to_owned());
    }
    Ok(())
}

} // verus!
