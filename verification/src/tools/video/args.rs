//! Output sizing and the FFmpeg argument plan for one video encode.

use vstd::prelude::*;

use crate::models::{VideoOutputFormat, VideoQualityPreset, VideoResolutionPreset};
use crate::text::{dec, extend_owned, push_dec, push_owned, push_str, str_views, string_of, views};

use super::probe::ProbedVideo;

verus! {

/// Landscape bounding boxes of the resolution presets.
pub open spec fn preset_box(preset: VideoResolutionPreset) -> (u32, u32) {
    match preset {
        VideoResolutionPreset::P1080 => (1920, 1080),
        VideoResolutionPreset::P720 => (1280, 720),
        VideoResolutionPreset::P480 => (854, 480),
        VideoResolutionPreset::Original => (0, 0),
    }
}

/// The box oriented like the source: swapped for portrait sources.
pub open spec fn oriented_box(w: u32, h: u32, landscape: (u32, u32)) -> (u32, u32) {
    if w >= h { landscape } else { (landscape.1, landscape.0) }
}

/// `n / d` rounded to the nearest integer, halves upward.
pub open spec fn round_div_spec(n: int, d: int) -> int {
    (n + d / 2) / d
}

/// The source fitted inside the oriented box with aspect ratio preserved and
/// no upscaling: a source already inside the box is kept; otherwise the
/// limiting side takes the box size and the other side is scaled with
/// rounding, never below 2 pixels.
pub open spec fn fit_to_box_spec(w: u32, h: u32, landscape: (u32, u32)) -> (u32, u32) {
    let (bw, bh) = oriented_box(w, h, landscape);
    if w <= bw && h <= bh {
        (w, h)
    } else if w as int * bh as int >= h as int * bw as int {
        let scaled = round_div_spec(h as int * bw as int, w as int);
        (bw, if scaled < 2 { 2 } else { scaled as u32 })
    } else {
        let scaled = round_div_spec(w as int * bh as int, h as int);
        (if scaled < 2 { 2 } else { scaled as u32 }, bh)
    }
}

/// The largest even number not above `v`.
pub open spec fn even_down_spec(v: u32) -> u32 {
    (v - v % 2) as u32
}

/// The preset target before evening.
pub open spec fn preset_target(w: u32, h: u32, preset: VideoResolutionPreset) -> (u32, u32) {
    match preset {
        VideoResolutionPreset::Original => (w, h),
        _ => fit_to_box_spec(w, h, preset_box(preset)),
    }
}

/// The encoder dimensions for a preset: the preset target rounded down to
/// even sizes, or `None` when that equals the source.
pub open spec fn output_dimensions_spec(w: u32, h: u32, preset: VideoResolutionPreset) -> Option<(u32, u32)> {
    let t = preset_target(w, h, preset);
    let even = (even_down_spec(t.0), even_down_spec(t.1));
    if even == (w, h) { None } else { Some(even) }
}

pub fn round_div(numerator: u64, denominator: u64) -> (r: u64)
    requires
        denominator > 0,
        numerator + denominator / 2 <= u64::MAX,
    ensures
        r as int == round_div_spec(numerator as int, denominator as int),
{
    (numerator + denominator / 2) / denominator
}

pub fn even_down(value: u32) -> (r: u32)
    ensures
        r == even_down_spec(value),
{
    let r = value & !1u32;
    assert(value & !1u32 == value - value % 2) by (bit_vector);
    r
}

/// Fits the visible source inside an orientation-aware box without upscaling.
fn fit_to_box(visible_w: u32, visible_h: u32, box_landscape: (u32, u32)) -> (r: (u32, u32))
    requires
        box_landscape.0 > 0,
        box_landscape.1 > 0,
    ensures
        r == fit_to_box_spec(visible_w, visible_h, box_landscape),
{
    let (box_w, box_h) = if visible_w >= visible_h {
        box_landscape
    } else {
        (box_landscape.1, box_landscape.0)
    };
    if visible_w <= box_w && visible_h <= box_h {
        return (visible_w, visible_h);
    }
    proof {
        lemma_mul_fits(visible_w, box_h);
        lemma_mul_fits(visible_h, box_w);
    }
    let wb = visible_w as u64 * box_h as u64;
    let hb = visible_h as u64 * box_w as u64;
    if wb >= hb {
        proof {
            lemma_limiting_side(visible_w as int, visible_h as int, box_w as int, box_h as int);
        }
        let scaled = round_div(hb, visible_w as u64);
        proof {
            lemma_scaled_not_larger(visible_h as int, box_w as int, visible_w as int, scaled as int);
        }
        let height = scaled as u32;
        (box_w, if height < 2 { 2 } else { height })
    } else {
        proof {
            lemma_limiting_side(visible_h as int, visible_w as int, box_h as int, box_w as int);
        }
        let scaled = round_div(wb, visible_h as u64);
        proof {
            lemma_scaled_not_larger(visible_w as int, box_h as int, visible_h as int, scaled as int);
        }
        let width = scaled as u32;
        (if width < 2 { 2 } else { width }, box_h)
    }
}

proof fn lemma_mul_fits(a: u32, b: u32)
    ensures
        a as int * b as int + 0xFFFF_FFFF <= u64::MAX,
{
    assert(a as int * b as int <= 0xFFFF_FFFF * 0xFFFF_FFFF) by (nonlinear_arith)
        requires a <= 0xFFFF_FFFF, b <= 0xFFFF_FFFF, a >= 0, b >= 0;
    assert(0xFFFF_FFFFint * 0xFFFF_FFFFint + 0xFFFF_FFFF <= u64::MAX);
}

/// When the source does not fit and side `a` is the limiting one
/// (`a * bb >= b * ba`), the box side `ba` is strictly smaller than `a`.
proof fn lemma_limiting_side(a: int, b: int, ba: int, bb: int)
    requires
        a >= 0,
        b >= 0,
        ba > 0,
        bb > 0,
        !(a <= ba && b <= bb),
        a * bb >= b * ba,
    ensures
        ba < a,
{
    if a <= ba {
        assert(b > bb);
        assert(a * bb <= ba * bb) by (nonlinear_arith)
            requires a <= ba, bb > 0;
        assert(b * ba > bb * ba) by (nonlinear_arith)
            requires b > bb, ba > 0;
    }
}

/// Scaling `b` by `ba / a` with rounding, for `ba < a`, never exceeds `b`.
proof fn lemma_scaled_not_larger(b: int, ba: int, a: int, scaled: int)
    requires
        b >= 0,
        0 < ba < a,
        scaled == (b * ba + a / 2) / a,
    ensures
        0 <= scaled <= b,
{
    assert(b * ba <= b * (a - 1)) by (nonlinear_arith)
        requires b >= 0, ba <= a - 1;
    assert(b * ba + a / 2 < (b + 1) * a) by (nonlinear_arith)
        requires b * ba <= b * (a - 1), a > 0, b >= 0;
    assert((b * ba + a / 2) / a < b + 1) by (nonlinear_arith)
        requires b * ba + a / 2 < (b + 1) * a, a > 0, b * ba + a / 2 >= 0;
    assert((b * ba + a / 2) / a >= 0) by (nonlinear_arith)
        requires b * ba + a / 2 >= 0, a > 0;
}

/// Computes the output dimensions for a preset from the source's visible
/// dimensions.
///
/// Presets are orientation-aware bounding boxes (landscape, swapped for
/// portrait sources) with no upscaling. Returns `None` when no scaling is
/// needed (the source already matches the target); otherwise returns the
/// target rounded down to even dimensions.
pub fn compute_output_dimensions(
    visible_w: u32,
    visible_h: u32,
    preset: VideoResolutionPreset,
) -> (r: Option<(u32, u32)>)
    ensures
        r == output_dimensions_spec(visible_w, visible_h, preset),
{
    let target = match preset {
        VideoResolutionPreset::Original => (visible_w, visible_h),
        VideoResolutionPreset::P1080 => fit_to_box(visible_w, visible_h, (1920, 1080)),
        VideoResolutionPreset::P720 => fit_to_box(visible_w, visible_h, (1280, 720)),
        VideoResolutionPreset::P480 => fit_to_box(visible_w, visible_h, (854, 480)),
    };
    let even = (even_down(target.0), even_down(target.1));
    if even.0 == visible_w && even.1 == visible_h {
        None
    } else {
        Some(even)
    }
}


/// Everything the FFmpeg invocation needs, derived only from typed presets
/// and the probed source. `scale` is `None` when no `-vf` filter is needed.
pub struct EncodePlan {
    pub scale: Option<(u32, u32)>,
    pub video_args: Vec<&'static str>,
    pub audio_args: Vec<&'static str>,
    pub muxer_args: Vec<&'static str>,
    pub muxer_format: &'static str,
}

/// Pinned video codec arguments per format and quality.
pub open spec fn video_args_spec(format: VideoOutputFormat, quality: VideoQualityPreset) -> Seq<Seq<char>> {
    match format {
        VideoOutputFormat::Mp4 => {
            let (preset, crf) = match quality {
                VideoQualityPreset::High => ("slow"@, "18"@),
                VideoQualityPreset::Balanced => ("medium"@, "23"@),
                VideoQualityPreset::Small => ("veryfast"@, "28"@),
            };
            seq!["-c:v"@, "libx264"@, "-preset"@, preset, "-crf"@, crf, "-pix_fmt"@, "yuv420p"@]
        },
        VideoOutputFormat::Webm => {
            let (cpu, crf) = match quality {
                VideoQualityPreset::High => ("2"@, "24"@),
                VideoQualityPreset::Balanced => ("4"@, "31"@),
                VideoQualityPreset::Small => ("5"@, "38"@),
            };
            seq![
                "-c:v"@, "libvpx-vp9"@, "-deadline"@, "good"@, "-cpu-used"@, cpu, "-crf"@, crf,
                "-b:v"@, "0"@, "-row-mt"@, "1"@, "-pix_fmt"@, "yuv420p"@,
            ]
        },
    }
}

/// Pinned audio codec arguments per format and quality.
pub open spec fn audio_args_spec(format: VideoOutputFormat, quality: VideoQualityPreset) -> Seq<Seq<char>> {
    match format {
        VideoOutputFormat::Mp4 => {
            let rate = match quality {
                VideoQualityPreset::High => "192k"@,
                VideoQualityPreset::Balanced => "128k"@,
                VideoQualityPreset::Small => "96k"@,
            };
            seq!["-c:a"@, "aac"@, "-b:a"@, rate]
        },
        VideoOutputFormat::Webm => {
            let rate = match quality {
                VideoQualityPreset::High => "160k"@,
                VideoQualityPreset::Balanced => "128k"@,
                VideoQualityPreset::Small => "96k"@,
            };
            seq!["-c:a"@, "libopus"@, "-b:a"@, rate]
        },
    }
}

pub open spec fn muxer_args_spec(format: VideoOutputFormat) -> Seq<Seq<char>> {
    match format {
        VideoOutputFormat::Mp4 => seq!["-movflags"@, "+faststart"@],
        VideoOutputFormat::Webm => Seq::empty(),
    }
}

pub open spec fn muxer_format_spec(format: VideoOutputFormat) -> Seq<char> {
    match format {
        VideoOutputFormat::Mp4 => "mp4"@,
        VideoOutputFormat::Webm => "webm"@,
    }
}

impl EncodePlan {
    /// The plan derived from the presets and the source's visible size.
    pub open spec fn matches(
        &self,
        format: VideoOutputFormat,
        quality: VideoQualityPreset,
        resolution: VideoResolutionPreset,
        probe: ProbedVideo,
    ) -> bool {
        let (w, h) = probe.visible_spec();
        &&& self.scale == output_dimensions_spec(w, h, resolution)
        &&& str_views(self.video_args@) == video_args_spec(format, quality)
        &&& str_views(self.audio_args@) == audio_args_spec(format, quality)
        &&& str_views(self.muxer_args@) == muxer_args_spec(format)
        &&& self.muxer_format@ == muxer_format_spec(format)
    }
}

fn push_all_str(v: &mut Vec<&'static str>, items: &[&'static str])
    ensures
        str_views(final(v)@) == str_views(old(v)@) + str_views(items@),
{
    let mut i: usize = 0;
    while i < items.len()
        invariant
            i <= items.len(),
            str_views(v@) == str_views(old(v)@) + str_views(items@).take(i as int),
        decreases items.len() - i,
    {
        let ghost before = v@;
        let item = items[i];
        v.push(item);
        assert(v@ == before.push(items@[i as int]));
        assert(str_views(v@) =~= str_views(before).push(items@[i as int]@));
        i = i + 1;
        assert(str_views(v@) =~= str_views(old(v)@) + str_views(items@).take(i as int));
    }
    assert(str_views(items@).take(items.len() as int) =~= str_views(items@));
}

/// Derives the encode plan from pinned per-format/quality preset tables.
pub fn build_plan(
    format: VideoOutputFormat,
    quality: VideoQualityPreset,
    resolution: VideoResolutionPreset,
    probe: &ProbedVideo,
) -> (plan: EncodePlan)
    ensures
        plan.matches(format, quality, resolution, *probe),
{
    let (visible_w, visible_h) = probe.visible_dimensions();
    let scale = compute_output_dimensions(visible_w, visible_h, resolution);
    let mut video_args: Vec<&'static str> = Vec::new();
    let mut audio_args: Vec<&'static str> = Vec::new();
    let mut muxer_args: Vec<&'static str> = Vec::new();
    let muxer_format: &'static str;
    match format {
        VideoOutputFormat::Mp4 => {
            let (preset, crf, rate): (&'static str, &'static str, &'static str) = match quality {
                VideoQualityPreset::High => ("slow", "18", "192k"),
                VideoQualityPreset::Balanced => ("medium", "23", "128k"),
                VideoQualityPreset::Small => ("veryfast", "28", "96k"),
            };
            push_all_str(&mut video_args, &["-c:v", "libx264", "-preset", preset, "-crf", crf, "-pix_fmt", "yuv420p"]);
            push_all_str(&mut audio_args, &["-c:a", "aac", "-b:a", rate]);
            push_all_str(&mut muxer_args, &["-movflags", "+faststart"]);
            muxer_format = "mp4";
        },
        VideoOutputFormat::Webm => {
            let (cpu, crf, rate): (&'static str, &'static str, &'static str) = match quality {
                VideoQualityPreset::High => ("2", "24", "160k"),
                VideoQualityPreset::Balanced => ("4", "31", "128k"),
                VideoQualityPreset::Small => ("5", "38", "96k"),
            };
            push_all_str(
                &mut video_args,
                &[
                    "-c:v", "libvpx-vp9", "-deadline", "good", "-cpu-used", cpu, "-crf", crf,
                    "-b:v", "0", "-row-mt", "1", "-pix_fmt", "yuv420p",
                ],
            );
            push_all_str(&mut audio_args, &["-c:a", "libopus", "-b:a", rate]);
            muxer_format = "webm";
        },
    }
    let plan = EncodePlan { scale, video_args, audio_args, muxer_args, muxer_format };
    assert(str_views(plan.video_args@) =~= video_args_spec(format, quality));
    assert(str_views(plan.audio_args@) =~= audio_args_spec(format, quality));
    assert(str_views(plan.muxer_args@) =~= muxer_args_spec(format));
    plan
}

/// The `scale=W:H` filter value.
pub open spec fn scale_filter(w: u32, h: u32) -> Seq<char> {
    "scale="@ + dec(w as nat) + ":"@ + dec(h as nat)
}

/// The complete FFmpeg argument list for encoding `input` to `partial`.
pub open spec fn ffmpeg_args_spec(
    format: VideoOutputFormat,
    quality: VideoQualityPreset,
    resolution: VideoResolutionPreset,
    probe: ProbedVideo,
    input: Seq<char>,
    partial: Seq<char>,
) -> Seq<Seq<char>> {
    let (w, h) = probe.visible_spec();
    let head = seq![
        "-hide_banner"@, "-nostdin"@, "-y"@, "-v"@, "error"@, "-i"@, input,
        "-map"@, "0:V:0"@, "-map"@, "0:a:0?"@,
    ];
    let filter = match output_dimensions_spec(w, h, resolution) {
        Some((sw, sh)) => seq!["-vf"@, scale_filter(sw, sh)],
        None => Seq::empty(),
    };
    head + filter + video_args_spec(format, quality) + audio_args_spec(format, quality)
        + seq!["-map_metadata"@, "0"@] + muxer_args_spec(format)
        + seq!["-f"@, muxer_format_spec(format), "-progress"@, "pipe:1"@, "-nostats"@, partial]
}

/// Builds the full FFmpeg argument list for encoding one file to a partial
/// output path. `-map 0:V:0` always selects the first real video stream
/// (cover art excluded); `-map 0:a:0?` optionally selects the first audio
/// stream.
pub fn build_ffmpeg_args(
    presets: (VideoOutputFormat, VideoQualityPreset, VideoResolutionPreset),
    probe: &ProbedVideo,
    input: &str,
    partial_output: &str,
) -> (args: Vec<String>)
    ensures
        views(args@) == ffmpeg_args_spec(presets.0, presets.1, presets.2, *probe, input@, partial_output@),
{
    let (format, quality, resolution) = presets;
    let plan = build_plan(format, quality, resolution, probe);
    let mut args: Vec<String> = Vec::new();
    extend_owned(&mut args, &vec!["-hide_banner", "-nostdin", "-y", "-v", "error", "-i"]);
    push_owned(&mut args, input);
    extend_owned(&mut args, &vec!["-map", "0:V:0", "-map", "0:a:0?"]);
    let ghost head = views(args@);
    if let Some((width, height)) = plan.scale {
        push_owned(&mut args, "-vf");
        let mut filter: Vec<char> = Vec::new();
        push_str(&mut filter, "scale=");
        push_dec(&mut filter, width as u64);
        filter.push(':');
        proof {
            reveal_strlit(":");
        }
        push_dec(&mut filter, height as u64);
        assert(filter@ =~= scale_filter(width, height));
        let value = string_of(&filter);
        let ghost before = args@;
        args.push(value);
        assert(args@ == before.push(value));
        assert(views(args@) =~= views(before).push(value@));
        assert(views(args@) =~= head + seq!["-vf"@, scale_filter(width, height)]);
    }
    extend_owned(&mut args, &plan.video_args);
    extend_owned(&mut args, &plan.audio_args);
    extend_owned(&mut args, &vec!["-map_metadata", "0"]);
    extend_owned(&mut args, &plan.muxer_args);
    push_owned(&mut args, "-f");
    push_owned(&mut args, plan.muxer_format);
    extend_owned(&mut args, &vec!["-progress", "pipe:1", "-nostats"]);
    push_owned(&mut args, partial_output);
    assert(views(args@) =~= ffmpeg_args_spec(format, quality, resolution, *probe, input@, partial_output@));
    args
}


/// The encoded size: the resized dimensions, or the source when no scaling applies.
pub open spec fn encoded_size(w: u32, h: u32, preset: VideoResolutionPreset) -> (u32, u32) {
    match output_dimensions_spec(w, h, preset) {
        Some(d) => d,
        None => (w, h),
    }
}

/// Whenever a resize is emitted, both dimensions are even.
pub proof fn law_resized_dimensions_are_even(w: u32, h: u32, preset: VideoResolutionPreset)
    ensures
        output_dimensions_spec(w, h, preset) matches Some((a, b)) ==> a % 2 == 0 && b % 2 == 0,
{
}

/// Scaling `b` by a factor `ba / a` with `b * ba <= a * bb` stays within `bb`.
proof fn lemma_scaled_within_box(b: int, ba: int, a: int, bb: int)
    requires
        b >= 0,
        ba > 0,
        a > 0,
        bb >= 0,
        b * ba <= a * bb,
    ensures
        (b * ba + a / 2) / a <= bb,
{
    assert(b * ba + a / 2 < (bb + 1) * a) by (nonlinear_arith)
        requires b * ba <= a * bb, a > 0;
    assert((b * ba + a / 2) / a < bb + 1) by (nonlinear_arith)
        requires b * ba + a / 2 < (bb + 1) * a, a > 0, b * ba + a / 2 >= 0;
}

/// For a sized preset the encoded video fits the preset box oriented like the
/// source (portrait sources use the swapped box).
pub proof fn law_encoded_size_fits_oriented_box(w: u32, h: u32, preset: VideoResolutionPreset)
    requires
        preset != VideoResolutionPreset::Original,
    ensures
        encoded_size(w, h, preset).0 <= oriented_box(w, h, preset_box(preset)).0,
        encoded_size(w, h, preset).1 <= oriented_box(w, h, preset_box(preset)).1,
{
    let (bw, bh) = oriented_box(w, h, preset_box(preset));
    if !(w <= bw && h <= bh) {
        if w as int * bh as int >= h as int * bw as int {
            lemma_scaled_within_box(h as int, bw as int, w as int, bh as int);
        } else {
            lemma_scaled_within_box(w as int, bh as int, h as int, bw as int);
        }
    }
}

/// Sources of at least 2×2 pixels are never upscaled.
pub proof fn law_never_upscales(w: u32, h: u32, preset: VideoResolutionPreset)
    requires
        w >= 2,
        h >= 2,
    ensures
        encoded_size(w, h, preset).0 <= w,
        encoded_size(w, h, preset).1 <= h,
{
    if preset != VideoResolutionPreset::Original {
        let (bw, bh) = oriented_box(w, h, preset_box(preset));
        if !(w <= bw && h <= bh) {
            if w as int * bh as int >= h as int * bw as int {
                lemma_limiting_side(w as int, h as int, bw as int, bh as int);
                lemma_scaled_not_larger(h as int, bw as int, w as int, round_div_spec(h as int * bw as int, w as int));
            } else {
                lemma_limiting_side(h as int, w as int, bh as int, bw as int);
                lemma_scaled_not_larger(w as int, bh as int, h as int, round_div_spec(w as int * bh as int, h as int));
            }
        }
    }
}

/// `q` is `n / d` rounded to the nearest integer, halves upward.
pub open spec fn is_rounded_quotient(q: int, n: int, d: int) -> bool {
    q * d <= n + d / 2 < (q + 1) * d
}

/// `e` is `v` floored to an even number.
pub open spec fn is_even_floor(e: int, v: int) -> bool {
    e % 2 == 0 && e <= v < e + 2
}

proof fn lemma_rounded_quotient(q: int, n: int, d: int)
    requires
        d > 0,
        n >= 0,
        is_rounded_quotient(q, n, d),
    ensures
        round_div_spec(n, d) == q,
{
    assert((n + d / 2) / d == q) by (nonlinear_arith)
        requires q * d <= n + d / 2, n + d / 2 < (q + 1) * d, d > 0, n + d / 2 >= 0;
}

/// A sized preset that scales a source whose width is the limiting side
/// keeps the aspect ratio: the encoded width is the box width, and the
/// encoded height is the source height scaled by the same factor
/// (`h · bw / w`, rounded to the nearest pixel, at least 2), floored to
/// an even size.
pub proof fn law_width_limited_scaling_keeps_aspect_ratio(
    w: u32,
    h: u32,
    preset: VideoResolutionPreset,
    bw: u32,
    bh: u32,
    q: int,
)
    requires
        preset != VideoResolutionPreset::Original,
        (bw, bh) == oriented_box(w, h, preset_box(preset)),
        !(w <= bw && h <= bh),
        w as int * bh as int >= h as int * bw as int,
        is_rounded_quotient(q, h as int * bw as int, w as int),
    ensures
        encoded_size(w, h, preset).0 == bw,
        is_even_floor(encoded_size(w, h, preset).1 as int, if q < 2 { 2 } else { q }),
{
    lemma_limiting_side(w as int, h as int, bw as int, bh as int);
    assert(h as int * bw as int >= 0) by (nonlinear_arith)
        requires h >= 0, bw >= 0;
    lemma_rounded_quotient(q, h as int * bw as int, w as int);
    lemma_scaled_not_larger(h as int, bw as int, w as int, q);
}

/// A sized preset that scales a source whose height is the limiting side
/// keeps the aspect ratio: the encoded height is the box height, and the
/// encoded width is the source width scaled by the same factor
/// (`w · bh / h`, rounded to the nearest pixel, at least 2), floored to
/// an even size.
pub proof fn law_height_limited_scaling_keeps_aspect_ratio(
    w: u32,
    h: u32,
    preset: VideoResolutionPreset,
    bw: u32,
    bh: u32,
    q: int,
)
    requires
        preset != VideoResolutionPreset::Original,
        (bw, bh) == oriented_box(w, h, preset_box(preset)),
        !(w <= bw && h <= bh),
        (w as int * bh as int) < h as int * bw as int,
        is_rounded_quotient(q, w as int * bh as int, h as int),
    ensures
        encoded_size(w, h, preset).1 == bh,
        is_even_floor(encoded_size(w, h, preset).0 as int, if q < 2 { 2 } else { q }),
{
    lemma_limiting_side(h as int, w as int, bh as int, bw as int);
    assert(w as int * bh as int >= 0) by (nonlinear_arith)
        requires w >= 0, bh >= 0;
    lemma_rounded_quotient(q, w as int * bh as int, h as int);
    lemma_scaled_not_larger(w as int, bh as int, h as int, q);
}

/// A source that already fits the oriented box keeps its size, floored to
/// even sides: a sized preset never scales it.
pub proof fn law_fitting_source_keeps_its_size(w: u32, h: u32, preset: VideoResolutionPreset)
    requires
        preset != VideoResolutionPreset::Original,
        w <= oriented_box(w, h, preset_box(preset)).0,
        h <= oriented_box(w, h, preset_box(preset)).1,
    ensures
        is_even_floor(encoded_size(w, h, preset).0 as int, w as int),
        is_even_floor(encoded_size(w, h, preset).1 as int, h as int),
{
}

} // verus!
