use toolbox::errors::ProcessingError;
use toolbox::models::{VideoOutputFormat, VideoQualityPreset, VideoResolutionPreset};
use toolbox::services::child::ChildRun;
use toolbox::services::jobs::JobRegistry;
use toolbox::tools::video::args::{build_ffmpeg_args, build_plan, compute_output_dimensions};
use toolbox::tools::video::probe::{
    ffprobe_args, is_supported_video_extension, parse_probe_report, primary_video_stream, video_precheck, ProbeReport,
    ProbeStream, ProbedVideo,
};
use toolbox::tools::video::process::{
    cancel_job, encode_run_verdict, exit_failure, finalize_verdict, invalid_output_failure,
    is_cancel_requested, omitted_stream_warnings, output_verdict, parse_progress_line, register_job,
    unregister_job, VideoBatch, VideoEncodeOutcome,
};

fn probed(width: u32, height: u32, rotation: i32) -> ProbedVideo {
    ProbedVideo {
        width,
        height,
        rotation,
        has_audio: true,
        audio_stream_count: 1,
        subtitle_stream_count: 0,
        attachment_stream_count: 0,
        data_stream_count: 0,
    }
}

fn plan_for(
    format: VideoOutputFormat,
    quality: VideoQualityPreset,
    resolution: VideoResolutionPreset,
    probe: &ProbedVideo,
) -> Vec<String> {
    build_ffmpeg_args((format, quality, resolution), probe, "C:/in/clip.mp4", "C:/out/clip.part-1.mp4")
}

// --- arguments ---

#[test]
fn mp4_balanced_args_match_pinned_table() {
    let args = plan_for(
        VideoOutputFormat::Mp4,
        VideoQualityPreset::Balanced,
        VideoResolutionPreset::Original,
        &probed(320, 240, 0),
    );
    assert_eq!(
        args,
        vec![
            "-hide_banner", "-nostdin", "-y", "-v", "error", "-i", "C:/in/clip.mp4", "-map", "0:V:0", "-map",
            "0:a:0?", "-c:v", "libx264", "-preset", "medium", "-crf", "23", "-pix_fmt", "yuv420p", "-c:a", "aac",
            "-b:a", "128k", "-map_metadata", "0", "-movflags", "+faststart", "-f", "mp4", "-progress", "pipe:1",
            "-nostats", "C:/out/clip.part-1.mp4",
        ]
    );
}

#[test]
fn webm_high_args_match_pinned_table() {
    let args = plan_for(
        VideoOutputFormat::Webm,
        VideoQualityPreset::High,
        VideoResolutionPreset::Original,
        &probed(320, 240, 0),
    );
    assert_eq!(
        args,
        vec![
            "-hide_banner", "-nostdin", "-y", "-v", "error", "-i", "C:/in/clip.mp4", "-map", "0:V:0", "-map",
            "0:a:0?", "-c:v", "libvpx-vp9", "-deadline", "good", "-cpu-used", "2", "-crf", "24", "-b:v", "0",
            "-row-mt", "1", "-pix_fmt", "yuv420p", "-c:a", "libopus", "-b:a", "160k", "-map_metadata", "0", "-f",
            "webm", "-progress", "pipe:1", "-nostats", "C:/out/clip.part-1.mp4",
        ]
    );
}

#[test]
fn every_format_quality_combo_matches_preset_table() {
    let base = probed(320, 240, 0);
    let cases = [
        (
            VideoOutputFormat::Mp4,
            VideoQualityPreset::High,
            vec!["-c:v", "libx264", "-preset", "slow", "-crf", "18", "-pix_fmt", "yuv420p", "-c:a", "aac", "-b:a", "192k"],
        ),
        (
            VideoOutputFormat::Mp4,
            VideoQualityPreset::Small,
            vec!["-c:v", "libx264", "-preset", "veryfast", "-crf", "28", "-pix_fmt", "yuv420p", "-c:a", "aac", "-b:a", "96k"],
        ),
        (
            VideoOutputFormat::Webm,
            VideoQualityPreset::Balanced,
            vec![
                "-c:v", "libvpx-vp9", "-deadline", "good", "-cpu-used", "4", "-crf", "31", "-b:v", "0", "-row-mt", "1",
                "-pix_fmt", "yuv420p", "-c:a", "libopus", "-b:a", "128k",
            ],
        ),
        (
            VideoOutputFormat::Webm,
            VideoQualityPreset::Small,
            vec![
                "-c:v", "libvpx-vp9", "-deadline", "good", "-cpu-used", "5", "-crf", "38", "-b:v", "0", "-row-mt", "1",
                "-pix_fmt", "yuv420p", "-c:a", "libopus", "-b:a", "96k",
            ],
        ),
    ];
    for (format, quality, expected_codec_args) in cases {
        let args = plan_for(format, quality, VideoResolutionPreset::Original, &base);
        for flag in &expected_codec_args {
            assert!(
                args.iter().any(|arg| arg == flag),
                "missing flag '{flag}' for {format:?}/{quality:?} in {args:?}"
            );
        }
    }
}

#[test]
fn scale_filter_is_emitted_only_when_needed() {
    let wide = probed(3840, 2160, 0);
    let args = plan_for(VideoOutputFormat::Mp4, VideoQualityPreset::Balanced, VideoResolutionPreset::P1080, &wide);
    let vf_index = args.iter().position(|arg| arg == "-vf").expect("vf present");
    assert_eq!(args[vf_index + 1], "scale=1920:1080");

    let fitting = probed(640, 360, 0);
    let args = plan_for(VideoOutputFormat::Mp4, VideoQualityPreset::Balanced, VideoResolutionPreset::P720, &fitting);
    assert!(!args.iter().any(|arg| arg == "-vf"));
}

#[test]
fn landscape_4k_to_1080p_scales_to_1920x1080() {
    assert_eq!(compute_output_dimensions(3840, 2160, VideoResolutionPreset::P1080), Some((1920, 1080)));
}

#[test]
fn portrait_source_uses_swapped_box() {
    assert_eq!(compute_output_dimensions(1080, 1920, VideoResolutionPreset::P1080), None);
    assert_eq!(compute_output_dimensions(2160, 3840, VideoResolutionPreset::P720), Some((720, 1280)));
}

#[test]
fn no_upscaling_for_small_sources() {
    assert_eq!(compute_output_dimensions(640, 360, VideoResolutionPreset::P720), None);
    assert_eq!(compute_output_dimensions(320, 240, VideoResolutionPreset::P480), None);
}

#[test]
fn original_only_outputs_even_dimensions() {
    assert_eq!(compute_output_dimensions(501, 377, VideoResolutionPreset::Original), Some((500, 376)));
    assert_eq!(compute_output_dimensions(640, 360, VideoResolutionPreset::Original), None);
}

#[test]
fn rotation_is_resolved_through_visible_dimensions() {
    let rotated = probed(1920, 1080, 90);
    assert_eq!(rotated.visible_dimensions(), (1080, 1920));
    assert_eq!(
        compute_output_dimensions(rotated.visible_dimensions().0, rotated.visible_dimensions().1, VideoResolutionPreset::P720),
        Some((720, 1280))
    );
}

#[test]
fn portrait_240x320_fits_1080p_box_without_scaling() {
    assert_eq!(compute_output_dimensions(240, 320, VideoResolutionPreset::P1080), None);
}

#[test]
fn odd_fitting_source_is_evened() {
    assert_eq!(compute_output_dimensions(641, 361, VideoResolutionPreset::P720), Some((640, 360)));
}

#[test]
fn plan_carries_the_scale_and_muxer() {
    let plan = build_plan(VideoOutputFormat::Webm, VideoQualityPreset::Small, VideoResolutionPreset::P480, &probed(1920, 1080, 0));
    assert_eq!(plan.scale, Some((852, 480)));
    assert_eq!(plan.muxer_format, "webm");
    assert!(plan.muxer_args.is_empty());
}

// --- probe ---

#[test]
fn visible_dimensions_swap_only_for_quarter_turns() {
    let base = |rotation: i32| ProbedVideo {
        width: 1920,
        height: 1080,
        rotation,
        has_audio: false,
        audio_stream_count: 0,
        subtitle_stream_count: 0,
        attachment_stream_count: 0,
        data_stream_count: 0,
    };
    assert_eq!(base(0).visible_dimensions(), (1920, 1080));
    assert_eq!(base(90).visible_dimensions(), (1080, 1920));
    assert_eq!(base(-90).visible_dimensions(), (1080, 1920));
    assert_eq!(base(270).visible_dimensions(), (1080, 1920));
    assert_eq!(base(-270).visible_dimensions(), (1080, 1920));
    assert_eq!(base(180).visible_dimensions(), (1920, 1080));
}

fn stream(kind: &str) -> ProbeStream {
    ProbeStream {
        codec_type: Some(kind.to_string()),
        attached_pic: Some(0),
        coded_width: None,
        width: None,
        coded_height: None,
        height: None,
        side_data_rotations: Vec::new(),
        tag_rotation: None,
    }
}

fn video_stream(width: u64, height: u64) -> ProbeStream {
    let mut s = stream("video");
    s.coded_width = Some(width);
    s.coded_height = Some(height);
    s
}

#[test]
fn parses_landscape_with_side_data_rotation() {
    let mut v = video_stream(1920, 1080);
    v.side_data_rotations = vec![None, Some(-90)];
    v.tag_rotation = Some(180);
    let report = ProbeReport { streams: Some(vec![v, stream("audio")]) };
    let probe = parse_probe_report(Some(report)).unwrap();
    assert_eq!((probe.width, probe.height, probe.rotation), (1920, 1080, -90));
    assert!(probe.has_audio);
    assert_eq!(probe.audio_stream_count, 1);
}

#[test]
fn parses_legacy_rotate_tag() {
    let mut v = video_stream(640, 480);
    v.width = Some(640);
    v.height = Some(480);
    v.tag_rotation = Some(90);
    let probe = parse_probe_report(Some(ProbeReport { streams: Some(vec![v]) })).unwrap();
    assert_eq!(probe.rotation, 90);
    assert_eq!(probe.visible_dimensions(), (480, 640));
}

#[test]
fn attached_pic_video_is_excluded() {
    let mut cover = video_stream(800, 800);
    cover.attached_pic = Some(1);
    let probe = parse_probe_report(Some(ProbeReport { streams: Some(vec![cover, video_stream(1920, 1080)]) })).unwrap();
    assert_eq!(probe.width, 1920);
    assert_eq!(probe.height, 1080);
}

#[test]
fn only_attached_pic_video_is_invalid() {
    let mut cover = video_stream(800, 800);
    cover.attached_pic = Some(1);
    let err = parse_probe_report(Some(ProbeReport { streams: Some(vec![cover]) })).unwrap_err();
    assert!(matches!(err, ProcessingError::InvalidVideo { .. }));
}

#[test]
fn zero_coded_dimensions_fall_back_to_display_dimensions() {
    let mut v = video_stream(0, 0);
    v.width = Some(320);
    v.height = Some(240);
    let probe = parse_probe_report(Some(ProbeReport { streams: Some(vec![v]) })).unwrap();
    assert_eq!((probe.width, probe.height), (320, 240));
}

#[test]
fn missing_or_zero_video_dimensions_are_invalid() {
    let mut missing_width = stream("video");
    missing_width.height = Some(240);
    let mut zero_height = stream("video");
    zero_height.width = Some(320);
    zero_height.height = Some(0);
    for v in [missing_width, zero_height] {
        let err = parse_probe_report(Some(ProbeReport { streams: Some(vec![v]) })).unwrap_err();
        assert!(matches!(err, ProcessingError::InvalidVideo { .. }));
    }
}

#[test]
fn missing_streams_key_is_invalid() {
    let err = parse_probe_report(Some(ProbeReport { streams: None })).unwrap_err();
    assert!(matches!(err, ProcessingError::InvalidVideo { .. }));
}

#[test]
fn invalid_json_is_invalid() {
    let err = parse_probe_report(None).unwrap_err();
    assert!(matches!(err, ProcessingError::InvalidVideo { .. }));
}

#[test]
fn no_audio_stream_is_reported() {
    let report = ProbeReport { streams: Some(vec![video_stream(160, 120)]) };
    let probe = parse_probe_report(Some(report)).unwrap();
    assert!(!probe.has_audio);
    assert_eq!(probe.audio_stream_count, 0);
}

#[test]
fn primary_stream_skips_cover_art_and_other_types() {
    let mut cover = video_stream(800, 800);
    cover.attached_pic = Some(1);
    let streams = vec![stream("audio"), cover, video_stream(1920, 1080), video_stream(640, 480)];
    assert_eq!(primary_video_stream(&streams), Some(2));
    assert_eq!(primary_video_stream(&vec![stream("audio"), stream("data")]), None);
    assert_eq!(primary_video_stream(&Vec::new()), None);
}

#[test]
fn counts_extra_streams() {
    let report = ProbeReport {
        streams: Some(vec![
            video_stream(640, 480),
            stream("audio"),
            stream("audio"),
            stream("subtitle"),
            stream("attachment"),
            stream("data"),
        ]),
    };
    let probe = parse_probe_report(Some(report)).unwrap();
    assert_eq!(probe.audio_stream_count, 2);
    assert_eq!(probe.subtitle_stream_count, 1);
    assert_eq!(probe.attachment_stream_count, 1);
    assert_eq!(probe.data_stream_count, 1);
}

#[test]
fn video_inputs_are_prechecked() {
    assert!(is_supported_video_extension("MKV"));
    assert!(!is_supported_video_extension("gif"));
    assert_eq!(video_precheck("gif", true, 10, true), Err("Unsupported format".to_string()));
    assert_eq!(video_precheck("mp4", false, 10, true), Err("File not found".to_string()));
    assert_eq!(video_precheck("mp4", true, 0, true), Err("File is empty".to_string()));
    assert_eq!(video_precheck("mp4", true, 10, false), Err("Video engine is not available".to_string()));
    assert_eq!(video_precheck("mp4", true, 10, true), Ok(()));
    assert_eq!(
        ffprobe_args("a.mp4"),
        vec!["-v", "error", "-print_format", "json", "-show_format", "-show_streams", "a.mp4"]
    );
}

// --- progress ---

fn seconds(micros: Option<i64>) -> Option<f64> {
    micros.map(|m| m as f64 / 1_000_000.0)
}

#[test]
fn parses_out_time_us_as_microseconds() {
    let sample = parse_progress_line("out_time_us=500000").unwrap();
    assert_eq!(seconds(sample.out_time_micros), Some(0.5));
    assert!(!sample.finished);
}

#[test]
fn parses_out_time_ms_as_microseconds() {
    let sample = parse_progress_line("out_time_ms=1500000").unwrap();
    assert_eq!(seconds(sample.out_time_micros), Some(1.5));
    assert!(!sample.finished);
}

#[test]
fn parses_progress_end_and_continue() {
    let end = parse_progress_line("progress=end").unwrap();
    assert!(end.finished);
    assert_eq!(seconds(end.out_time_micros), None);

    let continuing = parse_progress_line("progress=continue").unwrap();
    assert!(!continuing.finished);
}

#[test]
fn ignores_unknown_progress_lines() {
    assert!(parse_progress_line("bitrate=1234").is_none());
    assert!(parse_progress_line("frame=42").is_none());
    assert!(parse_progress_line("no-equals-sign").is_none());
    assert!(parse_progress_line("out_time_us=not-a-number").is_none());
}

#[test]
fn trims_whitespace_around_progress_lines() {
    let sample = parse_progress_line("  out_time_us=1000  \n").unwrap();
    assert_eq!(seconds(sample.out_time_micros), Some(0.001));
}

// --- jobs and encode verdicts ---

#[test]
fn process_cancel_unknown_job_returns_false() {
    let mut jobs = JobRegistry::new();
    assert!(!cancel_job(&mut jobs, "no-such-job-ever"));
}

#[test]
fn process_cancel_running_job_flips_state() {
    let mut jobs = JobRegistry::new();
    let job_id = "video-test-job-777";
    register_job(&mut jobs, job_id);
    assert!(!is_cancel_requested(&jobs, job_id));
    assert!(cancel_job(&mut jobs, job_id));
    assert!(is_cancel_requested(&jobs, job_id));
    assert!(!cancel_job(&mut jobs, job_id), "already canceling");
    unregister_job(&mut jobs, job_id);
    assert!(!is_cancel_requested(&jobs, job_id));
}

#[test]
fn forced_child_failure_cleans_partial() {
    let tail = vec!["Invalid data found when processing input".to_string()];
    match encode_run_verdict(&ChildRun::Exited { success: false, code: Some(1) }, &tail) {
        Some(VideoEncodeOutcome::Failed(e)) => {
            let dto = e.into_dto();
            assert_eq!(dto.code, "ENCODE_FAILED");
            assert_eq!(dto.message, "FFmpeg exited with code 1: Invalid data found when processing input");
        },
        other => panic!("unexpected {other:?}"),
    }
    assert!(encode_run_verdict(&ChildRun::Exited { success: true, code: Some(0) }, &tail).is_none());
    assert!(matches!(encode_run_verdict(&ChildRun::Canceled, &tail), Some(VideoEncodeOutcome::Canceled)));
    match encode_run_verdict(&ChildRun::StartFailed, &tail) {
        Some(VideoEncodeOutcome::Failed(e)) => assert_eq!(e.to_string(), "Could not start FFmpeg"),
        other => panic!("unexpected {other:?}"),
    }
    assert_eq!(exit_failure(Some(-22), &Vec::new()).to_string(), "FFmpeg exited with code -22");
}

#[test]
fn exit_zero_with_garbage_output_fails_inspection() {
    match output_verdict(0, true, &Vec::new()) {
        Some(VideoEncodeOutcome::Failed(e)) => assert_eq!(e.to_string(), "FFmpeg produced invalid output"),
        other => panic!("unexpected {other:?}"),
    }
    assert!(output_verdict(10, false, &Vec::new()).is_some());
    assert!(output_verdict(10, true, &Vec::new()).is_none());
    assert_eq!(
        invalid_output_failure(&vec!["a".to_string(), "b".to_string()]).to_string(),
        "FFmpeg produced invalid output: a | b"
    );
}

#[test]
fn extra_audio_stream_is_omitted_with_warning() {
    let mut probe = probed(640, 480, 0);
    probe.audio_stream_count = 2;
    let warnings = omitted_stream_warnings(&probe).unwrap();
    assert_eq!(warnings.len(), 1);
    assert_eq!(warnings[0].code, "VIDEO_OMITTED_AUDIO");
    match finalize_verdict(Ok(()), "/out/clip.mp4", &probe) {
        VideoEncodeOutcome::Success { warnings } => assert_eq!(warnings.unwrap().len(), 1),
        other => panic!("unexpected {other:?}"),
    }
}

#[test]
fn silent_source_produces_no_audio_and_no_warning() {
    let mut probe = probed(640, 480, 0);
    probe.has_audio = false;
    probe.audio_stream_count = 0;
    assert!(omitted_stream_warnings(&probe).is_none());
}

#[test]
fn failed_rename_is_a_write_failure() {
    match finalize_verdict(Err("locked".to_string()), "/out/clip.mp4", &probed(1, 1, 0)) {
        VideoEncodeOutcome::Failed(e) => {
            assert_eq!(e.to_string(), "Could not finalize output '/out/clip.mp4': locked");
            assert_eq!(e.into_dto().code, "WRITE_FAILED");
        },
        other => panic!("unexpected {other:?}"),
    }
}

#[test]
fn cancel_removes_partial_and_reports_canceled() {
    let mut batch = VideoBatch::new();
    assert!(batch.start_next(false));
    batch.record_success("a.mp4".to_string(), 10, "/o/a.mp4".to_string(), 5, None);
    assert!(batch.start_next(false));
    batch.record_canceled("b.mp4".to_string(), 10);
    assert!(!batch.start_next(false));
    let result = batch.finish();
    assert_eq!((result.total, result.succeeded, result.failed), (2, 1, 1));
    assert_eq!(result.items[1].error.as_ref().unwrap().code, "CANCELED");
}
