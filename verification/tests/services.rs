use toolbox::errors::ProcessingError;
use toolbox::models::FileResult;
use toolbox::services::batch::{
    canceled_result, failure_result, run_sequential_batch, success_result, summarize, worker_count,
};
use toolbox::services::child::{finalize_failure, prefixed_failure, push_tail_line, STDERR_TAIL_LINES};
use toolbox::services::export::{
    ensure_output_dir, file_stem, partial_name, resolve_output_path, resolve_pack_folder,
};
use toolbox::services::inspect::{is_supported_image_extension, probe_verdict, ImageProbe};
use toolbox::services::jobs::JobRegistry;
use toolbox::errors::ErrorKind;

fn names(list: &[&str]) -> Vec<String> {
    list.iter().map(|s| s.to_string()).collect()
}

#[test]
fn fresh_output_uses_plain_name() {
    let out = resolve_output_path("C:/photos/photo.png", Some("photo.png"), "webp", None, &names(&[])).unwrap();
    assert_eq!(out, "photo.webp");
}

#[test]
fn export_collision_renames_incrementally() {
    let occupied = names(&["photo.webp", "photo-2.webp"]);
    let out = resolve_output_path("C:/photos/photo.png", Some("photo.png"), "webp", None, &occupied).unwrap();
    assert_eq!(out, "photo-3.webp");
}

#[test]
fn source_path_is_never_overwritten() {
    // The source lives in the output directory: its own name is occupied.
    let occupied = names(&["photo.png"]);
    let out = resolve_output_path("/out/photo.png", Some("photo.png"), "png", None, &occupied).unwrap();
    assert_ne!(out, "photo.png");
    assert_eq!(out, "photo-2.png");
}

#[test]
fn jpeg_uses_jpg_extension() {
    let out = resolve_output_path("C:/photos/photo.jpeg", Some("photo.jpeg"), "jpg", None, &names(&[])).unwrap();
    assert_eq!(out, "photo.jpg");
}

#[test]
fn suffix_is_placed_before_the_number() {
    let occupied = names(&["photo-palette.png"]);
    let out =
        resolve_output_path("/a/photo.png", Some("photo.png"), "png", Some("-palette"), &occupied).unwrap();
    assert_eq!(out, "photo-palette-2.png");
}

#[test]
fn missing_file_name_is_a_processing_failure() {
    let err = resolve_output_path("/", None, "png", None, &names(&[])).unwrap_err();
    let dto = err.into_dto();
    assert_eq!(dto.code, "PROCESSING_FAILED");
    assert_eq!(dto.message, "Could not determine file name for /");
}

#[test]
fn file_stem_follows_path_rules() {
    assert_eq!(file_stem("photo.png"), "photo");
    assert_eq!(file_stem("archive.tar.gz"), "archive.tar");
    assert_eq!(file_stem(".hidden"), ".hidden");
    assert_eq!(file_stem("README"), "README");
    assert_eq!(file_stem(".."), "..");
}

#[test]
fn missing_output_directory_is_unavailable() {
    assert!(ensure_output_dir("/out", true).is_ok());
    let dto = ensure_output_dir("/gone", false).unwrap_err().into_dto();
    assert_eq!(dto.code, "OUTPUT_UNAVAILABLE");
    assert_eq!(dto.message, "Export directory is not available: /gone");
}

#[test]
fn pack_folders_are_numbered() {
    assert_eq!(resolve_pack_folder(&names(&[])), "web-pack");
    assert_eq!(resolve_pack_folder(&names(&["web-pack"])), "web-pack-2");
    assert_eq!(resolve_pack_folder(&names(&["web-pack", "web-pack-2", "other"])), "web-pack-3");
}

#[test]
fn partial_names_keep_the_target_extension() {
    assert_eq!(partial_name(Some("clip.mp4"), 1, "mp4"), "clip.part-1.mp4");
    assert_eq!(partial_name(Some("doc-optimized.pdf"), 12, "pdf"), "doc-optimized.part-12.pdf");
    assert_eq!(partial_name(None, 3, "pdf"), "output.part-3.pdf");
    assert_ne!(partial_name(Some("clip.mp4"), 1, "mp4"), partial_name(Some("clip.mp4"), 2, "mp4"));
}

fn ok_item(path: &str) -> FileResult {
    success_result(path.to_string(), format!("{path}.out"), 10, 5, None)
}

fn bad_item(path: &str) -> FileResult {
    failure_result(path.to_string(), 10, ProcessingError::decode_failed("bad"))
}

#[test]
fn one_bad_file_does_not_abort_the_batch() {
    let files = names(&["a.png", "bad.png", "c.png"]);
    let batch = run_sequential_batch(
        &files,
        |path: &String| if path.starts_with("bad") { bad_item(path) } else { ok_item(path) },
        |_done: u32, _total: u32, _name: &String| {},
    )
    .unwrap();
    assert_eq!(batch.total, 3);
    assert_eq!(batch.succeeded, 2);
    assert_eq!(batch.failed, 1);
    assert_eq!(batch.items.len(), 3);
    assert!(!batch.items[1].success);
}

#[test]
fn progress_is_reported_per_file() {
    let files = names(&["a.png", "b.png", "c.png"]);
    let seen = std::cell::RefCell::new(Vec::new());
    run_sequential_batch(
        &files,
        |path: &String| ok_item(path),
        |done: u32, total: u32, name: &String| seen.borrow_mut().push((done, total, name.clone())),
    )
    .unwrap();
    let seen = seen.into_inner();
    assert_eq!(
        seen,
        vec![(1, 3, "a.png".to_string()), (2, 3, "b.png".to_string()), (3, 3, "c.png".to_string())]
    );
}

#[test]
fn empty_batch_returns_empty_result() {
    let batch = run_sequential_batch(&Vec::new(), |path: &String| ok_item(path), |_: u32, _: u32, _: &String| {})
        .unwrap();
    assert_eq!(batch.total, 0);
    assert_eq!(batch.succeeded, 0);
    assert_eq!(batch.failed, 0);
    assert!(batch.items.is_empty());
}

#[test]
fn summary_counts_each_item_once() {
    let batch = summarize(vec![ok_item("a"), bad_item("b"), canceled_result("c".to_string(), 1)]);
    assert_eq!((batch.total, batch.succeeded, batch.failed), (3, 1, 2));
    assert_eq!(batch.items[2].error.as_ref().unwrap().code, "CANCELED");
    assert_eq!(batch.items[1].error.as_ref().unwrap().code, "DECODE_FAILED");
}

#[test]
fn worker_count_is_bounded() {
    assert_eq!(worker_count(None), 1);
    assert_eq!(worker_count(Some(2)), 2);
    assert_eq!(worker_count(Some(16)), 4);
}

#[test]
fn cancel_unknown_job_is_refused() {
    let mut jobs = JobRegistry::new();
    assert!(!jobs.cancel("no-such-job"));
    assert!(!jobs.is_cancel_requested("no-such-job"));
}

#[test]
fn finalize_and_prefixed_failures() {
    let dto = finalize_failure("/out/a.pdf", "denied").into_dto();
    assert_eq!(dto.code, "WRITE_FAILED");
    assert_eq!(dto.message, "Could not finalize output '/out/a.pdf': denied");
    let e = prefixed_failure(ErrorKind::EncodeFailed, "Could not read FFmpeg status: ", "io");
    assert_eq!(e.into_dto().message, "Could not read FFmpeg status: io");
}

#[test]
fn image_inspection_verdicts() {
    assert!(is_supported_image_extension("PNG"));
    assert!(is_supported_image_extension("jpeg"));
    assert!(is_supported_image_extension("Svg"));
    assert!(!is_supported_image_extension("gif"));
    assert_eq!(probe_verdict(ImageProbe::Measured { width: 40, height: 30 }), Ok((40, 30)));
    assert_eq!(probe_verdict(ImageProbe::Unreadable), Err("Could not read file".to_string()));
    assert_eq!(probe_verdict(ImageProbe::Unsupported), Err("Unsupported format".to_string()));
    assert_eq!(probe_verdict(ImageProbe::NotAnImage), Err("Not a valid image".to_string()));
    assert_eq!(probe_verdict(ImageProbe::NotAnSvg), Err("Not a valid SVG".to_string()));
}

#[test]
fn stderr_tail_keeps_the_last_lines() {
    let mut tail: Vec<String> = Vec::new();
    for i in 0..15 {
        push_tail_line(&mut tail, format!("line {i}"), STDERR_TAIL_LINES);
        assert!(tail.len() <= STDERR_TAIL_LINES);
    }
    assert_eq!(tail.len(), 10);
    assert_eq!(tail[0], "line 5");
    assert_eq!(tail[9], "line 14");
    let mut short = vec!["a".to_string()];
    push_tail_line(&mut short, "b".to_string(), 3);
    assert_eq!(short, vec!["a".to_string(), "b".to_string()]);
}
