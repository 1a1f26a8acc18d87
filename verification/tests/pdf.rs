use toolbox::errors::ProcessingError;
use toolbox::models::PdfOptimizationPreset;
use toolbox::services::child::{ChildRun, ReadFailure};
use toolbox::services::jobs::JobRegistry;
use toolbox::tools::pdf::convert::{
    assemble_markdown, convert_precheck, extract_pdf_markdown, map_parser_error, map_write_error,
    normalized_ocr_reason, ocr_marker_text, ocr_warning, read_parser_failure, ParserFailure, PdfPage,
};
use toolbox::tools::pdf::inspect::{
    check_page_limit, get_pdf_page_count, has_pdf_magic, has_signature_field, is_pdf_encrypted,
    lightweight_inspection, map_qpdf_inspection_error, optimization_inspection, validate_basics,
    validate_pdf_for_optimization, HeaderRead, PathStatus,
};
use toolbox::tools::pdf::optimize::{
    build_qpdf_args, cancel_job, check_verdict, commit_verdict, engine_verdict, exit_failure,
    is_cancel_requested, preset_args, progress_number_text, register_job, sanitize_stderr_line, size_verdict,
    unregister_job, PdfBatch, PdfEncodeOutcome, SizeVerdict,
};
use toolbox::tools::pdf::qpdf::resolve_from_candidates;

// --- conversion ---

#[test]
fn ocr_reason_mapping_does_not_mislabel_unknown_pages_as_scanned() {
    assert_eq!(normalized_ocr_reason(Some("vector_text")), "vector_text");
    assert_eq!(normalized_ocr_reason(Some("suspected_garbled_text")), "unreadable_text");
    assert_eq!(normalized_ocr_reason(None), "text_unavailable");
}

#[test]
fn ocr_reasons_follow_their_rule_order() {
    assert_eq!(normalized_ocr_reason(Some("Scanned image page")), "scanned");
    assert_eq!(normalized_ocr_reason(Some("IMAGE_ONLY")), "image_only");
    assert_eq!(normalized_ocr_reason(Some("bad encoding")), "unreadable_text");
    assert_eq!(normalized_ocr_reason(Some("no text layer")), "no_text");
    assert_eq!(normalized_ocr_reason(Some("low_density")), "low_text_density");
    assert_eq!(normalized_ocr_reason(Some("")), "text_unavailable");
}

#[test]
fn parser_errors_use_stable_user_messages() {
    let encrypted = map_parser_error(ParserFailure::Encrypted).into_dto();
    assert_eq!(encrypted.code, "ENCRYPTED_PDF");

    let corrupt = map_parser_error(ParserFailure::Malformed).into_dto();
    assert_eq!(corrupt.code, "INVALID_PDF");
    assert!(!corrupt.message.contains("sensitive"));
    assert_eq!(corrupt.message, "This PDF could not be opened");

    assert_eq!(map_parser_error(ParserFailure::NotFound).into_dto().code, "FILE_NOT_FOUND");
    assert_eq!(map_parser_error(ParserFailure::PermissionDenied).into_dto().message, "Could not read PDF file");
    assert_eq!(map_parser_error(ParserFailure::OtherIo).into_dto().message, "This PDF could not be read");
}

fn page(index: u32, text: &str) -> PdfPage {
    PdfPage { page: index, markdown: text.to_string(), needs_ocr: false, ocr_reason: None }
}

#[test]
fn mixed_pdf_creates_partial_markdown_with_warning() {
    let pages = vec![page(0, "  First page native text \n"), page(1, "   ")];
    let converted = assemble_markdown(2, pages).unwrap();
    assert!(converted.markdown.contains("First page native text"));
    assert!(converted.markdown.contains("<!-- PDF page 2 requires OCR:"));
    assert!(converted.markdown.contains("> Page 2 was not converted because OCR is not included in Toolbox yet."));
    assert_eq!(converted.ocr_pages, vec![2]);
    assert_eq!(
        converted.markdown,
        "First page native text\n\n<!-- PDF page 2 requires OCR: empty_content -->\n\n> Page 2 was not converted because OCR is not included in Toolbox yet."
    );
    let warning = ocr_warning(&converted.ocr_pages).expect("should have warning for page 2");
    assert_eq!(warning.code, "OCR_REQUIRED_PAGES");
    assert_eq!(warning.pages, Some(vec![2]));
    assert_eq!(warning.message, "Pages 2 require OCR and were marked");
}

#[test]
fn flagged_pages_carry_their_reason() {
    let mut flagged = page(1, "garbage");
    flagged.needs_ocr = true;
    flagged.ocr_reason = Some("scanned".to_string());
    let converted = assemble_markdown(3, vec![page(0, "one"), flagged, page(2, "three")]).unwrap();
    assert_eq!(
        converted.markdown,
        "one\n\n<!-- PDF page 2 requires OCR: scanned -->\n\n> Page 2 was not converted because OCR is not included in Toolbox yet.\n\nthree"
    );
    assert_eq!(converted.ocr_pages, vec![2]);
}

#[test]
fn scanned_pdf_fails_with_ocr_required_and_no_output() {
    let err = assemble_markdown(2, vec![page(0, ""), page(1, "")]).unwrap_err();
    assert_eq!(err.into_dto().code, "OCR_REQUIRED");
}

#[test]
fn incomplete_or_unordered_extraction_is_invalid() {
    let err = assemble_markdown(3, vec![page(0, "a"), page(1, "b")]).unwrap_err();
    assert_eq!(err.to_string(), "PDF page extraction returned an incomplete result");
    let err = assemble_markdown(2, vec![page(1, "a"), page(0, "b")]).unwrap_err();
    assert_eq!(err.to_string(), "PDF page extraction returned pages out of order");
}

#[test]
fn text_only_pages_have_no_warning() {
    let converted = assemble_markdown(1, vec![page(0, "Hello Toolbox PDF")]).unwrap();
    assert_eq!(converted.markdown, "Hello Toolbox PDF");
    assert!(ocr_warning(&converted.ocr_pages).is_none());
}

#[test]
fn warning_lists_every_marked_page() {
    let warning = ocr_warning(&vec![1, 3, 10]).unwrap();
    assert_eq!(warning.message, "Pages 1, 3, 10 require OCR and were marked");
    assert_eq!(
        ocr_marker_text(7, "no_text"),
        "<!-- PDF page 7 requires OCR: no_text -->\n\n> Page 7 was not converted because OCR is not included in Toolbox yet."
    );
}

#[test]
fn zero_byte_pdf_fails_without_creating_output() {
    let dto = convert_precheck(PathStatus::File(0), Some("pdf")).unwrap_err().into_dto();
    assert_eq!(dto.code, "INVALID_PDF");
}

#[test]
fn missing_pdf_fails_cleanly() {
    let dto = convert_precheck(PathStatus::Missing, Some("pdf")).unwrap_err().into_dto();
    assert_eq!(dto.code, "FILE_NOT_FOUND");
}

#[test]
fn valid_pdf_with_wrong_extension_is_rejected() {
    let dto = convert_precheck(PathStatus::File(1_000), Some("txt")).unwrap_err().into_dto();
    assert_eq!(dto.code, "UNSUPPORTED_FORMAT");
    assert!(convert_precheck(PathStatus::File(1_000), Some("PDF")).is_ok());
    assert!(convert_precheck(PathStatus::File(1_000), None).is_err());
    let dto = convert_precheck(PathStatus::File(100 * 1024 * 1024 + 1), Some("pdf")).unwrap_err().into_dto();
    assert_eq!(dto.code, "LIMIT_EXCEEDED");
    assert_eq!(convert_precheck(PathStatus::Unreadable, Some("pdf")).unwrap_err().to_string(), "Could not read file metadata");
}

#[test]
fn corrupt_pdf_fails_without_creating_output() {
    let result = extract_pdf_markdown(b"%PDF-1.4\ncorrupted content\n%%EOF");
    assert!(result.is_err());
}

#[test]
fn non_pdf_bytes_fail_with_a_parser_error() {
    let dto = extract_pdf_markdown(b"not a pdf at all").unwrap_err().into_dto();
    assert_eq!(dto.code, "INVALID_PDF");
    assert_eq!(dto.message, "This PDF could not be opened");
}

/// A PDF with one page per entry, each with the given Helvetica text or no
/// content at all.
fn minimal_pdf(pages: &[Option<&str>]) -> Vec<u8> {
    let mut out: Vec<u8> = b"%PDF-1.7\n".to_vec();
    let mut offsets: Vec<usize> = Vec::new();
    let n = pages.len();
    let mut objects: Vec<String> = Vec::new();
    objects.push("<< /Type /Catalog /Pages 2 0 R >>".to_string());
    let kids: Vec<String> = (0..n).map(|i| format!("{} 0 R", 4 + 2 * i)).collect();
    objects.push(format!("<< /Type /Pages /Kids [{}] /Count {} >>", kids.join(" "), n));
    objects.push("<< /Type /Font /Subtype /Type1 /BaseFont /Helvetica /Encoding /WinAnsiEncoding >>".to_string());
    for (i, text) in pages.iter().enumerate() {
        let content = match text {
            Some(t) => format!("BT /F1 12 Tf 72 712 Td ({t}) Tj ET"),
            None => String::new(),
        };
        objects.push(format!(
            "<< /Type /Page /Parent 2 0 R /MediaBox [0 0 612 792] /Resources << /Font << /F1 3 0 R >> >> /Contents {} 0 R >>",
            5 + 2 * i
        ));
        objects.push(format!("<< /Length {} >>\nstream\n{}\nendstream", content.len(), content));
    }
    for (i, body) in objects.iter().enumerate() {
        offsets.push(out.len());
        out.extend_from_slice(format!("{} 0 obj\n{}\nendobj\n", i + 1, body).as_bytes());
    }
    let xref = out.len();
    out.extend_from_slice(format!("xref\n0 {}\n0000000000 65535 f \n", objects.len() + 1).as_bytes());
    for offset in &offsets {
        out.extend_from_slice(format!("{:010} 00000 n \n", offset).as_bytes());
    }
    out.extend_from_slice(
        format!("trailer\n<< /Size {} /Root 1 0 R >>\nstartxref\n{}\n%%EOF\n", objects.len() + 1, xref).as_bytes(),
    );
    out
}

#[test]
fn converts_text_pdf_to_markdown_file() {
    let converted = extract_pdf_markdown(&minimal_pdf(&[Some("Hello Toolbox PDF")])).unwrap();
    assert!(converted.markdown.contains("Hello Toolbox PDF"));
    assert!(converted.ocr_pages.is_empty());
    assert!(ocr_warning(&converted.ocr_pages).is_none());
}

#[test]
fn empty_pages_of_a_real_pdf_are_marked() {
    let converted = extract_pdf_markdown(&minimal_pdf(&[Some("First page native text"), None])).unwrap();
    assert!(converted.markdown.contains("First page native text"));
    assert!(converted.markdown.contains("<!-- PDF page 2 requires OCR:"));
    assert_eq!(converted.ocr_pages, vec![2]);
    let all_empty = extract_pdf_markdown(&minimal_pdf(&[None, None])).unwrap_err();
    assert_eq!(all_empty.into_dto().code, "OCR_REQUIRED");
}

#[test]
fn detected_page_count_guards_the_extraction() {
    let pages: Vec<Option<&str>> = vec![None; 501];
    let dto = extract_pdf_markdown(&minimal_pdf(&pages)).unwrap_err().into_dto();
    assert_eq!(dto.code, "LIMIT_EXCEEDED");
    assert_eq!(dto.message, "PDF exceeds maximum limit of 500 pages (found 501)");
}

#[test]
fn over_page_limit_is_rejected_before_output() {
    let dto = check_page_limit(501).unwrap_err().into_dto();
    assert_eq!(dto.code, "LIMIT_EXCEEDED");
    assert_eq!(dto.message, "PDF exceeds maximum limit of 500 pages (found 501)");
    assert_eq!(check_page_limit(0).unwrap_err().to_string(), "No pages found in PDF");
    assert!(check_page_limit(500).is_ok());
}

#[test]
fn write_errors_distinguish_permission() {
    let denied = map_write_error(true, "C:/out/a.md", "access denied").into_dto();
    assert_eq!(denied.code, "PERMISSION_DENIED");
    assert_eq!(denied.message, "Permission denied writing 'C:/out/a.md': access denied");
    let other = map_write_error(false, "C:/out/a.md", "disk full").into_dto();
    assert_eq!(other.code, "WRITE_FAILED");
    assert_eq!(other.message, "Could not write output file 'C:/out/a.md': disk full");
}

// --- lightweight inspection ---

#[test]
fn valid_pdf_header_is_ready() {
    let header = HeaderRead::Bytes(b"%PDF-1.7\n1 0 obj\n<<>>\nendobj\n".to_vec());
    assert_eq!(lightweight_inspection(30, "pdf", header), Ok(()));
}

#[test]
fn zero_byte_pdf_is_invalid() {
    assert_eq!(lightweight_inspection(0, "pdf", HeaderRead::Bytes(Vec::new())), Err("File is empty".to_string()));
}

#[test]
fn invalid_magic_pdf_is_invalid() {
    let header = HeaderRead::Bytes(b"NOT A PDF HEADER".to_vec());
    assert_eq!(lightweight_inspection(16, "pdf", header), Err("Not a valid PDF file".to_string()));
}

#[test]
fn incomplete_pdf_magic_is_invalid() {
    let header = HeaderRead::Bytes(b"prefix %PDFx is not a PDF header".to_vec());
    assert!(lightweight_inspection(32, "pdf", header).is_err());
}

#[test]
fn header_rules_and_limits() {
    assert!(has_pdf_magic(&b"junk%PDF-".to_vec()));
    assert!(!has_pdf_magic(&b"%PDF".to_vec()));
    assert_eq!(
        lightweight_inspection(10, "pdf", HeaderRead::Bytes(b"%PD".to_vec())),
        Err("Could not read file header".to_string())
    );
    assert_eq!(lightweight_inspection(10, "pdf", HeaderRead::OpenFailed), Err("Could not read file".to_string()));
    assert_eq!(
        lightweight_inspection(10, "txt", HeaderRead::OpenFailed),
        Err("Unsupported format (expected .pdf)".to_string())
    );
    assert_eq!(
        lightweight_inspection(200 * 1024 * 1024, "pdf", HeaderRead::OpenFailed),
        Err("File exceeds maximum size limit (100 MB)".to_string())
    );
}

#[test]
fn missing_pdf_is_invalid() {
    let dto = validate_basics(PathStatus::Missing, "pdf", HeaderRead::OpenFailed).unwrap_err().into_dto();
    assert_eq!(dto.code, "FILE_NOT_FOUND");
    assert_eq!(dto.message, "File not found");
}

#[test]
fn revalidation_basics_follow_their_order() {
    let ok = HeaderRead::Bytes(b"%PDF-1.4".to_vec());
    assert!(validate_basics(PathStatus::File(8), "pdf", ok.clone()).is_ok());
    assert_eq!(validate_basics(PathStatus::NotAFile, "pdf", ok.clone()).unwrap_err().to_string(), "PDF path is not a file");
    assert_eq!(validate_basics(PathStatus::File(0), "txt", ok.clone()).unwrap_err().to_string(), "PDF file is empty");
    assert_eq!(validate_basics(PathStatus::File(8), "txt", ok).unwrap_err().into_dto().code, "UNSUPPORTED_FORMAT");
}

// --- engine answers ---

#[test]
fn encryption_answers() {
    assert_eq!(is_pdf_encrypted(true, Some(0), true).unwrap(), true);
    assert_eq!(is_pdf_encrypted(false, Some(2), true).unwrap(), false);
    assert!(is_pdf_encrypted(false, Some(2), false).is_err());
    assert!(is_pdf_encrypted(false, Some(3), true).is_err());
    assert!(is_pdf_encrypted(false, None, true).is_err());
}

#[test]
fn page_count_answers() {
    assert_eq!(get_pdf_page_count(true, " 12\n").unwrap(), 12);
    assert!(get_pdf_page_count(true, "twelve").is_err());
    assert!(get_pdf_page_count(false, "12").is_err());
}

#[test]
fn qpdf_json_signature_detection_no_sig() {
    let no_sig = has_signature_field(true, "", Some(vec![Some("/Tx".to_string()), None])).unwrap();
    assert!(!no_sig);
    let sig = has_signature_field(true, "", Some(vec![None, Some("/Sig".to_string())])).unwrap();
    assert!(sig);
    assert!(!has_signature_field(true, "", Some(Vec::new())).unwrap());
    let enc = has_signature_field(false, "qpdf: invalid password", None).unwrap_err();
    assert_eq!(enc.into_dto().code, "ENCRYPTED_PDF");
    assert_eq!(has_signature_field(true, "", None).unwrap_err().into_dto().code, "INVALID_PDF");
}

#[test]
fn inspection_errors_keep_engine_messages() {
    assert_eq!(map_qpdf_inspection_error(ProcessingError::invalid_pdf("This PDF could not be opened")), "This PDF could not be opened");
    assert_eq!(map_qpdf_inspection_error(ProcessingError::write_failed("disk")), "PDF could not be inspected");
}

#[test]
fn strict_inspection_asks_in_order() {
    let asked = std::cell::RefCell::new(Vec::new());
    let verdict = optimization_inspection(
        Ok(()),
        true,
        || { asked.borrow_mut().push("enc"); Ok(false) },
        || { asked.borrow_mut().push("pages"); Ok(600) },
        || { asked.borrow_mut().push("sig"); Ok(false) },
    );
    assert_eq!(verdict, Err("PDF exceeds maximum limit of 500 pages (found 600)".to_string()));
    assert_eq!(asked.into_inner(), vec!["enc", "pages"]);

    let verdict = optimization_inspection(Ok(()), true, || Ok(true), || Ok(1), || Ok(false));
    assert_eq!(verdict, Err("PDF is password-protected or encrypted".to_string()));
    let verdict = optimization_inspection(Ok(()), false, || Ok(false), || Ok(1), || Ok(false));
    assert_eq!(verdict, Err("PDF engine is not available".to_string()));
    let verdict = optimization_inspection(Ok(()), true, || Ok(false), || Ok(3), || Ok(true));
    assert_eq!(verdict, Err("PDF contains a digital signature and cannot be optimized".to_string()));
    let verdict = optimization_inspection(Ok(()), true, || Ok(false), || Ok(3), || Ok(false));
    assert_eq!(verdict, Ok(()));
    let verdict = optimization_inspection(Err("File is empty".to_string()), true, || Ok(false), || Ok(3), || Ok(false));
    assert_eq!(verdict, Err("File is empty".to_string()));
}

#[test]
fn over_page_limit_is_rejected() {
    let err = validate_pdf_for_optimization(Ok(()), || Ok(false), || Ok(501), || Ok(false)).unwrap_err();
    assert_eq!(err.into_dto().code, "LIMIT_EXCEEDED");
    let err = validate_pdf_for_optimization(Ok(()), || Ok(false), || Ok(0), || Ok(false)).unwrap_err();
    assert_eq!(err.to_string(), "No pages found in PDF");
    let err = validate_pdf_for_optimization(Ok(()), || Ok(true), || Ok(1), || Ok(false)).unwrap_err();
    assert_eq!(err.into_dto().code, "ENCRYPTED_PDF");
    assert!(validate_pdf_for_optimization(Ok(()), || Ok(false), || Ok(1), || Ok(false)).is_ok());
}

// --- optimization ---

#[test]
fn preset_args_match_pinned_table() {
    let lossless = preset_args(PdfOptimizationPreset::Lossless);
    assert_eq!(
        lossless,
        vec![
            "--compress-streams=y",
            "--decode-level=generalized",
            "--recompress-flate",
            "--compression-level=9",
            "--object-streams=generate"
        ]
    );
    let balanced = preset_args(PdfOptimizationPreset::Balanced);
    assert!(balanced.contains(&"--optimize-images"));
    assert!(balanced.contains(&"--jpeg-quality=80"));
    assert_eq!(balanced.len(), 7);
    let smaller = preset_args(PdfOptimizationPreset::Smaller);
    assert!(smaller.contains(&"--optimize-images"));
    assert!(smaller.contains(&"--jpeg-quality=55"));
    assert_eq!(smaller.len(), 7);
}

#[test]
fn lossless_never_includes_lossy_flags() {
    let lossless = preset_args(PdfOptimizationPreset::Lossless);
    assert!(!lossless.iter().any(|a| a.contains("jpeg-quality")));
    assert!(!lossless.contains(&"--optimize-images"));
}

#[test]
fn balanced_and_smaller_differ_only_in_quality() {
    let balanced = preset_args(PdfOptimizationPreset::Balanced);
    let smaller = preset_args(PdfOptimizationPreset::Smaller);
    assert_ne!(balanced, smaller);
    let b_without_quality: Vec<_> = balanced.into_iter().filter(|a| !a.starts_with("--jpeg-quality")).collect();
    let s_without_quality: Vec<_> = smaller.into_iter().filter(|a| !a.starts_with("--jpeg-quality")).collect();
    assert_eq!(b_without_quality, s_without_quality);
}

fn progress_percent(line: &str) -> Option<f64> {
    let text = progress_number_text(line)?;
    let value: f64 = text.parse().ok()?;
    Some(value.clamp(0.0, 100.0))
}

#[test]
fn parses_progress_lines() {
    assert_eq!(progress_percent("qpdf: /tmp/out.pdf: write progress: 0%"), Some(0.0));
    assert_eq!(progress_percent("qpdf: /tmp/out.pdf: write progress: 17%"), Some(17.0));
    assert_eq!(progress_percent("qpdf: /tmp/out.pdf: write progress: 100%"), Some(100.0));
    assert_eq!(progress_percent("not a progress line"), None);
    assert_eq!(progress_percent("qpdf: write progress:  42%  "), Some(42.0));
}

#[test]
fn progress_number_text_takes_the_first_run_after_the_marker() {
    assert_eq!(progress_number_text("write progress: 12.5%%"), Some("12.5".to_string()));
    assert_eq!(progress_number_text("x write progress: ~ 7 % then 9"), Some("7".to_string()));
    assert_eq!(progress_number_text("write progress: done"), None);
    assert_eq!(progress_number_text("write progress:"), None);
    assert_eq!(progress_number_text("write progress: 3 write progress: 4"), Some("3".to_string()));
    assert_eq!(progress_number_text("Write Progress: 5%"), None);
}

#[test]
fn stderr_sanitization_is_unicode_safe_and_bounded() {
    let input = format!("  qpdf   error\t{}  ", "é".repeat(600));
    let sanitized = sanitize_stderr_line(&input);
    assert!(!sanitized.contains("  "));
    assert_eq!(sanitized.chars().count(), 500);
    assert!(sanitized.starts_with("qpdf error "));
}

#[test]
fn build_args_include_progress_and_paths() {
    let args = build_qpdf_args(PdfOptimizationPreset::Balanced, "C:/in/input.pdf", "C:/out/input.part-1.pdf");
    assert!(args.contains(&"--progress".to_string()));
    assert!(args.contains(&"C:/in/input.pdf".to_string()));
    assert!(args.contains(&"C:/out/input.part-1.pdf".to_string()));
    assert!(args.contains(&"--jpeg-quality=80".to_string()));
}

#[test]
fn optimize_cancel_unknown_job_returns_false() {
    let mut jobs = JobRegistry::new();
    assert!(!cancel_job(&mut jobs, "no-such-job-ever-pdf"));
}

#[test]
fn optimize_cancel_running_job_flips_state() {
    let mut jobs = JobRegistry::new();
    let job_id = "pdf-test-job-12345";
    register_job(&mut jobs, job_id);
    assert!(!is_cancel_requested(&jobs, job_id));
    assert!(cancel_job(&mut jobs, job_id));
    assert!(is_cancel_requested(&jobs, job_id));
    assert!(!cancel_job(&mut jobs, job_id));
    unregister_job(&mut jobs, job_id);
    assert!(!is_cancel_requested(&jobs, job_id));
}

#[test]
fn engine_exit_codes_other_than_zero_fail() {
    let tail = vec!["WARNING: damaged".to_string(), "recovered".to_string()];
    match engine_verdict(&ChildRun::Exited { success: false, code: Some(3) }, false, &tail) {
        Some(PdfEncodeOutcome::Failed(e)) => {
            let dto = e.into_dto();
            assert_eq!(dto.code, "INVALID_PDF");
            assert_eq!(dto.message, "PDF optimization failed (exit 3): WARNING: damaged | recovered");
        },
        other => panic!("unexpected {other:?}"),
    }
    assert!(engine_verdict(&ChildRun::Exited { success: true, code: Some(0) }, false, &tail).is_none());
    assert!(matches!(
        engine_verdict(&ChildRun::Exited { success: true, code: Some(0) }, true, &tail),
        Some(PdfEncodeOutcome::Canceled)
    ));
    match engine_verdict(&ChildRun::StartFailed, false, &tail) {
        Some(PdfEncodeOutcome::Failed(e)) => assert_eq!(e.into_dto().code, "PDF_ENGINE_UNAVAILABLE"),
        other => panic!("unexpected {other:?}"),
    }
    assert_eq!(exit_failure(None, &Vec::new()).to_string(), "PDF optimization failed (exit unknown)");
}

#[test]
fn corrupt_pdf_is_failed_and_no_partial() {
    match check_verdict(&ChildRun::Exited { success: false, code: Some(2) }) {
        Some(PdfEncodeOutcome::Failed(e)) => assert_eq!(e.to_string(), "Optimized PDF failed validation"),
        other => panic!("unexpected {other:?}"),
    }
    assert!(check_verdict(&ChildRun::Exited { success: true, code: Some(0) }).is_none());
    assert!(matches!(check_verdict(&ChildRun::Canceled), Some(PdfEncodeOutcome::Canceled)));
}

#[test]
fn already_optimized_equality_cleanup() {
    match size_verdict(Some(1_000), Ok(1_000), false) {
        SizeVerdict::Finish { outcome: PdfEncodeOutcome::AlreadyOptimized, discard_partial } => assert!(discard_partial),
        other => panic!("unexpected {other:?}"),
    }
    assert!(matches!(size_verdict(Some(1_000), Ok(999), false), SizeVerdict::Commit { output_size: 999 }));
    assert!(matches!(
        size_verdict(Some(1_000), Ok(999), true),
        SizeVerdict::Finish { outcome: PdfEncodeOutcome::Canceled, discard_partial: true }
    ));
    match size_verdict(Some(1_000), Ok(0), false) {
        SizeVerdict::Finish { outcome: PdfEncodeOutcome::Failed(e), discard_partial: true } => {
            assert_eq!(e.to_string(), "PDF engine produced an empty output")
        },
        other => panic!("unexpected {other:?}"),
    }
    match size_verdict(None, Ok(10), false) {
        SizeVerdict::Finish { outcome: PdfEncodeOutcome::Failed(e), discard_partial: true } => {
            assert_eq!(e.into_dto().code, "FILE_NOT_FOUND")
        },
        other => panic!("unexpected {other:?}"),
    }
    match size_verdict(Some(10), Err("gone".to_string()), false) {
        SizeVerdict::Finish { outcome: PdfEncodeOutcome::Failed(e), discard_partial: false } => {
            assert_eq!(e.to_string(), "Could not read optimized output: gone")
        },
        other => panic!("unexpected {other:?}"),
    }
    assert!(matches!(commit_verdict(Ok(()), "/o/a.pdf", 5), PdfEncodeOutcome::Optimized { output_size: 5 }));
}

#[test]
fn batch_isolation_and_no_partial_residue() {
    let mut batch = PdfBatch::new();
    assert!(batch.start_next(false));
    batch.record_optimized("a.pdf".to_string(), 100, "a-optimized.pdf".to_string(), 50);
    assert!(batch.start_next(false));
    batch.record_failure("b.pdf".to_string(), 10, ProcessingError::invalid_pdf("Optimized PDF failed validation"));
    assert!(batch.start_next(false));
    batch.record_already_optimized("c.pdf".to_string(), 10);
    let result = batch.finish(3);
    assert_eq!((result.total, result.optimized, result.already_optimized, result.failed), (3, 1, 1, 1));
    assert_eq!(result.items.len(), 3);
}

#[test]
fn cancellation_stops_the_batch() {
    let mut batch = PdfBatch::new();
    assert!(batch.start_next(false));
    batch.record_canceled("a.pdf".to_string(), 100);
    assert!(!batch.start_next(false));
    let result = batch.finish(2);
    assert_eq!(result.total, 2);
    assert_eq!(result.items.len(), 1);
    assert_eq!(result.items[0].error.as_ref().unwrap().code, "CANCELED");
}

// --- engine resolution ---

#[test]
fn returns_unavailable_when_no_candidate_exists() {
    let result = resolve_from_candidates(vec!["C:/definitely/not/qpdf.exe".to_string()], |path: &String| {
        std::path::Path::new(path).is_file()
    });
    assert_eq!(result.unwrap_err().into_dto().code, "PDF_ENGINE_UNAVAILABLE");
}

#[test]
fn resolves_first_existing_candidate() {
    let candidates = vec!["/x/missing.exe".to_string(), "/x/qpdf.exe".to_string(), "/x/later.exe".to_string()];
    let resolved = resolve_from_candidates(candidates, |path: &String| path != "/x/missing.exe").unwrap();
    assert_eq!(resolved, "/x/qpdf.exe");
}

#[test]
fn failed_reads_map_to_the_parser_io_errors() {
    assert_eq!(map_parser_error(read_parser_failure(ReadFailure::NotFound)).to_string(), "File not found");
    assert_eq!(map_parser_error(read_parser_failure(ReadFailure::PermissionDenied)).to_string(), "Could not read PDF file");
    assert_eq!(map_parser_error(read_parser_failure(ReadFailure::Other)).to_string(), "This PDF could not be read");
}
