use toolbox::errors::{ProcessingError, ProcessingErrorDto};

#[test]
fn all_variants_map_to_stable_codes() {
    let cases = [
        (ProcessingError::unsupported_format("x"), "UNSUPPORTED_FORMAT"),
        (ProcessingError::invalid_image("x"), "INVALID_IMAGE"),
        (ProcessingError::invalid_dimensions("x"), "INVALID_DIMENSIONS"),
        (ProcessingError::file_not_found("x"), "FILE_NOT_FOUND"),
        (ProcessingError::permission_denied("x"), "PERMISSION_DENIED"),
        (ProcessingError::output_unavailable("x"), "OUTPUT_UNAVAILABLE"),
        (ProcessingError::encode_failed("x"), "ENCODE_FAILED"),
        (ProcessingError::decode_failed("x"), "DECODE_FAILED"),
        (ProcessingError::write_failed("x"), "WRITE_FAILED"),
        (ProcessingError::processing_failed("x"), "PROCESSING_FAILED"),
        (ProcessingError::invalid_pdf("x"), "INVALID_PDF"),
        (ProcessingError::invalid_video("x"), "INVALID_VIDEO"),
        (ProcessingError::video_engine_unavailable("x"), "VIDEO_ENGINE_UNAVAILABLE"),
        (ProcessingError::pdf_engine_unavailable("x"), "PDF_ENGINE_UNAVAILABLE"),
        (ProcessingError::encrypted_pdf("x"), "ENCRYPTED_PDF"),
        (ProcessingError::ocr_required("x"), "OCR_REQUIRED"),
        (ProcessingError::limit_exceeded("x"), "LIMIT_EXCEEDED"),
    ];
    for (error, expected_code) in cases {
        let dto = error.into_dto();
        assert_eq!(dto.code, expected_code);
        assert!(!dto.message.is_empty());
        assert_eq!(dto.detail, None);
    }
}

#[test]
fn canceled_is_a_direct_dto_pseudo_code() {
    let dto = ProcessingErrorDto::canceled();
    assert_eq!(dto.code, "CANCELED");
    assert_eq!(dto.message, "Processing canceled");
    assert_eq!(dto.detail, None);
}

#[test]
fn dto_keeps_the_message_of_the_error() {
    let dto = ProcessingError::invalid_pdf("This PDF could not be opened").into_dto();
    assert_eq!(dto.code, "INVALID_PDF");
    assert_eq!(dto.message, "This PDF could not be opened");
}

#[test]
fn generic_failure_dto_uses_processing_failed() {
    let dto = ProcessingErrorDto::processing_failed("boom");
    assert_eq!(dto.code, "PROCESSING_FAILED");
    assert_eq!(dto.message, "boom");
    assert_eq!(dto.detail, None);
}

#[test]
fn to_string_is_the_message() {
    let error = ProcessingError::invalid_dimensions("Width and height must be greater than zero");
    assert_eq!(error.to_string(), "Width and height must be greater than zero");
    assert_eq!(error.into_message(), "Width and height must be greater than zero");
}
