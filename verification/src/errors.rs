//! Typed processing failures and the serializable error shape the frontend
//! receives. Every failure kind maps to one stable, distinct code.

use vstd::prelude::*;

verus! {

/// The kind of a processing failure, without its message.
#[derive(Debug, Clone, Copy, PartialEq, Eq, Structural)]
pub enum ErrorKind {
    UnsupportedFormat,
    InvalidImage,
    InvalidDimensions,
    FileNotFound,
    PermissionDenied,
    OutputUnavailable,
    EncodeFailed,
    DecodeFailed,
    WriteFailed,
    ProcessingFailed,
    InvalidPdf,
    InvalidVideo,
    VideoEngineUnavailable,
    PdfEngineUnavailable,
    EncryptedPdf,
    OcrRequired,
    LimitExceeded,
}

#[derive(Debug)]
pub enum ProcessingError {
    UnsupportedFormat { message: String },
    InvalidImage { message: String },
    InvalidDimensions { message: String },
    FileNotFound { message: String },
    PermissionDenied { message: String },
    OutputUnavailable { message: String },
    EncodeFailed { message: String },
    DecodeFailed { message: String },
    WriteFailed { message: String },
    ProcessingFailed { message: String },
    InvalidPdf { message: String },
    InvalidVideo { message: String },
    VideoEngineUnavailable { message: String },
    PdfEngineUnavailable { message: String },
    EncryptedPdf { message: String },
    OcrRequired { message: String },
    LimitExceeded { message: String },
}

/// The stable code reported for each failure kind.
pub open spec fn code_of(kind: ErrorKind) -> Seq<char> {
    match kind {
        ErrorKind::UnsupportedFormat => "UNSUPPORTED_FORMAT"@,
        ErrorKind::InvalidImage => "INVALID_IMAGE"@,
        ErrorKind::InvalidDimensions => "INVALID_DIMENSIONS"@,
        ErrorKind::FileNotFound => "FILE_NOT_FOUND"@,
        ErrorKind::PermissionDenied => "PERMISSION_DENIED"@,
        ErrorKind::OutputUnavailable => "OUTPUT_UNAVAILABLE"@,
        ErrorKind::EncodeFailed => "ENCODE_FAILED"@,
        ErrorKind::DecodeFailed => "DECODE_FAILED"@,
        ErrorKind::WriteFailed => "WRITE_FAILED"@,
        ErrorKind::ProcessingFailed => "PROCESSING_FAILED"@,
        ErrorKind::InvalidPdf => "INVALID_PDF"@,
        ErrorKind::InvalidVideo => "INVALID_VIDEO"@,
        ErrorKind::VideoEngineUnavailable => "VIDEO_ENGINE_UNAVAILABLE"@,
        ErrorKind::PdfEngineUnavailable => "PDF_ENGINE_UNAVAILABLE"@,
        ErrorKind::EncryptedPdf => "ENCRYPTED_PDF"@,
        ErrorKind::OcrRequired => "OCR_REQUIRED"@,
        ErrorKind::LimitExceeded => "LIMIT_EXCEEDED"@,
    }
}

/// The pseudo-code of a file stopped by batch cancellation.
pub open spec fn canceled_code() -> Seq<char> {
    "CANCELED"@
}

impl ProcessingError {
    pub open spec fn kind(&self) -> ErrorKind {
        match self {
            ProcessingError::UnsupportedFormat { .. } => ErrorKind::UnsupportedFormat,
            ProcessingError::InvalidImage { .. } => ErrorKind::InvalidImage,
            ProcessingError::InvalidDimensions { .. } => ErrorKind::InvalidDimensions,
            ProcessingError::FileNotFound { .. } => ErrorKind::FileNotFound,
            ProcessingError::PermissionDenied { .. } => ErrorKind::PermissionDenied,
            ProcessingError::OutputUnavailable { .. } => ErrorKind::OutputUnavailable,
            ProcessingError::EncodeFailed { .. } => ErrorKind::EncodeFailed,
            ProcessingError::DecodeFailed { .. } => ErrorKind::DecodeFailed,
            ProcessingError::WriteFailed { .. } => ErrorKind::WriteFailed,
            ProcessingError::ProcessingFailed { .. } => ErrorKind::ProcessingFailed,
            ProcessingError::InvalidPdf { .. } => ErrorKind::InvalidPdf,
            ProcessingError::InvalidVideo { .. } => ErrorKind::InvalidVideo,
            ProcessingError::VideoEngineUnavailable { .. } => ErrorKind::VideoEngineUnavailable,
            ProcessingError::PdfEngineUnavailable { .. } => ErrorKind::PdfEngineUnavailable,
            ProcessingError::EncryptedPdf { .. } => ErrorKind::EncryptedPdf,
            ProcessingError::OcrRequired { .. } => ErrorKind::OcrRequired,
            ProcessingError::LimitExceeded { .. } => ErrorKind::LimitExceeded,
        }
    }

    pub open spec fn message_view(&self) -> Seq<char> {
        match self {
            ProcessingError::UnsupportedFormat { message } => message@,
            ProcessingError::InvalidImage { message } => message@,
            ProcessingError::InvalidDimensions { message } => message@,
            ProcessingError::FileNotFound { message } => message@,
            ProcessingError::PermissionDenied { message } => message@,
            ProcessingError::OutputUnavailable { message } => message@,
            ProcessingError::EncodeFailed { message } => message@,
            ProcessingError::DecodeFailed { message } => message@,
            ProcessingError::WriteFailed { message } => message@,
            ProcessingError::ProcessingFailed { message } => message@,
            ProcessingError::InvalidPdf { message } => message@,
            ProcessingError::InvalidVideo { message } => message@,
            ProcessingError::VideoEngineUnavailable { message } => message@,
            ProcessingError::PdfEngineUnavailable { message } => message@,
            ProcessingError::EncryptedPdf { message } => message@,
            ProcessingError::OcrRequired { message } => message@,
            ProcessingError::LimitExceeded { message } => message@,
        }
    }

    /// `true` when this error is of `kind` and carries `message`.
    pub open spec fn is(&self, kind: ErrorKind, message: Seq<char>) -> bool {
        self.kind() == kind && self.message_view() == message
    }

    /// Builds the failure of `kind` with `message`.
    pub fn new(kind: ErrorKind, message: String) -> (e: Self)
        ensures
            e.is(kind, message@),
    {
        match kind {
            ErrorKind::UnsupportedFormat => ProcessingError::UnsupportedFormat { message },
            ErrorKind::InvalidImage => ProcessingError::InvalidImage { message },
            ErrorKind::InvalidDimensions => ProcessingError::InvalidDimensions { message },
            ErrorKind::FileNotFound => ProcessingError::FileNotFound { message },
            ErrorKind::PermissionDenied => ProcessingError::PermissionDenied { message },
            ErrorKind::OutputUnavailable => ProcessingError::OutputUnavailable { message },
            ErrorKind::EncodeFailed => ProcessingError::EncodeFailed { message },
            ErrorKind::DecodeFailed => ProcessingError::DecodeFailed { message },
            ErrorKind::WriteFailed => ProcessingError::WriteFailed { message },
            ErrorKind::ProcessingFailed => ProcessingError::ProcessingFailed { message },
            ErrorKind::InvalidPdf => ProcessingError::InvalidPdf { message },
            ErrorKind::InvalidVideo => ProcessingError::InvalidVideo { message },
            ErrorKind::VideoEngineUnavailable => ProcessingError::VideoEngineUnavailable { message },
            ErrorKind::PdfEngineUnavailable => ProcessingError::PdfEngineUnavailable { message },
            ErrorKind::EncryptedPdf => ProcessingError::EncryptedPdf { message },
            ErrorKind::OcrRequired => ProcessingError::OcrRequired { message },
            ErrorKind::LimitExceeded => ProcessingError::LimitExceeded { message },
        }
    }

    /// Builds the failure of `kind` from a message slice.
    pub fn with(kind: ErrorKind, message: &str) -> (e: Self)
        ensures
            e.is(kind, message@),
    {
        Self::new(kind, message.to_owned())
    }

    pub fn unsupported_format(message: &str) -> (e: Self)
        ensures
            e.is(ErrorKind::UnsupportedFormat, message@),
    {
        Self::with(ErrorKind::UnsupportedFormat, message)
    }

    pub fn invalid_image(message: &str) -> (e: Self)
        ensures
            e.is(ErrorKind::InvalidImage, message@),
    {
        Self::with(ErrorKind::InvalidImage, message)
    }

    pub fn invalid_dimensions(message: &str) -> (e: Self)
        ensures
            e.is(ErrorKind::InvalidDimensions, message@),
    {
        Self::with(ErrorKind::InvalidDimensions, message)
    }

    pub fn file_not_found(message: &str) -> (e: Self)
        ensures
            e.is(ErrorKind::FileNotFound, message@),
    {
        Self::with(ErrorKind::FileNotFound, message)
    }

    pub fn permission_denied(message: &str) -> (e: Self)
        ensures
            e.is(ErrorKind::PermissionDenied, message@),
    {
        Self::with(ErrorKind::PermissionDenied, message)
    }

    pub fn output_unavailable(message: &str) -> (e: Self)
        ensures
            e.is(ErrorKind::OutputUnavailable, message@),
    {
        Self::with(ErrorKind::OutputUnavailable, message)
    }

    pub fn encode_failed(message: &str) -> (e: Self)
        ensures
            e.is(ErrorKind::EncodeFailed, message@),
    {
        Self::with(ErrorKind::EncodeFailed, message)
    }

    pub fn decode_failed(message: &str) -> (e: Self)
        ensures
            e.is(ErrorKind::DecodeFailed, message@),
    {
        Self::with(ErrorKind::DecodeFailed, message)
    }

    pub fn write_failed(message: &str) -> (e: Self)
        ensures
            e.is(ErrorKind::WriteFailed, message@),
    {
        Self::with(ErrorKind::WriteFailed, message)
    }

    pub fn processing_failed(message: &str) -> (e: Self)
        ensures
            e.is(ErrorKind::ProcessingFailed, message@),
    {
        Self::with(ErrorKind::ProcessingFailed, message)
    }

    pub fn invalid_pdf(message: &str) -> (e: Self)
        ensures
            e.is(ErrorKind::InvalidPdf, message@),
    {
        Self::with(ErrorKind::InvalidPdf, message)
    }

    pub fn invalid_video(message: &str) -> (e: Self)
        ensures
            e.is(ErrorKind::InvalidVideo, message@),
    {
        Self::with(ErrorKind::InvalidVideo, message)
    }

    pub fn video_engine_unavailable(message: &str) -> (e: Self)
        ensures
            e.is(ErrorKind::VideoEngineUnavailable, message@),
    {
        Self::with(ErrorKind::VideoEngineUnavailable, message)
    }

    pub fn pdf_engine_unavailable(message: &str) -> (e: Self)
        ensures
            e.is(ErrorKind::PdfEngineUnavailable, message@),
    {
        Self::with(ErrorKind::PdfEngineUnavailable, message)
    }

    pub fn encrypted_pdf(message: &str) -> (e: Self)
        ensures
            e.is(ErrorKind::EncryptedPdf, message@),
    {
        Self::with(ErrorKind::EncryptedPdf, message)
    }

    pub fn ocr_required(message: &str) -> (e: Self)
        ensures
            e.is(ErrorKind::OcrRequired, message@),
    {
        Self::with(ErrorKind::OcrRequired, message)
    }

    pub fn limit_exceeded(message: &str) -> (e: Self)
        ensures
            e.is(ErrorKind::LimitExceeded, message@),
    {
        Self::with(ErrorKind::LimitExceeded, message)
    }

    /// The failure kind.
    pub fn error_kind(&self) -> (k: ErrorKind)
        ensures
            k == self.kind(),
    {
        match self {
            ProcessingError::UnsupportedFormat { .. } => ErrorKind::UnsupportedFormat,
            ProcessingError::InvalidImage { .. } => ErrorKind::InvalidImage,
            ProcessingError::InvalidDimensions { .. } => ErrorKind::InvalidDimensions,
            ProcessingError::FileNotFound { .. } => ErrorKind::FileNotFound,
            ProcessingError::PermissionDenied { .. } => ErrorKind::PermissionDenied,
            ProcessingError::OutputUnavailable { .. } => ErrorKind::OutputUnavailable,
            ProcessingError::EncodeFailed { .. } => ErrorKind::EncodeFailed,
            ProcessingError::DecodeFailed { .. } => ErrorKind::DecodeFailed,
            ProcessingError::WriteFailed { .. } => ErrorKind::WriteFailed,
            ProcessingError::ProcessingFailed { .. } => ErrorKind::ProcessingFailed,
            ProcessingError::InvalidPdf { .. } => ErrorKind::InvalidPdf,
            ProcessingError::InvalidVideo { .. } => ErrorKind::InvalidVideo,
            ProcessingError::VideoEngineUnavailable { .. } => ErrorKind::VideoEngineUnavailable,
            ProcessingError::PdfEngineUnavailable { .. } => ErrorKind::PdfEngineUnavailable,
            ProcessingError::EncryptedPdf { .. } => ErrorKind::EncryptedPdf,
            ProcessingError::OcrRequired { .. } => ErrorKind::OcrRequired,
            ProcessingError::LimitExceeded { .. } => ErrorKind::LimitExceeded,
        }
    }

    /// Consumes the error and returns its message.
    pub fn into_message(self) -> (m: String)
        ensures
            m@ == self.message_view(),
    {
        match self {
            ProcessingError::UnsupportedFormat { message } => message,
            ProcessingError::InvalidImage { message } => message,
            ProcessingError::InvalidDimensions { message } => message,
            ProcessingError::FileNotFound { message } => message,
            ProcessingError::PermissionDenied { message } => message,
            ProcessingError::OutputUnavailable { message } => message,
            ProcessingError::EncodeFailed { message } => message,
            ProcessingError::DecodeFailed { message } => message,
            ProcessingError::WriteFailed { message } => message,
            ProcessingError::ProcessingFailed { message } => message,
            ProcessingError::InvalidPdf { message } => message,
            ProcessingError::InvalidVideo { message } => message,
            ProcessingError::VideoEngineUnavailable { message } => message,
            ProcessingError::PdfEngineUnavailable { message } => message,
            ProcessingError::EncryptedPdf { message } => message,
            ProcessingError::OcrRequired { message } => message,
            ProcessingError::LimitExceeded { message } => message,
        }
    }

    /// The user-facing text of the error (its message).
    pub fn to_string(&self) -> (m: String)
        ensures
            m@ == self.message_view(),
    {
        match self {
            ProcessingError::UnsupportedFormat { message } => message.clone(),
            ProcessingError::InvalidImage { message } => message.clone(),
            ProcessingError::InvalidDimensions { message } => message.clone(),
            ProcessingError::FileNotFound { message } => message.clone(),
            ProcessingError::PermissionDenied { message } => message.clone(),
            ProcessingError::OutputUnavailable { message } => message.clone(),
            ProcessingError::EncodeFailed { message } => message.clone(),
            ProcessingError::DecodeFailed { message } => message.clone(),
            ProcessingError::WriteFailed { message } => message.clone(),
            ProcessingError::ProcessingFailed { message } => message.clone(),
            ProcessingError::InvalidPdf { message } => message.clone(),
            ProcessingError::InvalidVideo { message } => message.clone(),
            ProcessingError::VideoEngineUnavailable { message } => message.clone(),
            ProcessingError::PdfEngineUnavailable { message } => message.clone(),
            ProcessingError::EncryptedPdf { message } => message.clone(),
            ProcessingError::OcrRequired { message } => message.clone(),
            ProcessingError::LimitExceeded { message } => message.clone(),
        }
    }

    /// Converts the failure into the serializable shape: its stable code, its
    /// message, and no detail.
    pub fn into_dto(self) -> (dto: ProcessingErrorDto)
        ensures
            dto.code@ == code_of(self.kind()),
            dto.message@ == self.message_view(),
            dto.detail.is_none(),
    {
        let kind = self.error_kind();
        let code = code_string(kind);
        let message = self.into_message();
        ProcessingErrorDto { code, message, detail: None }
    }
}

/// The stable code of a failure kind, as a `String`.
pub fn code_string(kind: ErrorKind) -> (s: String)
    ensures
        s@ == code_of(kind),
{
    let code: &str = match kind {
        ErrorKind::UnsupportedFormat => "UNSUPPORTED_FORMAT",
        ErrorKind::InvalidImage => "INVALID_IMAGE",
        ErrorKind::InvalidDimensions => "INVALID_DIMENSIONS",
        ErrorKind::FileNotFound => "FILE_NOT_FOUND",
        ErrorKind::PermissionDenied => "PERMISSION_DENIED",
        ErrorKind::OutputUnavailable => "OUTPUT_UNAVAILABLE",
        ErrorKind::EncodeFailed => "ENCODE_FAILED",
        ErrorKind::DecodeFailed => "DECODE_FAILED",
        ErrorKind::WriteFailed => "WRITE_FAILED",
        ErrorKind::ProcessingFailed => "PROCESSING_FAILED",
        ErrorKind::InvalidPdf => "INVALID_PDF",
        ErrorKind::InvalidVideo => "INVALID_VIDEO",
        ErrorKind::VideoEngineUnavailable => "VIDEO_ENGINE_UNAVAILABLE",
        ErrorKind::PdfEngineUnavailable => "PDF_ENGINE_UNAVAILABLE",
        ErrorKind::EncryptedPdf => "ENCRYPTED_PDF",
        ErrorKind::OcrRequired => "OCR_REQUIRED",
        ErrorKind::LimitExceeded => "LIMIT_EXCEEDED",
    };
    code.to_owned()
}

/// The error shape sent to the frontend.
#[derive(Debug, Clone)]
pub struct ProcessingErrorDto {
    pub code: String,
    pub message: String,
    pub detail: Option<String>,
}

impl ProcessingErrorDto {
    /// A `PROCESSING_FAILED` error with `message` and no detail.
    pub fn processing_failed(message: &str) -> (dto: Self)
        ensures
            dto.code@ == code_of(ErrorKind::ProcessingFailed),
            dto.message@ == message@,
            dto.detail.is_none(),
    {
        ProcessingErrorDto {
            code: code_string(ErrorKind::ProcessingFailed),
            message: message.to_owned(),
            detail: None,
        }
    }

    /// The pseudo-error of a file stopped by batch cancellation: code
    /// `CANCELED`, message "Processing canceled", no detail.
    pub fn canceled() -> (dto: Self)
        ensures
            dto.code@ == canceled_code(),
            dto.message@ == "Processing canceled"@,
            dto.detail.is_none(),
    {
        ProcessingErrorDto {
            code: "CANCELED".to_owned(),
            message: "Processing canceled".to_owned(),
            detail: None,
        }
    }

    /// The serializable shape of a processing failure.
    pub fn from_error(error: ProcessingError) -> (dto: Self)
        ensures
            dto.code@ == code_of(error.kind()),
            dto.message@ == error.message_view(),
            dto.detail.is_none(),
    {
        error.into_dto()
    }
}

/// Every failure kind has its own code: two errors share a code only when
/// they are of the same kind.
pub proof fn law_codes_are_distinct(a: ErrorKind, b: ErrorKind)
    ensures
        code_of(a) == code_of(b) <==> a == b,
{
    reveal_strlit("UNSUPPORTED_FORMAT");
    reveal_strlit("INVALID_IMAGE");
    reveal_strlit("INVALID_DIMENSIONS");
    reveal_strlit("FILE_NOT_FOUND");
    reveal_strlit("PERMISSION_DENIED");
    reveal_strlit("OUTPUT_UNAVAILABLE");
    reveal_strlit("ENCODE_FAILED");
    reveal_strlit("DECODE_FAILED");
    reveal_strlit("WRITE_FAILED");
    reveal_strlit("PROCESSING_FAILED");
    reveal_strlit("INVALID_PDF");
    reveal_strlit("INVALID_VIDEO");
    reveal_strlit("VIDEO_ENGINE_UNAVAILABLE");
    reveal_strlit("PDF_ENGINE_UNAVAILABLE");
    reveal_strlit("ENCRYPTED_PDF");
    reveal_strlit("OCR_REQUIRED");
    reveal_strlit("LIMIT_EXCEEDED");
    if code_of(a) == code_of(b) && a != b {
        assert(code_of(a).len() == code_of(b).len());
        assert(code_of(a)[0] == code_of(b)[0]);
        assert(code_of(a)[1] == code_of(b)[1]);
        assert(code_of(a)[2] == code_of(b)[2]);
        assert(code_of(a)[3] == code_of(b)[3]);
        assert(code_of(a)[4] == code_of(b)[4]);
        assert(code_of(a)[8] == code_of(b)[8]);
    }
}

/// No failure kind uses the cancellation pseudo-code, and no code is empty.
pub proof fn law_cancellation_is_not_a_failure_code(kind: ErrorKind)
    ensures
        code_of(kind) != canceled_code(),
        code_of(kind).len() > 0,
{
    reveal_strlit("UNSUPPORTED_FORMAT");
    reveal_strlit("INVALID_IMAGE");
    reveal_strlit("INVALID_DIMENSIONS");
    reveal_strlit("FILE_NOT_FOUND");
    reveal_strlit("PERMISSION_DENIED");
    reveal_strlit("OUTPUT_UNAVAILABLE");
    reveal_strlit("ENCODE_FAILED");
    reveal_strlit("DECODE_FAILED");
    reveal_strlit("WRITE_FAILED");
    reveal_strlit("PROCESSING_FAILED");
    reveal_strlit("INVALID_PDF");
    reveal_strlit("INVALID_VIDEO");
    reveal_strlit("VIDEO_ENGINE_UNAVAILABLE");
    reveal_strlit("PDF_ENGINE_UNAVAILABLE");
    reveal_strlit("ENCRYPTED_PDF");
    reveal_strlit("OCR_REQUIRED");
    reveal_strlit("LIMIT_EXCEEDED");
    reveal_strlit("CANCELED");
    if code_of(kind) == canceled_code() {
        assert(code_of(kind).len() == canceled_code().len());
        assert(code_of(kind)[0] == canceled_code()[0]);
        assert(code_of(kind)[1] == canceled_code()[1]);
    }
}

/// Converting a failure into its serializable shape keeps its message and
/// reports exactly the code of its kind.
pub proof fn law_dto_round_trip(kind: ErrorKind, message: Seq<char>, e: ProcessingError, dto: ProcessingErrorDto)
    requires
        e.is(kind, message),
        dto.code@ == code_of(e.kind()),
        dto.message@ == e.message_view(),
    ensures
        dto.message@ == message,
        dto.code@ == code_of(kind),
        forall|other: ErrorKind| dto.code@ == code_of(other) ==> other == kind,
{
    assert forall|other: ErrorKind| dto.code@ == code_of(other) implies other == kind by {
        law_codes_are_distinct(other, kind);
    }
}

} // verus!
