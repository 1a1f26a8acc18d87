//! Decisions of PDF inspection and validation: size, extension and header
//! checks, and the interpretation of qpdf's answers (encryption, page count,
//! signature fields).

use vstd::prelude::*;

use crate::errors::{ErrorKind, ProcessingError};
use crate::text::{
    chars_eq_str, chars_of, contains_str, contains_sub, dec, parse_u32, parse_u32_spec, push_dec,
    push_str, string_of, trim, trim_chars,
};

verus! {

pub const MAX_PDF_BYTES: u64 = 100 * 1024 * 1024;

pub const MAX_PDF_PAGES: u32 = 500;

/// `%PDF-`, the marker a PDF header carries within its first KiB.
pub open spec fn pdf_magic() -> Seq<u8> {
    seq![0x25u8, 0x50u8, 0x44u8, 0x46u8, 0x2du8]
}

/// The marker occurs in `bytes`.
pub open spec fn has_magic_spec(bytes: Seq<u8>) -> bool {
    exists|i: int| 0 <= i && i + 5 <= bytes.len() && #[trigger] bytes.subrange(i, i + 5) == pdf_magic()
}

/// What reading the first KiB of a file gave.
#[derive(Debug, Clone)]
pub enum HeaderRead {
    /// The file could not be opened.
    OpenFailed,
    /// The file opened but reading failed.
    ReadFailed,
    /// The bytes read (at most 1 KiB).
    Bytes(Vec<u8>),
}

/// Whether the header bytes hold `%PDF-`.
pub fn has_pdf_magic(bytes: &Vec<u8>) -> (b: bool)
    ensures
        b == has_magic_spec(bytes@),
{
    if bytes.len() < 5 {
        return false;
    }
    let mut i: usize = 0;
    while i <= bytes.len() - 5
        invariant
            bytes.len() >= 5,
            i <= bytes.len() - 4,
            forall|j: int| 0 <= j < i ==> #[trigger] bytes@.subrange(j, j + 5) != pdf_magic(),
        decreases bytes.len() - i,
    {
        if bytes[i] == 0x25 && bytes[i + 1] == 0x50 && bytes[i + 2] == 0x44 && bytes[i + 3] == 0x46
            && bytes[i + 4] == 0x2d {
            assert(bytes@.subrange(i as int, i + 5) =~= pdf_magic());
            return true;
        }
        assert(bytes@.subrange(i as int, i + 5) != pdf_magic()) by {
            let w = bytes@.subrange(i as int, i + 5);
            if w == pdf_magic() {
                assert(w[0] == bytes@[i as int] && w[1] == bytes@[i + 1] && w[2] == bytes@[i + 2]
                    && w[3] == bytes@[i + 3] && w[4] == bytes@[i + 4]);
            }
        }
        i = i + 1;
    }
    false
}

/// The verdict of the lightweight inspection of one PDF: `Ok` when it is
/// ready, otherwise the reason shown to the user. Checks, in order: empty
/// file, size limit, `.pdf` extension (already lowercased), then the header.
pub open spec fn lightweight_inspection_spec(size: u64, extension: Seq<char>, header: HeaderRead) -> Result<(), Seq<char>> {
    if size == 0 {
        Err("File is empty"@)
    } else if size > MAX_PDF_BYTES {
        Err("File exceeds maximum size limit (100 MB)"@)
    } else if extension != "pdf"@ {
        Err("Unsupported format (expected .pdf)"@)
    } else {
        match header {
            HeaderRead::OpenFailed => Err("Could not read file"@),
            HeaderRead::ReadFailed => Err("Could not read file header"@),
            HeaderRead::Bytes(b) => if b@.len() < 4 {
                Err("Could not read file header"@)
            } else if has_magic_spec(b@) {
                Ok(())
            } else {
                Err("Not a valid PDF file"@)
            },
        }
    }
}

pub open spec fn string_result(r: Result<(), String>) -> Result<(), Seq<char>> {
    match r {
        Ok(()) => Ok(()),
        Err(s) => Err(s@),
    }
}

/// Whether the size and extension allow the header to be read at all.
pub fn needs_header(size: u64, extension: &str) -> (b: bool)
    ensures
        b == (size != 0 && size <= MAX_PDF_BYTES && extension@ == "pdf"@),
{
    let ext = chars_of(extension);
    size != 0 && size <= MAX_PDF_BYTES && chars_eq_str(&ext, "pdf")
}

/// The lightweight inspection of one PDF (no engine needed). The header is
/// consulted only when the size and extension pass.
pub fn lightweight_inspection(size: u64, extension: &str, header: HeaderRead) -> (r: Result<(), String>)
    ensures
        string_result(r) == lightweight_inspection_spec(size, extension@, header),
{
    if size == 0 {
        return Err("File is empty".to_owned());
    }
    if size > MAX_PDF_BYTES {
        return Err("File exceeds maximum size limit (100 MB)".to_owned());
    }
    let ext = chars_of(extension);
    if !chars_eq_str(&ext, "pdf") {
        return Err("Unsupported format (expected .pdf)".to_owned());
    }
    match header {
        HeaderRead::OpenFailed => Err("Could not read file".to_owned()),
        HeaderRead::ReadFailed => Err("Could not read file header".to_owned()),
        HeaderRead::Bytes(b) => {
            if b.len() < 4 {
                Err("Could not read file header".to_owned())
            } else if has_pdf_magic(&b) {
                Ok(())
            } else {
                Err("Not a valid PDF file".to_owned())
            }
        },
    }
}

/// What the filesystem said about a path before validation.
#[derive(Debug, Clone, Copy, PartialEq, Eq, Structural)]
pub enum PathStatus {
    /// The path does not exist.
    Missing,
    /// The path exists but its metadata could not be read.
    Unreadable,
    /// The path is not a regular file.
    NotAFile,
    /// A regular file of this size.
    File(u64),
}

/// The processing-time revalidation of a PDF before optimization, up to the
/// header: missing, unreadable, not a file, empty, too large, wrong
/// extension, unreadable or missing header.
pub open spec fn validation_basics_spec(path: PathStatus, extension: Seq<char>, header: HeaderRead) -> Result<(), (ErrorKind, Seq<char>)> {
    match path {
        PathStatus::Missing => Err((ErrorKind::FileNotFound, "File not found"@)),
        PathStatus::Unreadable => Err((ErrorKind::PermissionDenied, "Could not read file"@)),
        PathStatus::NotAFile => Err((ErrorKind::InvalidPdf, "PDF path is not a file"@)),
        PathStatus::File(size) => if size == 0 {
            Err((ErrorKind::InvalidPdf, "PDF file is empty"@))
        } else if size > MAX_PDF_BYTES {
            Err((ErrorKind::LimitExceeded, "PDF exceeds maximum size limit (100 MB)"@))
        } else if extension != "pdf"@ {
            Err((ErrorKind::UnsupportedFormat, "Unsupported format (expected .pdf)"@))
        } else {
            match header {
                HeaderRead::OpenFailed => Err((ErrorKind::PermissionDenied, "Could not read file"@)),
                HeaderRead::ReadFailed => Err((ErrorKind::InvalidPdf, "Could not read file header"@)),
                HeaderRead::Bytes(b) => if b@.len() < 4 || !has_magic_spec(b@) {
                    Err((ErrorKind::InvalidPdf, "Not a valid PDF file"@))
                } else {
                    Ok(())
                },
            }
        },
    }
}

pub open spec fn error_result(r: Result<(), ProcessingError>) -> Result<(), (ErrorKind, Seq<char>)> {
    match r {
        Ok(()) => Ok(()),
        Err(e) => Err((e.kind(), e.message_view())),
    }
}

/// Validates a PDF's path, size, extension (already ASCII-lowercased) and
/// header before the engine is consulted.
pub fn validate_basics(path: PathStatus, extension: &str, header: HeaderRead) -> (r: Result<(), ProcessingError>)
    ensures
        error_result(r) == validation_basics_spec(path, extension@, header),
{
    let size = match path {
        PathStatus::Missing => return Err(ProcessingError::file_not_found("File not found")),
        PathStatus::Unreadable => return Err(ProcessingError::permission_denied("Could not read file")),
        PathStatus::NotAFile => return Err(ProcessingError::invalid_pdf("PDF path is not a file")),
        PathStatus::File(size) => size,
    };
    if size == 0 {
        return Err(ProcessingError::invalid_pdf("PDF file is empty"));
    }
    if size > MAX_PDF_BYTES {
        return Err(ProcessingError::limit_exceeded("PDF exceeds maximum size limit (100 MB)"));
    }
    let ext = chars_of(extension);
    if !chars_eq_str(&ext, "pdf") {
        return Err(ProcessingError::unsupported_format("Unsupported format (expected .pdf)"));
    }
    match header {
        HeaderRead::OpenFailed => Err(ProcessingError::permission_denied("Could not read file")),
        HeaderRead::ReadFailed => Err(ProcessingError::invalid_pdf("Could not read file header")),
        HeaderRead::Bytes(b) => {
            if b.len() < 4 || !has_pdf_magic(&b) {
                Err(ProcessingError::invalid_pdf("Not a valid PDF file"))
            } else {
                Ok(())
            }
        },
    }
}

// ---------------------------------------------------------------------------
// qpdf answers
// ---------------------------------------------------------------------------

pub open spec fn unopenable_message() -> Seq<char> {
    "This PDF could not be opened"@
}

/// `qpdf --is-encrypted`: exit 0 means encrypted; exit 2 with an empty stderr
/// means not encrypted; anything else (including warnings) is a damaged file.
pub open spec fn encryption_answer_spec(success: bool, code: Option<i32>, stderr_empty: bool) -> Result<bool, (ErrorKind, Seq<char>)> {
    if success {
        Ok(true)
    } else if code == Some(2i32) && stderr_empty {
        Ok(false)
    } else {
        Err((ErrorKind::InvalidPdf, unopenable_message()))
    }
}

/// Interprets the answer of `qpdf --is-encrypted`.
pub fn is_pdf_encrypted(success: bool, code: Option<i32>, stderr_empty: bool) -> (r: Result<bool, ProcessingError>)
    ensures
        match (r, encryption_answer_spec(success, code, stderr_empty)) {
            (Ok(a), Ok(b)) => a == b,
            (Err(e), Err((k, m))) => e.is(k, m),
            _ => false,
        },
{
    if success {
        return Ok(true);
    }
    if let Some(c) = code {
        if c == 2 && stderr_empty {
            return Ok(false);
        }
    }
    Err(ProcessingError::invalid_pdf("This PDF could not be opened"))
}

/// `qpdf --show-npages`: on success, the trimmed stdout parsed as a page
/// count; a failed run or an unparsable count means the PDF cannot be opened.
pub open spec fn page_count_spec(success: bool, stdout: Seq<char>) -> Option<u32> {
    if success { parse_u32_spec(trim(stdout)) } else { None }
}

/// Interprets the answer of `qpdf --show-npages`.
pub fn get_pdf_page_count(success: bool, stdout: &str) -> (r: Result<u32, ProcessingError>)
    ensures
        match page_count_spec(success, stdout@) {
            Some(n) => r == Ok::<u32, ProcessingError>(n),
            None => r matches Err(e) && e.is(ErrorKind::InvalidPdf, unopenable_message()),
        },
{
    if !success {
        return Err(ProcessingError::invalid_pdf("This PDF could not be opened"));
    }
    let raw = chars_of(stdout);
    let t = trim_chars(&raw);
    match parse_u32(&t) {
        Some(n) => Ok(n),
        None => Err(ProcessingError::invalid_pdf("This PDF could not be opened")),
    }
}

/// The message for a PDF over the page limit.
pub open spec fn page_limit_message(pages: u32) -> Seq<char> {
    "PDF exceeds maximum limit of 500 pages (found "@ + dec(pages as nat) + ")"@
}

pub fn page_limit_text(pages: u32) -> (s: String)
    ensures
        s@ == page_limit_message(pages),
{
    let mut m: Vec<char> = Vec::new();
    push_str(&mut m, "PDF exceeds maximum limit of 500 pages (found ");
    push_dec(&mut m, pages as u64);
    push_str(&mut m, ")");
    string_of(&m)
}

/// The page-count rule for optimization: at least one page, at most 500.
pub fn check_page_limit(pages: u32) -> (r: Result<(), ProcessingError>)
    ensures
        pages == 0 ==> (r matches Err(e) && e.is(ErrorKind::InvalidPdf, "No pages found in PDF"@)),
        pages > MAX_PDF_PAGES ==> (r matches Err(e) && e.is(ErrorKind::LimitExceeded, page_limit_message(pages))),
        0 < pages <= MAX_PDF_PAGES ==> r is Ok,
{
    if pages == 0 {
        return Err(ProcessingError::invalid_pdf("No pages found in PDF"));
    }
    if pages > MAX_PDF_PAGES {
        return Err(ProcessingError::new(ErrorKind::LimitExceeded, page_limit_text(pages)));
    }
    Ok(())
}

/// `true` when one of the AcroForm field types is `/Sig`.
pub open spec fn has_sig_spec(fieldtypes: Seq<Option<String>>) -> bool {
    exists|i: int| 0 <= i < fieldtypes.len() && (#[trigger] fieldtypes[i] matches Some(t) && t@ == "/Sig"@)
}

/// Interprets the answer of `qpdf --json --json-key=acroform`. A failed run
/// is an encrypted PDF when stderr mentions an invalid password, otherwise a
/// damaged one; an unparsable report (`None`) is damaged; otherwise the PDF
/// has a signature field exactly when one field's type is `/Sig`.
pub fn has_signature_field(success: bool, stderr: &str, fieldtypes: Option<Vec<Option<String>>>) -> (r: Result<bool, ProcessingError>)
    ensures
        !success && contains_sub(stderr@, "invalid password"@) ==> (r matches Err(e)
            && e.is(ErrorKind::EncryptedPdf, "PDF is password-protected or encrypted"@)),
        !success && !contains_sub(stderr@, "invalid password"@) ==> (r matches Err(e)
            && e.is(ErrorKind::InvalidPdf, unopenable_message())),
        success && fieldtypes is None ==> (r matches Err(e) && e.is(ErrorKind::InvalidPdf, unopenable_message())),
        success && fieldtypes is Some ==> r == Ok::<bool, ProcessingError>(has_sig_spec(fieldtypes->0@)),
{
    if !success {
        let s = chars_of(stderr);
        if contains_str(&s, "invalid password") {
            return Err(ProcessingError::encrypted_pdf("PDF is password-protected or encrypted"));
        }
        return Err(ProcessingError::invalid_pdf("This PDF could not be opened"));
    }
    let types = match fieldtypes {
        Some(t) => t,
        None => return Err(ProcessingError::invalid_pdf("This PDF could not be opened")),
    };
    let mut i: usize = 0;
    while i < types.len()
        invariant
            success,
            fieldtypes == Some(types),
            i <= types.len(),
            forall|j: int| 0 <= j < i ==> !(#[trigger] types@[j] matches Some(t) && t@ == "/Sig"@),
        decreases types.len() - i,
    {
        if let Some(t) = &types[i] {
            let tv = chars_of(t.as_str());
            if chars_eq_str(&tv, "/Sig") {
                return Ok(true);
            }
        }
        i = i + 1;
    }
    Ok(false)
}

/// The message shown for a failed engine inspection: the message of the
/// engine-related kinds, a generic text otherwise.
pub open spec fn inspection_error_message_spec(kind: ErrorKind, message: Seq<char>) -> Seq<char> {
    match kind {
        ErrorKind::InvalidPdf | ErrorKind::PdfEngineUnavailable | ErrorKind::FileNotFound
        | ErrorKind::PermissionDenied | ErrorKind::EncryptedPdf => message,
        _ => "PDF could not be inspected"@,
    }
}

pub fn map_qpdf_inspection_error(err: ProcessingError) -> (m: String)
    ensures
        m@ == inspection_error_message_spec(err.kind(), err.message_view()),
{
    match err {
        ProcessingError::InvalidPdf { message } => message,
        ProcessingError::PdfEngineUnavailable { message } => message,
        ProcessingError::FileNotFound { message } => message,
        ProcessingError::PermissionDenied { message } => message,
        ProcessingError::EncryptedPdf { message } => message,
        _ => "PDF could not be inspected".to_owned(),
    }
}

// ---------------------------------------------------------------------------
// The strict checks before optimization
// ---------------------------------------------------------------------------

pub open spec fn encrypted_message() -> Seq<char> {
    "PDF is password-protected or encrypted"@
}

pub open spec fn signature_message() -> Seq<char> {
    "PDF contains a digital signature and cannot be optimized"@
}

/// The engine query on encryption is made (the lightweight inspection
/// passed and the engine is available).
pub open spec fn asks_encryption(base: Result<(), Seq<char>>, engine: bool) -> bool {
    base is Ok && engine
}

/// The page count is asked: the document is not encrypted.
pub open spec fn asks_pages(base: Result<(), Seq<char>>, engine: bool, enc: Result<bool, ProcessingError>) -> bool {
    asks_encryption(base, engine) && enc == Ok::<bool, ProcessingError>(false)
}

/// The signature fields are asked: the page count is within the limit.
pub open spec fn asks_signature(
    base: Result<(), Seq<char>>,
    engine: bool,
    enc: Result<bool, ProcessingError>,
    pages: Result<u32, ProcessingError>,
) -> bool {
    asks_pages(base, engine, enc) && (pages matches Ok(n) && n <= MAX_PDF_PAGES)
}

/// The inspection message of an engine failure.
pub open spec fn engine_error_message(e: ProcessingError) -> Seq<char> {
    inspection_error_message_spec(e.kind(), e.message_view())
}

/// The verdict of the inspection before optimization, from the lightweight
/// verdict, the engine's availability and the engine's answers, in the
/// order they are asked: encryption, page count (only the upper limit is
/// checked here), signature fields.
pub open spec fn optimization_inspection_spec(
    base: Result<(), Seq<char>>,
    engine: bool,
    enc: Result<bool, ProcessingError>,
    pages: Result<u32, ProcessingError>,
    sig: Result<bool, ProcessingError>,
) -> Result<(), Seq<char>> {
    if base is Err {
        base
    } else if !engine {
        Err("PDF engine is not available"@)
    } else {
        match enc {
            Err(e) => Err(engine_error_message(e)),
            Ok(true) => Err(encrypted_message()),
            Ok(false) => match pages {
                Err(e) => Err(engine_error_message(e)),
                Ok(n) => if n > MAX_PDF_PAGES {
                    Err(page_limit_message(n))
                } else {
                    match sig {
                        Err(e) => Err(engine_error_message(e)),
                        Ok(true) => Err(signature_message()),
                        Ok(false) => Ok(()),
                    }
                },
            },
        }
    }
}

/// The answers are ones the engine queries can give, for each query asked.
pub open spec fn answers_given<E, P, S>(
    is_encrypted: E,
    page_count: P,
    has_signature: S,
    base: Result<(), Seq<char>>,
    engine: bool,
    enc: Result<bool, ProcessingError>,
    pages: Result<u32, ProcessingError>,
    sig: Result<bool, ProcessingError>,
) -> bool where
    E: Fn() -> Result<bool, ProcessingError>,
    P: Fn() -> Result<u32, ProcessingError>,
    S: Fn() -> Result<bool, ProcessingError>,
{
    &&& asks_encryption(base, engine) ==> call_ensures(is_encrypted, (), enc)
    &&& asks_pages(base, engine, enc) ==> call_ensures(page_count, (), pages)
    &&& asks_signature(base, engine, enc, pages) ==> call_ensures(has_signature, (), sig)
}

fn error_message(e: &ProcessingError) -> (m: String)
    ensures
        m@ == engine_error_message(*e),
{
    map_qpdf_inspection_error(ProcessingError::new(e.error_kind(), e.to_string()))
}

/// The strict inspection of a PDF before optimization: after the
/// lightweight verdict, the engine is asked (each query only when the
/// previous ones passed) whether the PDF is encrypted, how many pages it
/// has, and whether it holds a signature field. The result is the
/// message shown to the user, or `Ok` when the PDF is ready.
pub fn optimization_inspection<E, P, S>(
    base: Result<(), String>,
    engine_available: bool,
    is_encrypted: E,
    page_count: P,
    has_signature: S,
) -> (r: Result<(), String>)
    where
        E: Fn() -> Result<bool, ProcessingError>,
        P: Fn() -> Result<u32, ProcessingError>,
        S: Fn() -> Result<bool, ProcessingError>,
    requires
        is_encrypted.requires(()),
        page_count.requires(()),
        has_signature.requires(()),
    ensures
        exists|enc: Result<bool, ProcessingError>, pages: Result<u32, ProcessingError>, sig: Result<bool, ProcessingError>|
            #[trigger] answers_given(is_encrypted, page_count, has_signature, string_result(base), engine_available, enc, pages, sig)
            && string_result(r) == optimization_inspection_spec(string_result(base), engine_available, enc, pages, sig),
{
    let ghost b = string_result(base);
    let ghost no_bool: Result<bool, ProcessingError> = Ok(false);
    let ghost no_pages: Result<u32, ProcessingError> = Ok(0);
    if let Err(m) = base {
        assert(answers_given(is_encrypted, page_count, has_signature, b, engine_available, no_bool, no_pages, no_bool));
        return Err(m);
    }
    if !engine_available {
        assert(answers_given(is_encrypted, page_count, has_signature, b, engine_available, no_bool, no_pages, no_bool));
        return Err("PDF engine is not available".to_owned());
    }
    let enc = is_encrypted();
    match &enc {
        Ok(true) => {
            assert(answers_given(is_encrypted, page_count, has_signature, b, engine_available, enc, no_pages, no_bool));
            return Err("PDF is password-protected or encrypted".to_owned());
        },
        Err(e) => {
            assert(answers_given(is_encrypted, page_count, has_signature, b, engine_available, enc, no_pages, no_bool));
            return Err(error_message(e));
        },
        Ok(false) => {},
    }
    let pages = page_count();
    match &pages {
        Err(e) => {
            assert(answers_given(is_encrypted, page_count, has_signature, b, engine_available, enc, pages, no_bool));
            return Err(error_message(e));
        },
        Ok(n) => {
            if *n > MAX_PDF_PAGES {
                assert(answers_given(is_encrypted, page_count, has_signature, b, engine_available, enc, pages, no_bool));
                return Err(page_limit_text(*n));
            }
        },
    }
    let sig = has_signature();
    assert(answers_given(is_encrypted, page_count, has_signature, b, engine_available, enc, pages, sig));
    match sig {
        Err(e) => Err(error_message(&e)),
        Ok(true) => Err("PDF contains a digital signature and cannot be optimized".to_owned()),
        Ok(false) => Ok(()),
    }
}

/// The revalidation of a PDF right before it is optimized, from the basic
/// checks and the engine's answers in the order they are asked; engine
/// failures are returned as they are.
pub open spec fn optimization_validation_spec(
    basics: Result<(), (ErrorKind, Seq<char>)>,
    enc: Result<bool, ProcessingError>,
    pages: Result<u32, ProcessingError>,
    sig: Result<bool, ProcessingError>,
) -> Result<(), (ErrorKind, Seq<char>)> {
    if basics is Err {
        basics
    } else {
        match enc {
            Err(e) => Err((e.kind(), e.message_view())),
            Ok(true) => Err((ErrorKind::EncryptedPdf, encrypted_message())),
            Ok(false) => match pages {
                Err(e) => Err((e.kind(), e.message_view())),
                Ok(n) => if n == 0 {
                    Err((ErrorKind::InvalidPdf, "No pages found in PDF"@))
                } else if n > MAX_PDF_PAGES {
                    Err((ErrorKind::LimitExceeded, page_limit_message(n)))
                } else {
                    match sig {
                        Err(e) => Err((e.kind(), e.message_view())),
                        Ok(true) => Err((ErrorKind::InvalidPdf, signature_message())),
                        Ok(false) => Ok(()),
                    }
                },
            },
        }
    }
}

/// The answers are ones the engine queries can give, for each query the
/// revalidation asks.
pub open spec fn validation_answers_given<E, P, S>(
    is_encrypted: E,
    page_count: P,
    has_signature: S,
    basics: Result<(), (ErrorKind, Seq<char>)>,
    enc: Result<bool, ProcessingError>,
    pages: Result<u32, ProcessingError>,
    sig: Result<bool, ProcessingError>,
) -> bool where
    E: Fn() -> Result<bool, ProcessingError>,
    P: Fn() -> Result<u32, ProcessingError>,
    S: Fn() -> Result<bool, ProcessingError>,
{
    &&& basics is Ok ==> call_ensures(is_encrypted, (), enc)
    &&& basics is Ok && enc == Ok::<bool, ProcessingError>(false) ==> call_ensures(page_count, (), pages)
    &&& basics is Ok && enc == Ok::<bool, ProcessingError>(false) && (pages matches Ok(n) && 0 < n <= MAX_PDF_PAGES)
        ==> call_ensures(has_signature, (), sig)
}

/// Revalidates a PDF before optimization: the basic checks, then the
/// engine's answers on encryption, page count and signature fields.
pub fn validate_pdf_for_optimization<E, P, S>(
    basics: Result<(), ProcessingError>,
    is_encrypted: E,
    page_count: P,
    has_signature: S,
) -> (r: Result<(), ProcessingError>)
    where
        E: Fn() -> Result<bool, ProcessingError>,
        P: Fn() -> Result<u32, ProcessingError>,
        S: Fn() -> Result<bool, ProcessingError>,
    requires
        is_encrypted.requires(()),
        page_count.requires(()),
        has_signature.requires(()),
    ensures
        exists|enc: Result<bool, ProcessingError>, pages: Result<u32, ProcessingError>, sig: Result<bool, ProcessingError>|
            #[trigger] validation_answers_given(is_encrypted, page_count, has_signature, error_result(basics), enc, pages, sig)
            && error_result(r) == optimization_validation_spec(error_result(basics), enc, pages, sig),
{
    let ghost b = error_result(basics);
    let ghost no_bool: Result<bool, ProcessingError> = Ok(false);
    let ghost no_pages: Result<u32, ProcessingError> = Ok(0);
    if let Err(e) = basics {
        assert(validation_answers_given(is_encrypted, page_count, has_signature, b, no_bool, no_pages, no_bool));
        return Err(e);
    }
    let enc = is_encrypted();
    let encrypted = match enc {
        Ok(x) => x,
        Err(e) => {
            assert(validation_answers_given(is_encrypted, page_count, has_signature, b, enc, no_pages, no_bool));
            return Err(e);
        },
    };
    if encrypted {
        assert(validation_answers_given(is_encrypted, page_count, has_signature, b, enc, no_pages, no_bool));
        return Err(ProcessingError::encrypted_pdf("PDF is password-protected or encrypted"));
    }
    let pages = page_count();
    let n = match pages {
        Ok(n) => n,
        Err(e) => {
            assert(validation_answers_given(is_encrypted, page_count, has_signature, b, enc, pages, no_bool));
            return Err(e);
        },
    };
    match check_page_limit(n) {
        Ok(()) => {},
        Err(e) => {
            assert(validation_answers_given(is_encrypted, page_count, has_signature, b, enc, pages, no_bool));
            return Err(e);
        },
    }
    let sig = has_signature();
    assert(validation_answers_given(is_encrypted, page_count, has_signature, b, enc, pages, sig));
    match sig {
        Err(e) => Err(e),
        Ok(true) => Err(ProcessingError::invalid_pdf("PDF contains a digital signature and cannot be optimized")),
        Ok(false) => Ok(()),
    }
}

/// A PDF whose header passes has an accepted size and the `pdf` extension.
pub proof fn law_ready_pdf_is_within_limits(size: u64, extension: Seq<char>, header: HeaderRead)
    requires
        lightweight_inspection_spec(size, extension, header) is Ok,
    ensures
        0 < size <= MAX_PDF_BYTES,
        extension == "pdf"@,
        header matches HeaderRead::Bytes(b) && has_magic_spec(b@),
{
}

} // verus!
