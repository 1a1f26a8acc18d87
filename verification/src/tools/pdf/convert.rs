//! PDF to Markdown conversion: the prechecks on the source, the page guard
//! on the parser's page count, the assembly of the per-page Markdown with
//! OCR markers, and the mapping of parser and write failures.

use vstd::prelude::*;

use crate::errors::{ErrorKind, ProcessingError};
use crate::models::FileWarning;
use crate::services::child::ReadFailure;
use crate::text::{
    ascii_lower, chars_of, contains_str, contains_sub, dec, dec_string, join, join_strings,
    lower_chars, push_dec, push_str, string_of, trim, trim_chars, views,
};
use crate::tools::pdf::inspect::{check_page_limit, page_limit_message, PathStatus, MAX_PDF_BYTES};

verus! {

pub const MAX_PDF_PAGES: u32 = 500;

/// The Markdown of a converted PDF and the 1-based pages marked for OCR.
#[derive(Debug, Clone)]
pub struct ConvertedPdf {
    pub markdown: String,
    pub ocr_pages: Vec<u32>,
}

/// One page as the parser extracted it.
#[derive(Debug, Clone)]
pub struct PdfPage {
    /// 0-based page index.
    pub page: u32,
    pub markdown: String,
    /// The parser found the page's text unreliable.
    pub needs_ocr: bool,
    /// The parser's machine-readable reason, when known.
    pub ocr_reason: Option<String>,
}

/// How the PDF parser failed.
#[derive(Debug, Clone, Copy, PartialEq, Eq, Structural)]
pub enum ParserFailure {
    Encrypted,
    NotFound,
    PermissionDenied,
    /// Another I/O failure.
    OtherIo,
    /// A parse error, a broken structure, or no PDF at all.
    Malformed,
}

// ---------------------------------------------------------------------------
// The parser
// ---------------------------------------------------------------------------

#[verifier::external_type_specification]
#[verifier::external_body]
pub struct ExPdfError(pdf_inspector::PdfError);

/// The page count the parser's metadata-only detection finds in a document,
/// `None` when it fails.
pub uninterp spec fn detected_page_count(bytes: Seq<u8>) -> Option<u32>;

/// `pdf_inspector::detect_pdf_mem`: loads the document without extracting
/// text and reports its page count. The claim is that the count depends on
/// the bytes alone, and that success and failure do too.
#[verifier::external_body]
fn detect_page_count(bytes: &[u8]) -> (r: Result<u32, pdf_inspector::PdfError>)
    ensures
        r matches Ok(n) ==> detected_page_count(bytes@) == Some(n),
        r is Err ==> detected_page_count(bytes@) is None,
{
    pdf_inspector::detect_pdf_mem(bytes).map(|detection| detection.page_count)
}

/// The number of pages of the document that the extraction's loader
/// (`load_document_from_mem_with_repairs`) finds in `bytes`.
pub uninterp spec fn loaded_page_count(bytes: Seq<u8>) -> nat;

/// `pdf_inspector::extract_pages_markdown_mem` over every page, each page
/// copied field by field. With no page selection the source returns one
/// entry per page of the loaded document, in document order, each with its
/// 0-based index as `page`. The text, OCR flags and reasons of the pages are
/// not claimed: the crate's layout analysis walks hash maps and reads an
/// environment variable for CMaps.
#[verifier::external_body]
fn extract_pages(bytes: &[u8]) -> (r: Result<Vec<PdfPage>, pdf_inspector::PdfError>)
    ensures
        r matches Ok(p) ==> (p@.len() == loaded_page_count(bytes@)
            && forall|i: int| 0 <= i < p@.len() ==> #[trigger] p@[i].page == i),
{
    pdf_inspector::extract_pages_markdown_mem(bytes, None).map(|extraction| {
        extraction.pages.into_iter().map(|p| PdfPage {
            page: p.page,
            markdown: p.markdown,
            needs_ocr: p.needs_ocr,
            ocr_reason: p.ocr_reason,
        }).collect()
    })
}

/// Tells the variants of `pdf_inspector::PdfError` apart (for an I/O error,
/// by its `std::io::ErrorKind`). Nothing is claimed of which variant a
/// given error is.
#[verifier::external_body]
fn parser_failure(error: pdf_inspector::PdfError) -> (f: ParserFailure)
{
    match error {
        pdf_inspector::PdfError::Encrypted => ParserFailure::Encrypted,
        pdf_inspector::PdfError::Io(e) => match e.kind() {
            std::io::ErrorKind::NotFound => ParserFailure::NotFound,
            std::io::ErrorKind::PermissionDenied => ParserFailure::PermissionDenied,
            _ => ParserFailure::OtherIo,
        },
        _ => ParserFailure::Malformed,
    }
}

/// The stable user-facing error for each parser failure: no low-level
/// parser text reaches the user.
pub open spec fn parser_error_spec(f: ParserFailure) -> (ErrorKind, Seq<char>) {
    match f {
        ParserFailure::Encrypted => (ErrorKind::EncryptedPdf, "PDF is password-protected or encrypted"@),
        ParserFailure::NotFound => (ErrorKind::FileNotFound, "File not found"@),
        ParserFailure::PermissionDenied => (ErrorKind::PermissionDenied, "Could not read PDF file"@),
        ParserFailure::OtherIo => (ErrorKind::InvalidPdf, "This PDF could not be read"@),
        ParserFailure::Malformed => (ErrorKind::InvalidPdf, "This PDF could not be opened"@),
    }
}

/// One of the errors a parser failure maps to.
pub open spec fn is_parser_error(e: ProcessingError) -> bool {
    exists|f: ParserFailure| e.is(#[trigger] parser_error_spec(f).0, parser_error_spec(f).1)
}

/// The parser failure that stands for a failed read of the source file.
pub open spec fn read_parser_failure_spec(f: ReadFailure) -> ParserFailure {
    match f {
        ReadFailure::NotFound => ParserFailure::NotFound,
        ReadFailure::PermissionDenied => ParserFailure::PermissionDenied,
        ReadFailure::Other => ParserFailure::OtherIo,
    }
}

/// Classifies a failed read of the source PDF as the parser's I/O failure.
pub fn read_parser_failure(f: ReadFailure) -> (p: ParserFailure)
    ensures
        p == read_parser_failure_spec(f),
{
    match f {
        ReadFailure::NotFound => ParserFailure::NotFound,
        ReadFailure::PermissionDenied => ParserFailure::PermissionDenied,
        ReadFailure::Other => ParserFailure::OtherIo,
    }
}

pub fn map_parser_error(failure: ParserFailure) -> (e: ProcessingError)
    ensures
        e.is(parser_error_spec(failure).0, parser_error_spec(failure).1),
        is_parser_error(e),
{
    let e = match failure {
        ParserFailure::Encrypted => ProcessingError::encrypted_pdf("PDF is password-protected or encrypted"),
        ParserFailure::NotFound => ProcessingError::file_not_found("File not found"),
        ParserFailure::PermissionDenied => ProcessingError::permission_denied("Could not read PDF file"),
        ParserFailure::OtherIo => ProcessingError::invalid_pdf("This PDF could not be read"),
        ParserFailure::Malformed => ProcessingError::invalid_pdf("This PDF could not be opened"),
    };
    assert(e.is(parser_error_spec(failure).0, parser_error_spec(failure).1));
    e
}

// ---------------------------------------------------------------------------
// OCR reasons and markers
// ---------------------------------------------------------------------------

pub open spec fn opt_str_view(s: Option<&str>) -> Seq<char> {
    match s {
        Some(t) => t@,
        None => Seq::empty(),
    }
}

/// The normalized OCR reason: the first rule that matches the
/// ASCII-lowercased raw reason; unknown reasons are never called scanned.
pub open spec fn ocr_reason_spec(reason: Seq<char>) -> Seq<char> {
    let v = ascii_lower(reason);
    if contains_sub(v, "scanned"@) {
        "scanned"@
    } else if contains_sub(v, "image"@) {
        "image_only"@
    } else if contains_sub(v, "vector"@) {
        "vector_text"@
    } else if contains_sub(v, "garbled"@) || contains_sub(v, "encoding"@) {
        "unreadable_text"@
    } else if contains_sub(v, "no_text"@) || contains_sub(v, "no text"@) {
        "no_text"@
    } else if contains_sub(v, "low"@) || contains_sub(v, "quality"@) {
        "low_text_density"@
    } else {
        "text_unavailable"@
    }
}

pub fn normalized_ocr_reason(reason: Option<&str>) -> (r: &'static str)
    ensures
        r@ == ocr_reason_spec(opt_str_view(reason)),
{
    let raw = match reason {
        Some(s) => chars_of(s),
        None => Vec::new(),
    };
    assert(raw@ == opt_str_view(reason));
    let v = lower_chars(&raw);
    if contains_str(&v, "scanned") {
        "scanned"
    } else if contains_str(&v, "image") {
        "image_only"
    } else if contains_str(&v, "vector") {
        "vector_text"
    } else if contains_str(&v, "garbled") || contains_str(&v, "encoding") {
        "unreadable_text"
    } else if contains_str(&v, "no_text") || contains_str(&v, "no text") {
        "no_text"
    } else if contains_str(&v, "low") || contains_str(&v, "quality") {
        "low_text_density"
    } else {
        "text_unavailable"
    }
}

/// The Markdown that stands in for a page left for OCR.
pub open spec fn ocr_marker(page_num: nat, reason: Seq<char>) -> Seq<char> {
    "<!-- PDF page "@ + dec(page_num) + " requires OCR: "@ + reason + " -->\n\n> Page "@ + dec(page_num)
        + " was not converted because OCR is not included in Toolbox yet."@
}

pub fn ocr_marker_text(page_num: u32, reason: &str) -> (s: String)
    ensures
        s@ == ocr_marker(page_num as nat, reason@),
{
    let mut m: Vec<char> = Vec::new();
    push_str(&mut m, "<!-- PDF page ");
    push_dec(&mut m, page_num as u64);
    push_str(&mut m, " requires OCR: ");
    push_str(&mut m, reason);
    push_str(&mut m, " -->\n\n> Page ");
    push_dec(&mut m, page_num as u64);
    push_str(&mut m, " was not converted because OCR is not included in Toolbox yet.");
    string_of(&m)
}

// ---------------------------------------------------------------------------
// Assembly
// ---------------------------------------------------------------------------

pub open spec fn reason_view(r: Option<String>) -> Seq<char> {
    match r {
        Some(s) => s@,
        None => Seq::empty(),
    }
}

/// A page is marked for OCR when the parser says so or its trimmed text is
/// empty.
pub open spec fn needs_marker(p: PdfPage) -> bool {
    p.needs_ocr || trim(p.markdown@).len() == 0
}

/// The Markdown section of one page (1-based `page_num`).
pub open spec fn section_spec(p: PdfPage, page_num: nat) -> Seq<char> {
    if p.needs_ocr {
        ocr_marker(page_num, ocr_reason_spec(reason_view(p.ocr_reason)))
    } else if trim(p.markdown@).len() == 0 {
        ocr_marker(page_num, "empty_content"@)
    } else {
        trim(p.markdown@)
    }
}

pub open spec fn sections_spec(pages: Seq<PdfPage>) -> Seq<Seq<char>> {
    Seq::new(pages.len(), |i: int| section_spec(pages[i], (i + 1) as nat))
}

/// The 1-based numbers of the pages marked for OCR, in order.
pub open spec fn ocr_pages_spec(pages: Seq<PdfPage>) -> Seq<u32>
    decreases pages.len(),
{
    if pages.len() == 0 {
        Seq::empty()
    } else {
        let rest = ocr_pages_spec(pages.drop_last());
        if needs_marker(pages.last()) {
            rest.push(pages.len() as u32)
        } else {
            rest
        }
    }
}

/// Every page sits at its own index.
pub open spec fn in_order(pages: Seq<PdfPage>) -> bool {
    forall|i: int| 0 <= i < pages.len() ==> #[trigger] pages[i].page == i
}

pub open spec fn incomplete_message() -> Seq<char> {
    "PDF page extraction returned an incomplete result"@
}

pub open spec fn out_of_order_message() -> Seq<char> {
    "PDF page extraction returned pages out of order"@
}

pub open spec fn all_ocr_message() -> Seq<char> {
    "All pages in the document require OCR to extract text"@
}

/// The outcome of assembling the extracted pages of a document whose
/// detection found `page_count` pages: its Markdown (sections joined by a
/// blank line) and OCR page list, or the error.
pub open spec fn assemble_spec(page_count: u32, pages: Seq<PdfPage>) -> Result<(Seq<char>, Seq<u32>), (ErrorKind, Seq<char>)> {
    if pages.len() != page_count {
        Err((ErrorKind::InvalidPdf, incomplete_message()))
    } else if !in_order(pages) {
        Err((ErrorKind::InvalidPdf, out_of_order_message()))
    } else if ocr_pages_spec(pages).len() == pages.len() {
        Err((ErrorKind::OcrRequired, all_ocr_message()))
    } else {
        Ok((join(sections_spec(pages), "\n\n"@), ocr_pages_spec(pages)))
    }
}

pub open spec fn conversion_view(r: Result<ConvertedPdf, ProcessingError>) -> Result<(Seq<char>, Seq<u32>), (ErrorKind, Seq<char>)> {
    match r {
        Ok(c) => Ok((c.markdown@, c.ocr_pages@)),
        Err(e) => Err((e.kind(), e.message_view())),
    }
}

/// Assembles the Markdown of a document from its extracted pages: each page
/// becomes its trimmed text, or an OCR marker when the parser flagged it or
/// its text is empty; a document with every page marked fails.
pub fn assemble_markdown(page_count: u32, pages: Vec<PdfPage>) -> (r: Result<ConvertedPdf, ProcessingError>)
    ensures
        conversion_view(r) == assemble_spec(page_count, pages@),
{
    if pages.len() != page_count as usize {
        return Err(ProcessingError::invalid_pdf("PDF page extraction returned an incomplete result"));
    }
    let mut ocr_pages: Vec<u32> = Vec::new();
    let mut sections: Vec<String> = Vec::new();
    let mut i: usize = 0;
    while i < pages.len()
        invariant
            pages.len() == page_count,
            i <= pages.len(),
            forall|j: int| 0 <= j < i ==> #[trigger] pages@[j].page == j,
            ocr_pages@ == ocr_pages_spec(pages@.take(i as int)),
            views(sections@) == sections_spec(pages@.take(i as int)),
        decreases pages.len() - i,
    {
        let page = &pages[i];
        if page.page as usize != i {
            assert(!in_order(pages@)) by {
                assert(pages@[i as int].page != i);
            }
            return Err(ProcessingError::invalid_pdf("PDF page extraction returned pages out of order"));
        }
        let num: u32 = page.page + 1;
        let ghost before = pages@.take(i as int);
        let ghost after = pages@.take(i + 1);
        proof {
            assert(after.drop_last() =~= before);
            assert(after.last() == pages@[i as int]);
        }
        let content = trim_chars(&chars_of(page.markdown.as_str()));
        let section: String = if page.needs_ocr {
            let reason = match &page.ocr_reason {
                Some(s) => normalized_ocr_reason(Some(s.as_str())),
                None => normalized_ocr_reason(None),
            };
            assert(reason@ == ocr_reason_spec(reason_view(page.ocr_reason)));
            ocr_pages.push(num);
            ocr_marker_text(num, reason)
        } else if content.len() == 0 {
            ocr_pages.push(num);
            ocr_marker_text(num, "empty_content")
        } else {
            string_of(&content)
        };
        assert(section@ == section_spec(pages@[i as int], (i + 1) as nat));
        let ghost old_sections = sections@;
        sections.push(section);
        proof {
            assert(ocr_pages@ == ocr_pages_spec(after));
            assert(views(sections@) =~= views(old_sections).push(section@));
            assert(sections_spec(after) =~= sections_spec(before).push(section_spec(pages@[i as int], (i + 1) as nat)));
        }
        i = i + 1;
    }
    proof {
        assert(pages@.take(pages.len() as int) =~= pages@);
        assert(in_order(pages@));
    }
    if ocr_pages.len() == pages.len() {
        return Err(ProcessingError::ocr_required("All pages in the document require OCR to extract text"));
    }
    let joined = join_strings(&sections, "\n\n");
    Ok(ConvertedPdf { markdown: string_of(&joined), ocr_pages })
}

/// Extracts the Markdown of a PDF held in memory: the page guard runs on the
/// detected page count before the full extraction. Whatever the extraction
/// returns, a success is the assembly, with the detected count, of some
/// list of the loaded document's pages in order, and a failure of the
/// parser maps to a stable error.
pub fn extract_pdf_markdown(bytes: &[u8]) -> (r: Result<ConvertedPdf, ProcessingError>)
    ensures
        detected_page_count(bytes@) is None ==> (r matches Err(e) && is_parser_error(e)),
        detected_page_count(bytes@) == Some(0u32) ==> (r matches Err(e)
            && e.is(ErrorKind::InvalidPdf, "No pages found in PDF"@)),
        detected_page_count(bytes@) matches Some(n) ==> (n > MAX_PDF_PAGES ==> (r matches Err(e)
            && e.is(ErrorKind::LimitExceeded, page_limit_message(n)))),
        detected_page_count(bytes@) matches Some(n) ==> (0 < n <= MAX_PDF_PAGES ==> (
            (r matches Err(e) && is_parser_error(e))
            || exists|pages: Seq<PdfPage>| pages.len() == loaded_page_count(bytes@) && in_order(pages)
                && #[trigger] assemble_spec(n, pages) == conversion_view(r))),
{
    let count = match detect_page_count(bytes) {
        Ok(n) => n,
        Err(error) => return Err(map_parser_error(parser_failure(error))),
    };
    match check_page_limit(count) {
        Ok(()) => {},
        Err(e) => return Err(e),
    }
    let pages = match extract_pages(bytes) {
        Ok(p) => p,
        Err(error) => return Err(map_parser_error(parser_failure(error))),
    };
    let ghost pv = pages@;
    let r = assemble_markdown(count, pages);
    assert(in_order(pv));
    assert(assemble_spec(count, pv) == conversion_view(r));
    r
}

// ---------------------------------------------------------------------------
// Source checks, warnings and write failures
// ---------------------------------------------------------------------------

pub open spec fn is_pdf_extension(extension: Option<Seq<char>>) -> bool {
    extension matches Some(e) && ascii_lower(e) == "pdf"@
}

pub open spec fn opt_view(extension: Option<&str>) -> Option<Seq<char>> {
    match extension {
        Some(e) => Some(e@),
        None => None,
    }
}

/// The checks before conversion, in order: existence, readable metadata,
/// a regular file, the `.pdf` extension (any ASCII case), non-empty, within
/// the size limit.
pub open spec fn convert_precheck_spec(path: PathStatus, extension: Option<Seq<char>>) -> Result<(), (ErrorKind, Seq<char>)> {
    match path {
        PathStatus::Missing => Err((ErrorKind::FileNotFound, "File not found"@)),
        PathStatus::Unreadable => Err((ErrorKind::PermissionDenied, "Could not read file metadata"@)),
        PathStatus::NotAFile => Err((ErrorKind::InvalidPdf, "PDF path is not a file"@)),
        PathStatus::File(size) => if !is_pdf_extension(extension) {
            Err((ErrorKind::UnsupportedFormat, "Unsupported format (expected .pdf)"@))
        } else if size == 0 {
            Err((ErrorKind::InvalidPdf, "PDF file is empty"@))
        } else if size > MAX_PDF_BYTES {
            Err((ErrorKind::LimitExceeded, "PDF exceeds maximum size limit (100 MB)"@))
        } else {
            Ok(())
        },
    }
}

pub fn convert_precheck(path: PathStatus, extension: Option<&str>) -> (r: Result<(), ProcessingError>)
    ensures
        crate::tools::pdf::inspect::error_result(r) == convert_precheck_spec(path, opt_view(extension)),
{
    let size = match path {
        PathStatus::Missing => return Err(ProcessingError::file_not_found("File not found")),
        PathStatus::Unreadable => return Err(ProcessingError::permission_denied("Could not read file metadata")),
        PathStatus::NotAFile => return Err(ProcessingError::invalid_pdf("PDF path is not a file")),
        PathStatus::File(size) => size,
    };
    let is_pdf = match extension {
        Some(e) => {
            let lowered = lower_chars(&chars_of(e));
            crate::text::chars_eq_str(&lowered, "pdf")
        },
        None => false,
    };
    if !is_pdf {
        return Err(ProcessingError::unsupported_format("Unsupported format (expected .pdf)"));
    }
    if size == 0 {
        return Err(ProcessingError::invalid_pdf("PDF file is empty"));
    }
    if size > MAX_PDF_BYTES {
        return Err(ProcessingError::limit_exceeded("PDF exceeds maximum size limit (100 MB)"));
    }
    Ok(())
}

/// The page numbers in decimal, separated by `, `.
pub open spec fn page_list_text(pages: Seq<u32>) -> Seq<char> {
    join(Seq::new(pages.len(), |i: int| dec(pages[i] as nat)), ", "@)
}

pub open spec fn ocr_warning_message(pages: Seq<u32>) -> Seq<char> {
    "Pages "@ + page_list_text(pages) + " require OCR and were marked"@
}

/// The warning attached to a converted file with pages left for OCR.
pub fn ocr_warning(ocr_pages: &Vec<u32>) -> (w: Option<FileWarning>)
    ensures
        ocr_pages.len() == 0 ==> w is None,
        ocr_pages.len() > 0 ==> (w matches Some(x) && x.code@ == "OCR_REQUIRED_PAGES"@
            && x.message@ == ocr_warning_message(ocr_pages@)
            && (x.pages matches Some(p) && p@ == ocr_pages@)),
{
    if ocr_pages.len() == 0 {
        return None;
    }
    let mut numbers: Vec<String> = Vec::new();
    let mut copy: Vec<u32> = Vec::new();
    let mut i: usize = 0;
    while i < ocr_pages.len()
        invariant
            i <= ocr_pages.len(),
            copy@ == ocr_pages@.take(i as int),
            views(numbers@) == Seq::new(i as nat, |j: int| dec(ocr_pages@[j] as nat)),
        decreases ocr_pages.len() - i,
    {
        let text = dec_string(ocr_pages[i] as u64);
        let ghost old_numbers = numbers@;
        numbers.push(text);
        copy.push(ocr_pages[i]);
        assert(views(numbers@) =~= views(old_numbers).push(text@));
        i = i + 1;
        assert(views(numbers@) =~= Seq::new(i as nat, |j: int| dec(ocr_pages@[j] as nat)));
        assert(copy@ =~= ocr_pages@.take(i as int));
    }
    assert(copy@ =~= ocr_pages@);
    let list = join_strings(&numbers, ", ");
    let mut m: Vec<char> = Vec::new();
    push_str(&mut m, "Pages ");
    crate::text::push_all(&mut m, &list);
    push_str(&mut m, " require OCR and were marked");
    Some(FileWarning {
        code: "OCR_REQUIRED_PAGES".to_owned(),
        message: string_of(&m),
        pages: Some(copy),
    })
}

pub open spec fn write_error_spec(permission_denied: bool, path: Seq<char>, detail: Seq<char>) -> (ErrorKind, Seq<char>) {
    if permission_denied {
        (ErrorKind::PermissionDenied, "Permission denied writing '"@ + path + "': "@ + detail)
    } else {
        (ErrorKind::WriteFailed, "Could not write output file '"@ + path + "': "@ + detail)
    }
}

/// The error for a failed write of the output file at `path` (as
/// displayed); `detail` is the I/O error's text.
pub fn map_write_error(permission_denied: bool, path: &str, detail: &str) -> (e: ProcessingError)
    ensures
        e.is(write_error_spec(permission_denied, path@, detail@).0, write_error_spec(permission_denied, path@, detail@).1),
{
    let mut m: Vec<char> = Vec::new();
    if permission_denied {
        push_str(&mut m, "Permission denied writing '");
    } else {
        push_str(&mut m, "Could not write output file '");
    }
    push_str(&mut m, path);
    push_str(&mut m, "': ");
    push_str(&mut m, detail);
    let kind = if permission_denied { ErrorKind::PermissionDenied } else { ErrorKind::WriteFailed };
    ProcessingError::new(kind, string_of(&m))
}

/// A conversion succeeds only with a page that was not marked for OCR, and
/// every marked page number is a page of the document.
pub proof fn law_conversion_keeps_some_text(page_count: u32, pages: Seq<PdfPage>)
    requires
        assemble_spec(page_count, pages) is Ok,
    ensures
        exists|i: int| 0 <= i < pages.len() && !needs_marker(#[trigger] pages[i]),
        forall|k: int| 0 <= k < ocr_pages_spec(pages).len() ==> 1 <= #[trigger] ocr_pages_spec(pages)[k] <= page_count,
{
    lemma_marked_pages(pages);
}

proof fn lemma_marked_pages(pages: Seq<PdfPage>)
    requires
        pages.len() <= u32::MAX,
    ensures
        ocr_pages_spec(pages).len() <= pages.len(),
        ocr_pages_spec(pages).len() < pages.len() ==> exists|i: int| 0 <= i < pages.len() && !needs_marker(#[trigger] pages[i]),
        forall|k: int| 0 <= k < ocr_pages_spec(pages).len() ==> 1 <= #[trigger] ocr_pages_spec(pages)[k] <= pages.len(),
    decreases pages.len(),
{
    if pages.len() > 0 {
        let rest = pages.drop_last();
        lemma_marked_pages(rest);
        if ocr_pages_spec(pages).len() < pages.len() && !needs_marker(pages.last()) {
            assert(!needs_marker(pages[pages.len() - 1]));
        } else if ocr_pages_spec(pages).len() < pages.len() {
            let i = choose|i: int| 0 <= i < rest.len() && !needs_marker(#[trigger] rest[i]);
            assert(pages[i] == rest[i]);
        }
    }
}

/// Counting and listing the marked pages: the list never outgrows the
/// pages, it is shorter exactly when some page keeps its text, and it
/// holds exactly the 1-based numbers of the marked pages.
proof fn lemma_marked_page_list(pages: Seq<PdfPage>)
    requires
        pages.len() <= u32::MAX,
    ensures
        ocr_pages_spec(pages).len() <= pages.len(),
        (exists|i: int| 0 <= i < pages.len() && !needs_marker(#[trigger] pages[i]))
            ==> ocr_pages_spec(pages).len() < pages.len(),
        forall|k: int| 1 <= k <= pages.len() ==> (ocr_pages_spec(pages).contains(k as u32) <==> needs_marker(#[trigger] pages[k - 1])),
        forall|x: u32| ocr_pages_spec(pages).contains(x) ==> 1 <= x <= pages.len(),
    decreases pages.len(),
{
    if pages.len() > 0 {
        let rest = pages.drop_last();
        let n = pages.len() as int;
        lemma_marked_page_list(rest);
        let list = ocr_pages_spec(pages);
        let rl = ocr_pages_spec(rest);
        if exists|i: int| 0 <= i < pages.len() && !needs_marker(#[trigger] pages[i]) {
            let i = choose|i: int| 0 <= i < pages.len() && !needs_marker(#[trigger] pages[i]);
            if i < n - 1 {
                assert(rest[i] == pages[i]);
            }
        }
        assert forall|k: int| 1 <= k <= pages.len() implies (list.contains(k as u32) <==> needs_marker(#[trigger] pages[k - 1])) by {
            if k < n {
                assert(rest[k - 1] == pages[k - 1]);
                if needs_marker(pages.last()) {
                    assert(list == rl.push(n as u32));
                    if list.contains(k as u32) {
                        let j = choose|j: int| 0 <= j < list.len() && list[j] == k as u32;
                        if j < rl.len() {
                            assert(rl[j] == k as u32);
                            assert(rl.contains(k as u32));
                        }
                    }
                    if rl.contains(k as u32) {
                        let j = choose|j: int| 0 <= j < rl.len() && rl[j] == k as u32;
                        assert(list[j] == k as u32);
                    }
                }
            } else {
                assert(pages[k - 1] == pages.last());
                if needs_marker(pages.last()) {
                    assert(list[list.len() - 1] == n as u32);
                } else {
                    assert(!rl.contains(n as u32));
                }
            }
        }
        assert forall|x: u32| list.contains(x) implies 1 <= x <= pages.len() by {
            if needs_marker(pages.last()) {
                let j = choose|j: int| 0 <= j < list.len() && list[j] == x;
                if j < rl.len() {
                    assert(rl[j] == x);
                    assert(rl.contains(x));
                }
            }
        }
    }
}

/// A complete, in-order extraction in which some page keeps its text
/// (not flagged by the parser and not empty once trimmed) always converts:
/// the result is the Markdown with the list of exactly the marked page
/// numbers, in increasing order.
pub proof fn law_text_page_means_success(page_count: u32, pages: Seq<PdfPage>, i: int)
    requires
        pages.len() == page_count,
        in_order(pages),
        0 <= i < pages.len(),
        !pages[i].needs_ocr,
        trim(pages[i].markdown@).len() > 0,
    ensures
        assemble_spec(page_count, pages) matches Ok((_, marked))
            && (forall|k: int| 1 <= k <= pages.len() ==> (marked.contains(k as u32) <==> needs_marker(#[trigger] pages[k - 1])))
            && (forall|x: u32| marked.contains(x) ==> 1 <= x <= pages.len())
            && (forall|a: int, b: int| 0 <= a < b < marked.len() ==> marked[a] < marked[b]),
{
    assert(!needs_marker(pages[i]));
    lemma_marked_page_list(pages);
    lemma_marked_pages_increase(pages);
}

/// The marked page numbers come out in increasing order.
proof fn lemma_marked_pages_increase(pages: Seq<PdfPage>)
    requires
        pages.len() <= u32::MAX,
    ensures
        forall|a: int, b: int| 0 <= a < b < ocr_pages_spec(pages).len() ==> ocr_pages_spec(pages)[a] < ocr_pages_spec(pages)[b],
    decreases pages.len(),
{
    if pages.len() > 0 {
        let rest = pages.drop_last();
        lemma_marked_pages_increase(rest);
        lemma_marked_page_list(rest);
        let rl = ocr_pages_spec(rest);
        assert forall|j: int| 0 <= j < rl.len() implies rl[j] < pages.len() by {
            assert(rl.contains(rl[j]));
        }
    }
}

/// A document of which every page needs OCR never converts, and a
/// conversion fails with `OcrRequired` only in that case.
pub proof fn law_ocr_failure_only_when_every_page_is_marked(page_count: u32, pages: Seq<PdfPage>)
    requires
        pages.len() == page_count,
        in_order(pages),
    ensures
        (assemble_spec(page_count, pages) matches Err((kind, _)) && kind == ErrorKind::OcrRequired)
            <==> forall|i: int| 0 <= i < pages.len() ==> needs_marker(#[trigger] pages[i]),
{
    lemma_marked_page_list(pages);
    if forall|i: int| 0 <= i < pages.len() ==> needs_marker(#[trigger] pages[i]) {
        lemma_full_list(pages);
    }
}

/// When every page is marked, the list names every page.
proof fn lemma_full_list(pages: Seq<PdfPage>)
    requires
        pages.len() <= u32::MAX,
        forall|i: int| 0 <= i < pages.len() ==> needs_marker(#[trigger] pages[i]),
    ensures
        ocr_pages_spec(pages).len() == pages.len(),
    decreases pages.len(),
{
    if pages.len() > 0 {
        let rest = pages.drop_last();
        assert forall|i: int| 0 <= i < rest.len() implies needs_marker(#[trigger] rest[i]) by {
            assert(rest[i] == pages[i]);
        }
        lemma_full_list(rest);
        assert(needs_marker(pages[pages.len() - 1]));
    }
}

} // verus!
