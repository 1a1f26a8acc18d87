//! Decoding raster images held in memory: which decoder a source goes to
//! (its magic bytes, else its extension), the size guard applied before a
//! PNG or JPEG is decoded, and the probe behind the input inspection.

use vstd::prelude::*;

use crate::errors::{ErrorKind, ProcessingError};
use crate::models::ImageFormat;
use crate::services::inspect::ImageProbe;
use crate::text::{ascii_lower, chars_eq_str, chars_of, dec, lower_chars, push_dec, push_str, string_of};
use crate::tools::image::{opt_str, MAX_DIMENSION, MAX_PIXELS};

verus! {

/// The sides and area are within the decode limits.
pub open spec fn within_limits(width: u32, height: u32) -> bool {
    width <= MAX_DIMENSION && height <= MAX_DIMENSION && width * height <= MAX_PIXELS
}

pub open spec fn too_large_message(width: u32, height: u32) -> Seq<char> {
    "Image too large: "@ + dec(width as nat) + " × "@ + dec(height as nat)
}

pub fn too_large_text(width: u32, height: u32) -> (s: String)
    ensures
        s@ == too_large_message(width, height),
{
    let mut m: Vec<char> = Vec::new();
    push_str(&mut m, "Image too large: ");
    push_dec(&mut m, width as u64);
    push_str(&mut m, " × ");
    push_dec(&mut m, height as u64);
    string_of(&m)
}

/// Tells whether the limits hold, without overflow.
pub fn fits_limits(width: u32, height: u32) -> (b: bool)
    ensures
        b == within_limits(width, height),
{
    if width > MAX_DIMENSION || height > MAX_DIMENSION {
        return false;
    }
    let w: u64 = width as u64;
    let h: u64 = height as u64;
    assert(w * h <= 16384 * 16384) by (nonlinear_arith)
        requires w <= 16384, h <= 16384;
    w * h <= MAX_PIXELS
}

/// Rejects raster images whose sides or pixel count exceed the limits.
pub fn check_size(width: u32, height: u32) -> (r: Result<(), ProcessingError>)
    ensures
        within_limits(width, height) ==> r is Ok,
        !within_limits(width, height) ==> (r matches Err(e) && e.is(ErrorKind::InvalidImage, too_large_message(width, height))),
{
    if !fits_limits(width, height) {
        return Err(ProcessingError::new(ErrorKind::InvalidImage, too_large_text(width, height)));
    }
    Ok(())
}

// ---------------------------------------------------------------------------
// Format resolution
// ---------------------------------------------------------------------------

/// The format a source is read as, as far as the decoders care.
#[derive(Debug, Clone, Copy, PartialEq, Eq, Structural)]
pub enum SourceFormat {
    Png,
    Jpeg,
    WebP,
    /// Another format the `image` crate knows.
    Other,
    /// No format could be told.
    Unrecognized,
}

/// The two formats decoded by the `image` crate itself.
#[derive(Debug, Clone, Copy, PartialEq, Eq, Structural)]
pub enum RasterCodec {
    Png,
    Jpeg,
}

/// What `image::guess_format` tells from the magic bytes of `bytes`.
pub uninterp spec fn guessed_format(bytes: Seq<u8>) -> SourceFormat;

pub open spec fn starts_with(bytes: Seq<u8>, prefix: Seq<u8>) -> bool {
    prefix.len() <= bytes.len() && bytes.take(prefix.len() as int) == prefix
}

/// `image::guess_format` on the bytes, told apart for the decoders. Its
/// signature table gives PNG, JPEG and WebP by these prefixes (the other
/// signatures start differently); the rest of the table is left to the
/// name `guessed_format`.
#[verifier::external_body]
fn guess_format(bytes: &[u8]) -> (f: SourceFormat)
    ensures
        f == guessed_format(bytes@),
        f == SourceFormat::Png <==> starts_with(bytes@, seq![0x89u8, 0x50, 0x4e, 0x47, 0x0d, 0x0a, 0x1a, 0x0a]),
        f == SourceFormat::Jpeg <==> starts_with(bytes@, seq![0xffu8, 0xd8, 0xff]),
        f == SourceFormat::WebP <==> (bytes@.len() >= 12 && bytes@.take(4) == seq![0x52u8, 0x49, 0x46, 0x46]
            && bytes@.subrange(8, 12) == seq![0x57u8, 0x45, 0x42, 0x50]),
{
    match image::guess_format(bytes) {
        Ok(image::ImageFormat::Png) => SourceFormat::Png,
        Ok(image::ImageFormat::Jpeg) => SourceFormat::Jpeg,
        Ok(image::ImageFormat::WebP) => SourceFormat::WebP,
        Ok(_) => SourceFormat::Other,
        Err(_) => SourceFormat::Unrecognized,
    }
}

/// `image::ImageFormat::from_extension` on an ASCII-lowercased extension.
pub open spec fn extension_format_spec(lowered: Seq<char>) -> SourceFormat {
    if lowered == "png"@ || lowered == "apng"@ {
        SourceFormat::Png
    } else if lowered == "jpg"@ || lowered == "jpeg"@ || lowered == "jfif"@ {
        SourceFormat::Jpeg
    } else if lowered == "webp"@ {
        SourceFormat::WebP
    } else if lowered == "avif"@ || lowered == "gif"@ || lowered == "tif"@ || lowered == "tiff"@
        || lowered == "tga"@ || lowered == "dds"@ || lowered == "bmp"@ || lowered == "ico"@
        || lowered == "hdr"@ || lowered == "exr"@ || lowered == "pbm"@ || lowered == "pam"@
        || lowered == "ppm"@ || lowered == "pgm"@ || lowered == "pnm"@ || lowered == "ff"@
        || lowered == "qoi"@ {
        SourceFormat::Other
    } else {
        SourceFormat::Unrecognized
    }
}

/// `image::ImageFormat::from_extension`: it lowercases the extension (ASCII)
/// and looks it up in its table.
#[verifier::external_body]
fn format_from_extension(extension: &str) -> (f: SourceFormat)
    ensures
        f == extension_format_spec(ascii_lower(extension@)),
{
    match image::ImageFormat::from_extension(extension) {
        Some(image::ImageFormat::Png) => SourceFormat::Png,
        Some(image::ImageFormat::Jpeg) => SourceFormat::Jpeg,
        Some(image::ImageFormat::WebP) => SourceFormat::WebP,
        Some(_) => SourceFormat::Other,
        None => SourceFormat::Unrecognized,
    }
}

/// The format a file is read as: what its magic bytes tell, else what its
/// non-empty extension names (as `ImageReader::open` and
/// `with_guessed_format` decide).
pub open spec fn resolved_format(bytes: Seq<u8>, extension: Option<Seq<char>>) -> SourceFormat {
    let guessed = guessed_format(bytes);
    if guessed != SourceFormat::Unrecognized {
        guessed
    } else {
        match extension {
            Some(e) => if e.len() > 0 { extension_format_spec(ascii_lower(e)) } else { SourceFormat::Unrecognized },
            None => SourceFormat::Unrecognized,
        }
    }
}

/// Resolves the format of a source from its bytes and extension.
pub fn resolve_format(bytes: &[u8], extension: Option<&str>) -> (f: SourceFormat)
    ensures
        f == resolved_format(bytes@, opt_str(extension)),
{
    let guessed = guess_format(bytes);
    if guessed != SourceFormat::Unrecognized {
        return guessed;
    }
    match extension {
        Some(e) => if e.unicode_len() > 0 { format_from_extension(e) } else { SourceFormat::Unrecognized },
        None => SourceFormat::Unrecognized,
    }
}

pub open spec fn unsupported_message(display: Seq<char>) -> Seq<char> {
    "Unsupported format for '"@ + display + "'"@
}

pub open spec fn format_result_view(r: Result<ImageFormat, ProcessingError>) -> Result<ImageFormat, (ErrorKind, Seq<char>)> {
    match r {
        Ok(f) => Ok(f),
        Err(e) => Err((e.kind(), e.message_view())),
    }
}

/// The output format a source keeps when it is compressed: PNG, JPEG or
/// WebP; any other source is unsupported.
pub open spec fn detect_format_spec(format: SourceFormat, display: Seq<char>) -> Result<ImageFormat, (ErrorKind, Seq<char>)> {
    match format {
        SourceFormat::Png => Ok(ImageFormat::Png),
        SourceFormat::Jpeg => Ok(ImageFormat::Jpeg),
        SourceFormat::WebP => Ok(ImageFormat::Webp),
        _ => Err((ErrorKind::UnsupportedFormat, unsupported_message(display))),
    }
}

fn unsupported(display: &str) -> (e: ProcessingError)
    ensures
        e.is(ErrorKind::UnsupportedFormat, unsupported_message(display@)),
{
    let mut m: Vec<char> = Vec::new();
    push_str(&mut m, "Unsupported format for '");
    push_str(&mut m, display);
    push_str(&mut m, "'");
    ProcessingError::new(ErrorKind::UnsupportedFormat, string_of(&m))
}

/// Detects the image format of a source from its bytes (else its
/// extension); `display` names the source in the error.
pub fn detect_format(bytes: &[u8], extension: Option<&str>, display: &str) -> (r: Result<ImageFormat, ProcessingError>)
    ensures
        format_result_view(r) == detect_format_spec(resolved_format(bytes@, opt_str(extension)), display@),
{
    match resolve_format(bytes, extension) {
        SourceFormat::Png => Ok(ImageFormat::Png),
        SourceFormat::Jpeg => Ok(ImageFormat::Jpeg),
        SourceFormat::WebP => Ok(ImageFormat::Webp),
        _ => Err(unsupported(display)),
    }
}

// ---------------------------------------------------------------------------
// Decoding
// ---------------------------------------------------------------------------

pub open spec fn codec_of(f: SourceFormat) -> RasterCodec {
    if f == SourceFormat::Png { RasterCodec::Png } else { RasterCodec::Jpeg }
}

/// The size a PNG or JPEG decoder of `codec` reads from the header of
/// `bytes` (`ImageReader::into_dimensions`), `None` when it fails.
pub uninterp spec fn stored_dimensions(bytes: Seq<u8>, codec: RasterCodec) -> Option<(u32, u32)>;

/// `ImageReader::with_format(bytes, codec).into_dimensions()`; the error is
/// the `image` error's text.
#[verifier::external_body]
fn read_dimensions(bytes: &[u8], codec: RasterCodec) -> (r: Result<(u32, u32), String>)
    ensures
        r matches Ok(d) ==> stored_dimensions(bytes@, codec) == Some(d),
        r is Err ==> stored_dimensions(bytes@, codec) is None,
{
    let format = match codec {
        RasterCodec::Png => image::ImageFormat::Png,
        RasterCodec::Jpeg => image::ImageFormat::Jpeg,
    };
    image::ImageReader::with_format(std::io::Cursor::new(bytes), format).into_dimensions().map_err(|e| e.to_string())
}

/// A decoded image as plain values: its size, its pixel layout (channels
/// and bytes per pixel, as `image::ColorType` gives them) and its pixel
/// bytes row by row, wider samples in native byte order.
#[derive(Debug, Clone)]
pub struct Raster {
    pub width: u32,
    pub height: u32,
    pub channels: u8,
    pub bytes_per_pixel: u8,
    pub bytes: Vec<u8>,
}

pub open spec fn raster_view(r: Raster) -> (u32, u32, u8, u8, Seq<u8>) {
    (r.width, r.height, r.channels, r.bytes_per_pixel, r.bytes@)
}

/// The pixel bytes fill exactly `width × height` pixels.
pub open spec fn raster_wf(r: Raster) -> bool {
    r.bytes@.len() == r.width * r.height * r.bytes_per_pixel
}

/// The image the `image` decoder of `codec`, with its default limits, makes
/// of `bytes`, as plain values; `None` when decoding fails.
pub uninterp spec fn raster_decoded(bytes: Seq<u8>, codec: RasterCodec) -> Option<(u32, u32, u8, u8, Seq<u8>)>;

/// `ImageReader::with_format(bytes, codec).decode()`, taken apart into its
/// size, its color type's channel and byte counts and its raw bytes. The
/// decoder builds the image at the size its header gives (the size
/// `into_dimensions` reads) from a buffer of exactly `total_bytes`. The
/// error is the `image` error's text.
#[verifier::external_body]
fn decode_raster(bytes: &[u8], codec: RasterCodec) -> (r: Result<Raster, String>)
    ensures
        r matches Ok(img) ==> raster_decoded(bytes@, codec) == Some(raster_view(img)),
        r matches Ok(img) ==> stored_dimensions(bytes@, codec) == Some((img.width, img.height)),
        r matches Ok(img) ==> raster_wf(img),
        r is Err ==> raster_decoded(bytes@, codec) is None,
{
    let format = match codec {
        RasterCodec::Png => image::ImageFormat::Png,
        RasterCodec::Jpeg => image::ImageFormat::Jpeg,
    };
    let img = image::ImageReader::with_format(std::io::Cursor::new(bytes), format).decode().map_err(|e| e.to_string())?;
    let color = img.color();
    let (width, height) = (img.width(), img.height());
    Ok(Raster { width, height, channels: color.channel_count(), bytes_per_pixel: color.bytes_per_pixel(), bytes: img.as_bytes().to_vec() })
}

/// The width, height and alpha flag that `image_webp::WebPDecoder::new`
/// reads from the headers of `bytes`, `None` when it fails.
pub uninterp spec fn webp_header_of(bytes: Seq<u8>) -> Option<(u32, u32, bool)>;

/// `image_webp::WebPDecoder::new` on the bytes: its dimensions and alpha
/// flag; the error is the decoder error's text.
#[verifier::external_body]
fn webp_header(bytes: &[u8]) -> (r: Result<(u32, u32, bool), String>)
    ensures
        r matches Ok(h) ==> webp_header_of(bytes@) == Some(h),
        r is Err ==> webp_header_of(bytes@) is None,
{
    let decoder = image_webp::WebPDecoder::new(std::io::Cursor::new(bytes)).map_err(|e| e.to_string())?;
    let (width, height) = decoder.dimensions();
    Ok((width, height, decoder.has_alpha()))
}

/// Bytes per pixel of a WebP decoded with or without alpha.
pub open spec fn channels(alpha: bool) -> int {
    if alpha { 4 } else { 3 }
}

/// The pixels `read_image` decodes from `bytes` into a buffer of `size`
/// bytes, `None` when it fails.
pub uninterp spec fn webp_pixels_of(bytes: Seq<u8>, size: usize) -> Option<Seq<u8>>;

/// A fresh `image_webp::WebPDecoder` on the bytes, then `read_image` into a
/// zeroed buffer of `size` bytes. `read_image` fails unless `size` is the
/// decoder's output size, so a success has exactly `size` bytes. The error
/// is the decoder error's text.
#[verifier::external_body]
fn webp_pixels(bytes: &[u8], size: usize) -> (r: Result<Vec<u8>, String>)
    ensures
        r matches Ok(px) ==> px@.len() == size && webp_pixels_of(bytes@, size) == Some(px@),
        r is Err ==> webp_pixels_of(bytes@, size) is None,
{
    let mut decoder = image_webp::WebPDecoder::new(std::io::Cursor::new(bytes)).map_err(|e| e.to_string())?;
    let mut buffer = vec![0u8; size];
    decoder.read_image(&mut buffer).map_err(|e| e.to_string())?;
    Ok(buffer)
}

/// `e` is of `kind` and its message starts with `head`.
pub open spec fn starts_message(e: ProcessingError, kind: ErrorKind, head: Seq<char>) -> bool {
    e.kind() == kind && head.len() <= e.message_view().len() && e.message_view().take(head.len() as int) == head
}

pub open spec fn dimensions_head(display: Seq<char>) -> Seq<char> {
    "Could not read dimensions of '"@ + display + "': "@
}

pub open spec fn decode_head(display: Seq<char>) -> Seq<char> {
    "Could not decode '"@ + display + "': "@
}

pub open spec fn webp_head(display: Seq<char>) -> Seq<char> {
    "Could not decode WebP '"@ + display + "': "@
}

pub open spec fn webp_too_large_message(display: Seq<char>) -> Seq<char> {
    "Image too large: "@ + display
}

/// What decoding a source of format `f` gives. An unsupported format
/// fails; a PNG or JPEG has its header size read and checked against the
/// limits before it is decoded, and decodes at that size; a WebP is decoded
/// by its own decoder into RGB or RGBA bytes of its header size, with no
/// size check.
pub open spec fn decode_ok(bytes: Seq<u8>, f: SourceFormat, display: Seq<char>, r: Result<Raster, ProcessingError>) -> bool {
    match f {
        SourceFormat::Png | SourceFormat::Jpeg => match stored_dimensions(bytes, codec_of(f)) {
            None => r matches Err(e) && starts_message(e, ErrorKind::DecodeFailed, dimensions_head(display)),
            Some((w, h)) => if !within_limits(w, h) {
                r matches Err(e) && e.is(ErrorKind::InvalidImage, too_large_message(w, h))
            } else {
                match raster_decoded(bytes, codec_of(f)) {
                    Some(v) => r matches Ok(img) && raster_view(img) == v && img.width == w && img.height == h
                        && raster_wf(img),
                    None => r matches Err(e) && starts_message(e, ErrorKind::DecodeFailed, decode_head(display)),
                }
            },
        },
        SourceFormat::WebP => match webp_header_of(bytes) {
            None => r matches Err(e) && starts_message(e, ErrorKind::DecodeFailed, webp_head(display)),
            Some((w, h, a)) => if w * h * channels(a) > usize::MAX {
                r matches Err(e) && e.is(ErrorKind::InvalidImage, webp_too_large_message(display))
            } else {
                match webp_pixels_of(bytes, (w * h * channels(a)) as usize) {
                    Some(px) => r matches Ok(img) && img.width == w && img.height == h
                        && img.channels == channels(a) && img.bytes_per_pixel == channels(a)
                        && img.bytes@ == px && raster_wf(img),
                    None => r matches Err(e) && starts_message(e, ErrorKind::DecodeFailed, webp_head(display)),
                }
            },
        },
        _ => r matches Err(e) && e.is(ErrorKind::UnsupportedFormat, unsupported_message(display)),
    }
}

/// `head`, `display`, `tail` and then `detail`, as an error of `kind`.
fn framed(kind: ErrorKind, head: &str, display: &str, tail: &str, detail: &str) -> (e: ProcessingError)
    ensures
        e.is(kind, head@ + display@ + tail@ + detail@),
        starts_message(e, kind, head@ + display@ + tail@),
{
    let mut m: Vec<char> = Vec::new();
    push_str(&mut m, head);
    push_str(&mut m, display);
    push_str(&mut m, tail);
    let ghost front = m@;
    push_str(&mut m, detail);
    assert(m@.take(front.len() as int) =~= front);
    ProcessingError::new(kind, string_of(&m))
}

fn with_display(kind: ErrorKind, head: &str, display: &str) -> (e: ProcessingError)
    ensures
        e.is(kind, head@ + display@),
{
    let mut m: Vec<char> = Vec::new();
    push_str(&mut m, head);
    push_str(&mut m, display);
    ProcessingError::new(kind, string_of(&m))
}

/// Decodes a raster image held in memory; `extension` is the source's
/// extension and `display` names the source in errors.
pub fn decode(bytes: &[u8], extension: Option<&str>, display: &str) -> (r: Result<Raster, ProcessingError>)
    ensures
        decode_ok(bytes@, resolved_format(bytes@, opt_str(extension)), display@, r),
{
    let format = resolve_format(bytes, extension);
    match format {
        SourceFormat::Png | SourceFormat::Jpeg => {
            let codec = if format == SourceFormat::Png { RasterCodec::Png } else { RasterCodec::Jpeg };
            let (width, height) = match read_dimensions(bytes, codec) {
                Ok(d) => d,
                Err(detail) => {
                    return Err(framed(ErrorKind::DecodeFailed, "Could not read dimensions of '", display, "': ", detail.as_str()));
                },
            };
            match check_size(width, height) {
                Ok(()) => {},
                Err(e) => return Err(e),
            }
            match decode_raster(bytes, codec) {
                Ok(img) => Ok(img),
                Err(detail) => Err(framed(ErrorKind::DecodeFailed, "Could not decode '", display, "': ", detail.as_str())),
            }
        },
        SourceFormat::WebP => {
            let (width, height, alpha) = match webp_header(bytes) {
                Ok(h) => h,
                Err(detail) => {
                    return Err(framed(ErrorKind::DecodeFailed, "Could not decode WebP '", display, "': ", detail.as_str()));
                },
            };
            let per_pixel: usize = if alpha { 4 } else { 3 };
            let size = match (width as usize).checked_mul(height as usize) {
                Some(area) => area.checked_mul(per_pixel),
                None => None,
            };
            proof {
                let area = width as int * height as int;
                assert(area * channels(alpha) == width as int * height as int * channels(alpha));
                if area > usize::MAX {
                    assert(area * channels(alpha) > usize::MAX) by (nonlinear_arith)
                        requires area > usize::MAX, channels(alpha) >= 3;
                }
            }
            let size = match size {
                Some(n) => n,
                None => return Err(with_display(ErrorKind::InvalidImage, "Image too large: ", display)),
            };
            assert(size as int == width as int * height as int * channels(alpha));
            assert(channels(alpha) * width * height == width as int * height as int * channels(alpha)) by (nonlinear_arith);
            let pixels = match webp_pixels(bytes, size) {
                Ok(px) => px,
                Err(detail) => {
                    return Err(framed(ErrorKind::DecodeFailed, "Could not decode WebP '", display, "': ", detail.as_str()));
                },
            };
            let per: u8 = if alpha { 4 } else { 3 };
            Ok(Raster { width, height, channels: per, bytes_per_pixel: per, bytes: pixels })
        },
        _ => Err(unsupported(display)),
    }
}

// ---------------------------------------------------------------------------
// Inspection probe
// ---------------------------------------------------------------------------

/// What the inspection finds in the bytes of a raster source: the header
/// size of a PNG, JPEG or WebP, a header that does not read, or a format
/// that is not handled.
pub open spec fn probe_spec(bytes: Seq<u8>, f: SourceFormat) -> ImageProbe {
    match f {
        SourceFormat::Png | SourceFormat::Jpeg => match stored_dimensions(bytes, codec_of(f)) {
            Some((w, h)) => ImageProbe::Measured { width: w, height: h },
            None => ImageProbe::NotAnImage,
        },
        SourceFormat::WebP => match webp_header_of(bytes) {
            Some((w, h, _)) => ImageProbe::Measured { width: w, height: h },
            None => ImageProbe::NotAnImage,
        },
        _ => ImageProbe::Unsupported,
    }
}

/// Probes a raster source held in memory for the input inspection.
pub fn probe_raster(bytes: &[u8], extension: Option<&str>) -> (p: ImageProbe)
    ensures
        p == probe_spec(bytes@, resolved_format(bytes@, opt_str(extension))),
{
    let format = resolve_format(bytes, extension);
    match format {
        SourceFormat::Png | SourceFormat::Jpeg => {
            let codec = if format == SourceFormat::Png { RasterCodec::Png } else { RasterCodec::Jpeg };
            match read_dimensions(bytes, codec) {
                Ok((width, height)) => ImageProbe::Measured { width, height },
                Err(_) => ImageProbe::NotAnImage,
            }
        },
        SourceFormat::WebP => match webp_header(bytes) {
            Ok((width, height, _)) => ImageProbe::Measured { width, height },
            Err(_) => ImageProbe::NotAnImage,
        },
        _ => ImageProbe::Unsupported,
    }
}

} // verus!
