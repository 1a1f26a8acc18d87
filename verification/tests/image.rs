use toolbox::errors::ProcessingError;
use toolbox::models::{LogoAssetDefinition, PngOptimizationLevel, ResizeOptions, RgbColorDto};
use toolbox::models::ImageFormat;
use toolbox::services::inspect::ImageProbe;
use toolbox::tools::image::decode::{check_size, decode, detect_format, probe_raster};
use toolbox::tools::image::encode::{clamp_quality, effective_quality};
use toolbox::tools::image::logo_pack::{
    generate, ico_sizes, preset_by_id, standard_web_pack, validate_raster_source, PackSourceKind,
};
use toolbox::tools::image::optimize_png::optimize;
use toolbox::tools::image::palette::{
    check_target, cluster_count, export_sheet, fit_max_side, hex_upper, palette_notice,
};
use toolbox::tools::image::resize::{resize_plan, target_size};
use toolbox::tools::image::{is_svg_extension, svg};

// --- resize ---

#[test]
fn original_mode_returns_none() {
    let result = target_size((1200, 800), &ResizeOptions::Original).unwrap();
    assert_eq!(result, None);
}

#[test]
fn dimensions_mode_is_exact() {
    let result = target_size(
        (1200, 800),
        &ResizeOptions::Dimensions { width: 400, height: 300, lock_aspect_ratio: true },
    )
    .unwrap();
    assert_eq!(result, Some((400, 300)));
}

#[test]
fn percentage_preserves_aspect_ratio() {
    let result = target_size((1200, 800), &ResizeOptions::Percentage { percentage: 50 }).unwrap();
    assert_eq!(result, Some((600, 400)));
}

#[test]
fn percentage_never_shrinks_below_one_pixel() {
    let result = target_size((4, 2), &ResizeOptions::Percentage { percentage: 10 }).unwrap();
    assert_eq!(result, Some((1, 1)));
}

#[test]
fn zero_dimensions_are_rejected() {
    let err = target_size(
        (1200, 800),
        &ResizeOptions::Dimensions { width: 0, height: 300, lock_aspect_ratio: false },
    )
    .unwrap_err();
    assert!(err.to_string().contains("greater than zero"));
}

#[test]
fn zero_percentage_is_rejected() {
    let err = target_size((1200, 800), &ResizeOptions::Percentage { percentage: 0 }).unwrap_err();
    assert!(err.to_string().contains("greater than zero"));
}

#[test]
fn percentage_rounds_half_up_and_saturates() {
    assert_eq!(target_size((3, 5), &ResizeOptions::Percentage { percentage: 50 }).unwrap(), Some((2, 3)));
    assert_eq!(target_size((1000, 10), &ResizeOptions::Percentage { percentage: 333 }).unwrap(), Some((3330, 33)));
    assert_eq!(
        target_size((u32::MAX, 1), &ResizeOptions::Percentage { percentage: 200 }).unwrap(),
        Some((u32::MAX, 2))
    );
}

#[test]
fn full_scale_and_same_size_need_no_resample() {
    assert_eq!(resize_plan((640, 480), &ResizeOptions::Percentage { percentage: 100 }).unwrap(), None);
    assert_eq!(
        resize_plan((640, 480), &ResizeOptions::Dimensions { width: 640, height: 480, lock_aspect_ratio: false })
            .unwrap(),
        None
    );
    assert_eq!(resize_plan((640, 480), &ResizeOptions::Percentage { percentage: 50 }).unwrap(), Some((320, 240)));
    assert!(resize_plan((640, 480), &ResizeOptions::Percentage { percentage: 0 }).is_err());
}

// --- size guards and quality ---

#[test]
fn decode_guard_rejects_oversized_images() {
    assert!(check_size(16_384, 3_906).is_ok());
    let err = check_size(16_385, 10).unwrap_err();
    assert!(matches!(err, ProcessingError::InvalidImage { .. }));
    assert_eq!(err.to_string(), "Image too large: 16385 × 10");
    assert!(check_size(8_001, 8_000).is_err());
    assert!(check_size(8_000, 8_000).is_ok());
}

#[test]
fn oversized_render_target_is_rejected() {
    let err = svg::check_size(20_000, 20_000).unwrap_err();
    assert!(matches!(err, ProcessingError::InvalidImage { .. }));
    let zero = svg::check_size(0, 64).unwrap_err();
    assert_eq!(zero.to_string(), "SVG dimensions must be greater than zero");
    assert!(svg::check_size(64, 64).is_ok());
}

#[test]
fn quality_defaults_and_clamps() {
    assert_eq!(effective_quality(None), 82);
    assert_eq!(effective_quality(Some(0)), 1);
    assert_eq!(effective_quality(Some(250)), 100);
    assert_eq!(effective_quality(Some(55)), 55);
    assert_eq!(clamp_quality(101), 100);
}

#[test]
fn svg_sources_are_recognized_in_any_case() {
    assert!(is_svg_extension(Some("svg")));
    assert!(is_svg_extension(Some("SVG")));
    assert!(!is_svg_extension(Some("png")));
    assert!(!is_svg_extension(None));
}

// --- PNG optimization ---

fn crc32(data: &[u8]) -> u32 {
    let mut crc: u32 = 0xFFFF_FFFF;
    for &byte in data {
        crc ^= u32::from(byte);
        for _ in 0..8 {
            crc = if crc & 1 == 1 { (crc >> 1) ^ 0xEDB8_8320 } else { crc >> 1 };
        }
    }
    !crc
}

fn chunk(kind: &[u8; 4], data: &[u8]) -> Vec<u8> {
    let mut out = Vec::with_capacity(12 + data.len());
    out.extend_from_slice(&(data.len() as u32).to_be_bytes());
    out.extend_from_slice(kind);
    out.extend_from_slice(data);
    let mut crc_input = Vec::with_capacity(4 + data.len());
    crc_input.extend_from_slice(kind);
    crc_input.extend_from_slice(data);
    out.extend_from_slice(&crc32(&crc_input).to_be_bytes());
    out
}

fn stored_deflate(data: &[u8]) -> Vec<u8> {
    let mut out = vec![0x78, 0x9C, 0x01];
    let len = data.len() as u16;
    out.extend_from_slice(&len.to_le_bytes());
    out.extend_from_slice(&(!len).to_le_bytes());
    out.extend_from_slice(data);
    let (mut a, mut b) = (1u32, 0u32);
    for &byte in data {
        a = (a + u32::from(byte)) % 65_521;
        b = (b + a) % 65_521;
    }
    out.extend_from_slice(&((b << 16) | a).to_be_bytes());
    out
}

fn naive_rgb_png(width: u32, height: u32) -> Vec<u8> {
    let mut raw = Vec::with_capacity((height * (1 + width * 3)) as usize);
    for y in 0..height {
        raw.push(0);
        for x in 0..width {
            raw.push((x % 251) as u8);
            raw.push((y % 251) as u8);
            raw.push(((x + y) % 251) as u8);
        }
    }
    let mut ihdr = Vec::with_capacity(13);
    ihdr.extend_from_slice(&width.to_be_bytes());
    ihdr.extend_from_slice(&height.to_be_bytes());
    ihdr.extend_from_slice(&[8, 2, 0, 0, 0]);
    let mut png = vec![0x89, 0x50, 0x4E, 0x47, 0x0D, 0x0A, 0x1A, 0x0A];
    png.extend_from_slice(&chunk(b"IHDR", &ihdr));
    png.extend_from_slice(&chunk(b"IDAT", &stored_deflate(&raw)));
    png.extend_from_slice(&chunk(b"IEND", &[]));
    png
}

#[test]
fn naive_png_is_smaller_and_pixel_lossless() {
    let naive = naive_rgb_png(64, 64);
    for level in [PngOptimizationLevel::Fast, PngOptimizationLevel::Balanced, PngOptimizationLevel::Max] {
        let optimized = optimize(&naive, level).unwrap();
        assert!(
            optimized.len() < naive.len(),
            "expected smaller output at level {:?}, got {} >= {}",
            level,
            optimized.len(),
            naive.len()
        );
        let before = image::load_from_memory(&naive).unwrap();
        let after = image::load_from_memory(&optimized).unwrap();
        assert_eq!((before.width(), before.height()), (after.width(), after.height()));
        assert_eq!(
            before.to_rgba8().into_raw(),
            after.to_rgba8().into_raw(),
            "optimization must not change pixels at level {:?}",
            level
        );
    }
}

fn small_webp(width: u32, height: u32) -> Vec<u8> {
    let img = image::RgbaImage::from_fn(width, height, |x, y| image::Rgba([x as u8, y as u8, 7, 200]));
    let mut out = Vec::new();
    image::codecs::webp::WebPEncoder::new_lossless(&mut out)
        .encode(img.as_raw(), width, height, image::ExtendedColorType::Rgba8)
        .unwrap();
    out
}

#[test]
fn decodes_png_bytes_with_their_size() {
    let img = decode(&naive_rgb_png(5, 3), Some("png"), "a.png").unwrap();
    assert_eq!((img.width, img.height), (5, 3));
    assert_eq!((img.channels, img.bytes_per_pixel), (3, 3));
    assert_eq!(img.bytes.len(), 5 * 3 * 3);
    assert_eq!(&img.bytes[3..6], &[1, 0, 1]);
}

#[test]
fn decodes_webp_bytes_through_the_webp_decoder() {
    let img = decode(&small_webp(4, 2), Some("webp"), "a.webp").unwrap();
    assert_eq!((img.width, img.height), (4, 2));
    assert_eq!((img.channels, img.bytes_per_pixel), (4, 4));
    assert_eq!(&img.bytes[28..32], &[3, 1, 7, 200]);
}

#[test]
fn valid_png_decodes() {
    let img = decode(&naive_rgb_png(32, 24), Some("png"), "ok.png").unwrap();
    assert_eq!((img.width, img.height), (32, 24));
}

#[test]
fn over_limit_dimension_is_rejected() {
    let err = decode(&naive_rgb_png(16_385, 10), Some("png"), "huge.png").unwrap_err();
    assert!(matches!(err, ProcessingError::InvalidImage { .. }));
}

#[test]
fn corrupt_png_fails_without_panicking() {
    assert!(decode(b"garbage bytes that are not a png", Some("png"), "broken.png").is_err());
}

#[test]
fn truncated_png_fails_without_panicking() {
    assert!(decode(&[0x89, 0x50, 0x4e, 0x47, 0x0d, 0x0a, 0x1a, 0x0a], Some("png"), "truncated.png").is_err());
}

#[test]
fn zero_byte_file_fails_without_panicking() {
    assert!(decode(&[], Some("png"), "empty.png").is_err());
}

#[test]
fn oversized_png_is_rejected_before_decoding() {
    let err = decode(&naive_rgb_png(20_000, 1), Some("png"), "big.png").unwrap_err();
    assert!(matches!(err, ProcessingError::InvalidImage { .. }));
    assert_eq!(err.to_string(), "Image too large: 20000 × 1");
}

#[test]
fn unknown_bytes_fall_back_to_the_extension() {
    let err = decode(b"not an image at all", Some("PNG"), "x.PNG").unwrap_err();
    assert!(matches!(err, ProcessingError::DecodeFailed { .. }));
    assert!(err.to_string().starts_with("Could not read dimensions of 'x.PNG': "));
    let err = decode(b"not an image at all", None, "x").unwrap_err();
    assert!(matches!(err, ProcessingError::UnsupportedFormat { .. }));
    assert_eq!(err.to_string(), "Unsupported format for 'x'");
    let err = decode(b"GIF89a-rest-of-a-gif", Some("png"), "g.png").unwrap_err();
    assert_eq!(err.to_string(), "Unsupported format for 'g.png'");
}

#[test]
fn detects_formats_from_magic_bytes() {
    assert_eq!(detect_format(&naive_rgb_png(2, 2), Some("jpg"), "a").unwrap(), ImageFormat::Png);
    assert_eq!(detect_format(&small_webp(2, 2), None, "a").unwrap(), ImageFormat::Webp);
    assert_eq!(detect_format(&[0xff, 0xd8, 0xff, 0xe0], None, "a").unwrap(), ImageFormat::Jpeg);
    assert!(detect_format(b"BMxxxx", Some("png"), "a").is_err());
}

#[test]
fn probe_measures_headers_without_decoding() {
    assert_eq!(probe_raster(&naive_rgb_png(7, 9), None), ImageProbe::Measured { width: 7, height: 9 });
    assert_eq!(probe_raster(&small_webp(3, 5), None), ImageProbe::Measured { width: 3, height: 5 });
    assert_eq!(probe_raster(b"garbage", Some("jpg")), ImageProbe::NotAnImage);
    assert_eq!(probe_raster(b"garbage", None), ImageProbe::Unsupported);
}

#[test]
fn reoptimizing_never_grows_the_file() {
    let naive = naive_rgb_png(16, 16);
    let once = optimize(&naive, PngOptimizationLevel::Balanced).unwrap();
    let twice = optimize(&once, PngOptimizationLevel::Balanced).unwrap();
    assert!(twice.len() <= once.len(), "second pass grew the file: {} > {}", twice.len(), once.len());
}

#[test]
fn garbage_input_fails_without_panicking() {
    let err = optimize(b"definitely not a png", PngOptimizationLevel::Balanced).unwrap_err();
    assert!(matches!(err, ProcessingError::EncodeFailed { .. }));
    assert!(err.to_string().starts_with("PNG optimization failed: "));
}

// --- logo pack ---

#[test]
fn preset_list_matches_standard_web_pack() {
    let pack = standard_web_pack();
    assert_eq!(pack.len(), 6);
    assert!(preset_by_id("favicon-ico").is_some());
    assert!(preset_by_id("icon-512").is_some());
    assert!(preset_by_id("nope").is_none());
    for preset in pack.iter() {
        assert!(!preset.filename.is_empty());
        assert!(preset.format == "png" || preset.format == "ico");
    }
}

#[test]
fn presets_are_found_with_their_files() {
    let apple = preset_by_id("apple-touch").unwrap();
    assert_eq!(apple.filename, "apple-touch-icon.png");
    assert_eq!((apple.width, apple.height), (180, 180));
    let ico = preset_by_id("favicon-ico").unwrap();
    assert_eq!((ico.filename.as_str(), ico.format.as_str(), ico.width), ("favicon.ico", "ico", 0));
    assert_eq!(ico_sizes(), vec![16, 32, 48]);
}

#[test]
fn non_square_source_is_rejected() {
    let err = validate_raster_source(512, 400).unwrap_err();
    assert!(matches!(err, ProcessingError::InvalidDimensions { .. }));
    assert_eq!(err.to_string(), "Source must be square and at least 512 × 512 (got 512 × 400)");
}

#[test]
fn too_small_square_source_is_rejected() {
    let err = validate_raster_source(256, 256).unwrap_err();
    assert!(matches!(err, ProcessingError::InvalidDimensions { .. }));
    assert!(validate_raster_source(512, 512).is_ok());
}

fn write_ok(preset: &LogoAssetDefinition) -> Result<(String, u64), ProcessingError> {
    Ok((format!("/pack/{}", preset.filename), 100))
}

#[test]
fn subset_generates_only_selected_assets() {
    let ids = vec!["icon-192".to_string()];
    let result = generate(PackSourceKind::Raster { width: 512, height: 512 }, &ids, write_ok, |_: u32, _: u32, _: &String| {})
        .unwrap();
    assert_eq!(result.total, 1);
    assert_eq!(result.succeeded, 1);
    assert_eq!(result.items[0].source_path, "icon-192.png");
    assert_eq!(result.items[0].output_path.as_deref(), Some("/pack/icon-192.png"));
}

#[test]
fn unknown_and_failed_assets_fail_alone() {
    let ids = vec!["nope".to_string(), "favicon-16".to_string(), "favicon-ico".to_string()];
    let progress = std::cell::RefCell::new(Vec::new());
    let result = generate(
        PackSourceKind::Svg,
        &ids,
        |preset: &LogoAssetDefinition| {
            if preset.format == "ico" {
                Err(ProcessingError::encode_failed("Could not encode ICO: x"))
            } else {
                write_ok(preset)
            }
        },
        |done: u32, total: u32, name: &String| progress.borrow_mut().push((done, total, name.clone())),
    )
    .unwrap();
    assert_eq!((result.total, result.succeeded, result.failed), (3, 1, 2));
    let unknown = result.items[0].error.as_ref().unwrap();
    assert_eq!(unknown.code, "PROCESSING_FAILED");
    assert_eq!(unknown.message, "Unknown logo asset: nope");
    assert_eq!(result.items[0].source_path, "nope");
    assert_eq!(result.items[2].source_path, "favicon.ico");
    assert_eq!(result.items[2].error.as_ref().unwrap().code, "ENCODE_FAILED");
    assert_eq!(
        progress.into_inner(),
        vec![
            (1, 3, "nope".to_string()),
            (2, 3, "favicon-16x16.png".to_string()),
            (3, 3, "favicon.ico".to_string())
        ]
    );
}

#[test]
fn generation_refuses_a_small_raster_before_any_asset() {
    let ids = vec!["icon-192".to_string()];
    let err = generate(PackSourceKind::Raster { width: 256, height: 256 }, &ids, write_ok, |_: u32, _: u32, _: &String| {})
        .unwrap_err();
    assert!(matches!(err, ProcessingError::InvalidDimensions { .. }));
}

// --- palette ---

#[test]
fn rejects_target_out_of_range() {
    assert!(matches!(check_target(2), Err(ProcessingError::InvalidImage { .. })));
    assert!(matches!(check_target(13), Err(ProcessingError::InvalidImage { .. })));
    assert!(check_target(3).is_ok());
    assert!(check_target(12).is_ok());
    assert_eq!(check_target(0).unwrap_err().to_string(), "Palette size must be between 3 and 12");
}

#[test]
fn preview_long_edge_is_bounded() {
    assert_eq!(fit_max_side(2000, 500, 1024), (1024, 256));
    assert_eq!(fit_max_side(500, 2000, 256), (64, 256));
    assert_eq!(fit_max_side(200, 100, 1024), (200, 100));
    assert_eq!(fit_max_side(0, 0, 256), (1, 1));
    assert_eq!(fit_max_side(3000, 1, 256), (256, 1));
}

#[test]
fn cluster_count_is_bounded() {
    assert_eq!(cluster_count(4, 10_000), 12);
    assert_eq!(cluster_count(12, 10_000), 36);
    assert_eq!(cluster_count(6, 5), 5);
    assert_eq!(cluster_count(3, 0), 1);
}

#[test]
fn notice_reports_the_shortfall() {
    assert_eq!(palette_notice(1, 6), Some("Found 1 distinguishable colors.".to_string()));
    assert_eq!(palette_notice(6, 6), None);
}

#[test]
fn hex_is_uppercase() {
    assert_eq!(hex_upper(&RgbColorDto { r: 255, g: 0, b: 10 }), "#FF000A");
    assert_eq!(hex_upper(&RgbColorDto { r: 0x0a, g: 0xbc, b: 0xd9 }), "#0ABCD9");
}

#[test]
fn export_writes_sheet_with_expected_dimensions() {
    let colors = vec![
        RgbColorDto { r: 255, g: 0, b: 0 },
        RgbColorDto { r: 0, g: 255, b: 0 },
        RgbColorDto { r: 0, g: 0, b: 255 },
        RgbColorDto { r: 255, g: 255, b: 0 },
        RgbColorDto { r: 0, g: 0, b: 0 },
    ];
    let plan = export_sheet(&colors).unwrap();
    assert_eq!(plan.width, 20 * 2 + 3 * 220 + 2 * 16);
    assert_eq!(plan.height, 20 * 2 + 2 * (150 + 62) + 16);
}

#[test]
fn export_writes_vector_svg_sheet() {
    let colors = vec![
        RgbColorDto { r: 255, g: 0, b: 0 },
        RgbColorDto { r: 0, g: 255, b: 0 },
        RgbColorDto { r: 0, g: 0, b: 255 },
    ];
    let plan = export_sheet(&colors).unwrap();
    assert_eq!((plan.width, plan.height), (20 * 2 + 3 * 220 + 2 * 16, 20 * 2 + 150 + 62));
    assert!(plan.svg.starts_with("<svg xmlns=\"http://www.w3.org/2000/svg\""));
    assert!(plan.svg.contains("#FF0000"));
    assert!(plan.svg.contains("RGB(0, 255, 0)"));
    assert!(plan.svg.ends_with("</svg>"));
}

#[test]
fn single_color_sheet_is_exact() {
    let plan = export_sheet(&vec![RgbColorDto { r: 10, g: 20, b: 30 }]).unwrap();
    assert_eq!((plan.width, plan.height), (260, 252));
    let expected = [
        "<svg xmlns=\"http://www.w3.org/2000/svg\" width=\"260\" height=\"252\" viewBox=\"0 0 260 252\">",
        "<rect width=\"260\" height=\"252\" fill=\"#ffffff\"/>",
        "<rect x=\"20\" y=\"20\" width=\"220\" height=\"150\" rx=\"8\" fill=\"#0A141E\"/>",
        "<text x=\"20\" y=\"196\" font-family=\"Arial, sans-serif\" font-size=\"24\" font-weight=\"700\" fill=\"#21201c\">#0A141E</text>",
        "<text x=\"20\" y=\"220\" font-family=\"Arial, sans-serif\" font-size=\"15\" fill=\"#6c6a63\">RGB(10, 20, 30)</text>",
        "</svg>",
    ]
    .concat();
    assert_eq!(plan.svg, expected);
}

#[test]
fn export_rejects_empty_and_over_limit() {
    assert!(matches!(export_sheet(&Vec::new()), Err(ProcessingError::InvalidImage { .. })));
    let too_many: Vec<RgbColorDto> = (0..13).map(|i| RgbColorDto { r: i, g: 0, b: 0 }).collect();
    assert!(matches!(export_sheet(&too_many), Err(ProcessingError::InvalidImage { .. })));
}
