//! Request, result and preset types exchanged with the frontend.

use vstd::prelude::*;

use crate::errors::ProcessingErrorDto;

verus! {

#[derive(Debug, Clone, Copy, PartialEq, Eq, Structural)]
pub enum ImageFormat {
    Png,
    Jpeg,
    Webp,
}

pub open spec fn image_extension(format: ImageFormat) -> Seq<char> {
    match format {
        ImageFormat::Png => "png"@,
        ImageFormat::Jpeg => "jpg"@,
        ImageFormat::Webp => "webp"@,
    }
}

impl ImageFormat {
    /// File extension of the encoded output (JPEG is written as `jpg`).
    pub fn extension(&self) -> (ext: &'static str)
        ensures
            ext@ == image_extension(*self),
    {
        match self {
            ImageFormat::Png => "png",
            ImageFormat::Jpeg => "jpg",
            ImageFormat::Webp => "webp",
        }
    }
}

/// Sheet format for the palette export. Separate from `ImageFormat`: the
/// palette sheet supports vector SVG output and has no WebP variant.
#[derive(Debug, Clone, Copy, PartialEq, Eq, Structural)]
pub enum PaletteExportFormat {
    Png,
    Jpg,
    Svg,
}

pub open spec fn palette_extension(format: PaletteExportFormat) -> Seq<char> {
    match format {
        PaletteExportFormat::Png => "png"@,
        PaletteExportFormat::Jpg => "jpg"@,
        PaletteExportFormat::Svg => "svg"@,
    }
}

impl PaletteExportFormat {
    pub fn extension(&self) -> (ext: &'static str)
        ensures
            ext@ == palette_extension(*self),
    {
        match self {
            PaletteExportFormat::Png => "png",
            PaletteExportFormat::Jpg => "jpg",
            PaletteExportFormat::Svg => "svg",
        }
    }
}

#[derive(Debug, Clone, Copy, PartialEq, Eq, Structural)]
pub enum PngOptimizationLevel {
    Fast,
    Balanced,
    Max,
}

pub open spec fn png_preset(level: PngOptimizationLevel) -> u8 {
    match level {
        PngOptimizationLevel::Fast => 1,
        PngOptimizationLevel::Balanced => 2,
        PngOptimizationLevel::Max => 4,
    }
}

impl PngOptimizationLevel {
    /// The optimizer preset number of this level.
    pub fn preset(&self) -> (p: u8)
        ensures
            p == png_preset(*self),
    {
        match self {
            PngOptimizationLevel::Fast => 1,
            PngOptimizationLevel::Balanced => 2,
            PngOptimizationLevel::Max => 4,
        }
    }

    /// The level used when a request names none.
    pub fn default_level() -> (l: Self)
        ensures
            l == PngOptimizationLevel::Balanced,
    {
        PngOptimizationLevel::Balanced
    }
}

impl Default for PngOptimizationLevel {
    fn default() -> (l: Self)
        ensures
            l == PngOptimizationLevel::Balanced,
    {
        PngOptimizationLevel::Balanced
    }
}

#[derive(Debug, Clone, PartialEq, Eq, Structural)]
pub enum ResizeOptions {
    Original,
    Dimensions { width: u32, height: u32, lock_aspect_ratio: bool },
    Percentage { percentage: u32 },
}

#[derive(Debug, Clone)]
pub struct ConvertImagesRequest {
    pub files: Vec<String>,
    pub output_directory: String,
    pub output_format: ImageFormat,
    pub quality: Option<u8>,
    pub png_level: Option<PngOptimizationLevel>,
    pub resize: ResizeOptions,
    pub job_id: String,
}

#[derive(Debug, Clone)]
pub struct CompressImagesRequest {
    pub files: Vec<String>,
    pub output_directory: String,
    pub quality: u8,
    pub png_level: Option<PngOptimizationLevel>,
    pub resize: ResizeOptions,
    pub job_id: String,
}

#[derive(Debug, Clone)]
pub struct GenerateLogoPackRequest {
    pub source_path: String,
    pub output_directory: String,
    pub asset_ids: Vec<String>,
    pub job_id: String,
}

#[derive(Debug, Clone)]
pub struct LogoAssetDefinition {
    pub id: String,
    pub filename: String,
    pub width: u32,
    pub height: u32,
    pub format: String,
    pub default_enabled: bool,
}

#[derive(Debug, Clone)]
pub struct GenerateLogoPackResult {
    pub pack_directory: String,
    pub batch: BatchResult,
}

#[derive(Debug, Clone, Copy, PartialEq, Eq, Structural)]
pub enum VideoOutputFormat {
    Mp4,
    Webm,
}

pub open spec fn video_extension(format: VideoOutputFormat) -> Seq<char> {
    match format {
        VideoOutputFormat::Mp4 => "mp4"@,
        VideoOutputFormat::Webm => "webm"@,
    }
}

impl VideoOutputFormat {
    pub fn extension(&self) -> (ext: &'static str)
        ensures
            ext@ == video_extension(*self),
    {
        match self {
            VideoOutputFormat::Mp4 => "mp4",
            VideoOutputFormat::Webm => "webm",
        }
    }
}

#[derive(Debug, Clone, Copy, PartialEq, Eq, Structural)]
pub enum VideoQualityPreset {
    High,
    Balanced,
    Small,
}

#[derive(Debug, Clone, Copy, PartialEq, Eq, Structural)]
pub enum VideoResolutionPreset {
    Original,
    P1080,
    P720,
    P480,
}

#[derive(Debug, Clone)]
pub struct ProcessVideosRequest {
    pub files: Vec<String>,
    pub output_directory: String,
    pub output_format: VideoOutputFormat,
    pub resolution: VideoResolutionPreset,
    pub quality: VideoQualityPreset,
    pub job_id: String,
}

#[derive(Debug, Clone, Copy, PartialEq, Eq, Structural)]
pub enum VideoBatchStatus {
    Completed,
    Canceled,
}

#[derive(Debug, Clone)]
pub struct VideoBatchResult {
    pub status: VideoBatchStatus,
    pub total: u32,
    pub succeeded: u32,
    pub failed: u32,
    pub items: Vec<FileResult>,
}

#[derive(Debug, Clone)]
pub struct ConvertPdfsRequest {
    pub files: Vec<String>,
    pub output_directory: String,
    pub job_id: String,
}

#[derive(Debug, Clone, Copy, PartialEq, Eq, Structural)]
pub enum PdfOptimizationPreset {
    Lossless,
    Balanced,
    Smaller,
}

#[derive(Debug, Clone, Copy, PartialEq, Eq, Structural)]
pub enum PdfOptimizeBatchStatus {
    Completed,
    Canceled,
}

#[derive(Debug, Clone, Copy, PartialEq, Eq, Structural)]
pub enum PdfOptimizeOutcome {
    Optimized,
    AlreadyOptimized,
    Failed,
    Canceled,
}

#[derive(Debug, Clone)]
pub struct OptimizePdfsRequest {
    pub files: Vec<String>,
    pub output_directory: String,
    pub preset: PdfOptimizationPreset,
    pub job_id: String,
}

#[derive(Debug, Clone)]
pub struct OptimizePdfFileResult {
    pub source_path: String,
    pub outcome: PdfOptimizeOutcome,
    pub original_size: u64,
    pub output_path: Option<String>,
    pub output_size: Option<u64>,
    pub error: Option<ProcessingErrorDto>,
    pub warnings: Option<Vec<FileWarning>>,
}

#[derive(Debug, Clone)]
pub struct OptimizePdfBatchResult {
    pub status: PdfOptimizeBatchStatus,
    pub total: u32,
    pub optimized: u32,
    pub already_optimized: u32,
    pub failed: u32,
    pub items: Vec<OptimizePdfFileResult>,
}

#[derive(Debug, Clone)]
pub struct FileWarning {
    pub code: String,
    pub message: String,
    pub pages: Option<Vec<u32>>,
}

#[derive(Debug, Clone)]
pub struct FileResult {
    pub source_path: String,
    pub output_path: Option<String>,
    pub success: bool,
    pub original_size: u64,
    pub output_size: Option<u64>,
    pub error: Option<ProcessingErrorDto>,
    pub warnings: Option<Vec<FileWarning>>,
}

#[derive(Debug, Clone)]
pub struct BatchResult {
    pub total: u32,
    pub succeeded: u32,
    pub failed: u32,
    pub items: Vec<FileResult>,
}

#[derive(Debug, Clone)]
pub struct ProcessingProgress {
    pub job_id: String,
    pub completed: u32,
    pub total: u32,
    pub current_file: Option<String>,
}

#[derive(Debug, Clone, Copy, PartialEq, Eq, Structural)]
pub struct RgbColorDto {
    pub r: u8,
    pub g: u8,
    pub b: u8,
}

#[derive(Debug, Clone)]
pub struct ExtractColorPaletteRequest {
    pub source_path: String,
    pub target_count: u32,
}

#[derive(Debug, Clone)]
pub struct ExportColorPaletteRequest {
    pub source_path: String,
    pub colors: Vec<RgbColorDto>,
    pub output_directory: String,
    pub format: PaletteExportFormat,
}

#[derive(Debug, Clone)]
pub struct ExportColorPaletteResult {
    pub output_path: String,
}

} // verus!
