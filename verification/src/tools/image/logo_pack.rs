//! The Standard Web Pack: its asset presets, the validation of a raster
//! source, and the per-asset generation loop with its accounting.

use vstd::prelude::*;

use crate::errors::{code_of, ErrorKind, ProcessingError};
use crate::models::{BatchResult, FileResult, LogoAssetDefinition};
use crate::services::batch::{failure_result, summarize, summarizes};
use crate::text::{chars_eq, chars_of, dec, push_dec, push_str, string_of};

verus! {

/// Smallest accepted side of a square raster source (the largest preset).
pub const MIN_SOURCE_SIZE: u32 = 512;

/// A preset as plain values: id, file name, width, height, format, enabled
/// by default.
pub type AssetView = (Seq<char>, Seq<char>, u32, u32, Seq<char>, bool);

pub open spec fn asset_view(a: LogoAssetDefinition) -> AssetView {
    (a.id@, a.filename@, a.width, a.height, a.format@, a.default_enabled)
}

/// The Standard Web Pack, in display order. The ICO has no single size.
pub open spec fn standard_pack_spec() -> Seq<AssetView> {
    seq![
        ("favicon-ico"@, "favicon.ico"@, 0u32, 0u32, "ico"@, true),
        ("favicon-16"@, "favicon-16x16.png"@, 16u32, 16u32, "png"@, true),
        ("favicon-32"@, "favicon-32x32.png"@, 32u32, 32u32, "png"@, true),
        ("apple-touch"@, "apple-touch-icon.png"@, 180u32, 180u32, "png"@, true),
        ("icon-192"@, "icon-192.png"@, 192u32, 192u32, "png"@, true),
        ("icon-512"@, "icon-512.png"@, 512u32, 512u32, "png"@, true),
    ]
}

/// The preset of the first pack entry whose id is `id`.
pub open spec fn preset_spec(id: Seq<char>) -> Option<AssetView> {
    let pack = standard_pack_spec();
    if id == pack[0].0 {
        Some(pack[0])
    } else if id == pack[1].0 {
        Some(pack[1])
    } else if id == pack[2].0 {
        Some(pack[2])
    } else if id == pack[3].0 {
        Some(pack[3])
    } else if id == pack[4].0 {
        Some(pack[4])
    } else if id == pack[5].0 {
        Some(pack[5])
    } else {
        None
    }
}

fn asset(id: &str, filename: &str, width: u32, height: u32, format: &str) -> (a: LogoAssetDefinition)
    ensures
        asset_view(a) == (id@, filename@, width, height, format@, true),
{
    LogoAssetDefinition {
        id: id.to_owned(),
        filename: filename.to_owned(),
        width,
        height,
        format: format.to_owned(),
        default_enabled: true,
    }
}

pub open spec fn pack_view(v: Seq<LogoAssetDefinition>) -> Seq<AssetView> {
    v.map_values(|a: LogoAssetDefinition| asset_view(a))
}

/// The Standard Web Pack: the single source of truth for asset file names,
/// sizes and formats.
pub fn standard_web_pack() -> (pack: Vec<LogoAssetDefinition>)
    ensures
        pack_view(pack@) == standard_pack_spec(),
{
    let mut pack: Vec<LogoAssetDefinition> = Vec::new();
    pack.push(asset("favicon-ico", "favicon.ico", 0, 0, "ico"));
    pack.push(asset("favicon-16", "favicon-16x16.png", 16, 16, "png"));
    pack.push(asset("favicon-32", "favicon-32x32.png", 32, 32, "png"));
    pack.push(asset("apple-touch", "apple-touch-icon.png", 180, 180, "png"));
    pack.push(asset("icon-192", "icon-192.png", 192, 192, "png"));
    pack.push(asset("icon-512", "icon-512.png", 512, 512, "png"));
    assert(pack_view(pack@) =~= standard_pack_spec());
    pack
}

/// Looks a preset up by id.
pub fn preset_by_id(id: &str) -> (r: Option<LogoAssetDefinition>)
    ensures
        match (r, preset_spec(id@)) {
            (Some(a), Some(p)) => asset_view(a) == p,
            (None, None) => true,
            _ => false,
        },
{
    let pack = standard_web_pack();
    let wanted = chars_of(id);
    let mut i: usize = 0;
    while i < pack.len()
        invariant
            pack_view(pack@) == standard_pack_spec(),
            wanted@ == id@,
            i <= pack.len(),
            forall|j: int| 0 <= j < i ==> standard_pack_spec()[j].0 != id@,
        decreases pack.len() - i,
    {
        let candidate = chars_of(pack[i].id.as_str());
        assert(standard_pack_spec()[i as int] == asset_view(pack@[i as int]));
        if chars_eq(&candidate, &wanted) {
            let entry = &pack[i];
            let found = LogoAssetDefinition {
                id: entry.id.clone(),
                filename: entry.filename.clone(),
                width: entry.width,
                height: entry.height,
                format: entry.format.clone(),
                default_enabled: entry.default_enabled,
            };
            proof {
                let spec = standard_pack_spec();
                assert(id@ == spec[i as int].0);
                assert(pack_view(pack@).len() == 6);
                assert(forall|j: int| 0 <= j < i ==> spec[j].0 != id@);
                if i == 0 {
                } else if i == 1 {
                    assert(spec[0].0 != id@);
                } else if i == 2 {
                    assert(spec[0].0 != id@ && spec[1].0 != id@);
                } else if i == 3 {
                    assert(spec[0].0 != id@ && spec[1].0 != id@ && spec[2].0 != id@);
                } else if i == 4 {
                    assert(spec[0].0 != id@ && spec[1].0 != id@ && spec[2].0 != id@ && spec[3].0 != id@);
                } else {
                    assert(spec[0].0 != id@ && spec[1].0 != id@ && spec[2].0 != id@ && spec[3].0 != id@
                        && spec[4].0 != id@);
                }
                assert(preset_spec(id@) == Some(spec[i as int]));
            }
            return Some(found);
        }
        i = i + 1;
    }
    assert(pack_view(pack@).len() == 6);
    assert(standard_pack_spec()[0].0 != id@ && standard_pack_spec()[1].0 != id@ && standard_pack_spec()[2].0 != id@
        && standard_pack_spec()[3].0 != id@ && standard_pack_spec()[4].0 != id@ && standard_pack_spec()[5].0 != id@);
    None
}

/// The ICO frame sizes, smallest first.
pub open spec fn ico_sizes_spec() -> Seq<u32> {
    seq![16u32, 32u32, 48u32]
}

/// The sizes packed into the multi-resolution `favicon.ico`.
pub fn ico_sizes() -> (v: Vec<u32>)
    ensures
        v@ == ico_sizes_spec(),
{
    let mut v: Vec<u32> = Vec::new();
    v.push(16);
    v.push(32);
    v.push(48);
    assert(v@ =~= ico_sizes_spec());
    v
}

pub open spec fn source_size_message(width: u32, height: u32) -> Seq<char> {
    "Source must be square and at least 512 × 512 (got "@ + dec(width as nat) + " × "@ + dec(height as nat) + ")"@
}

/// A raster source must be square and at least 512 pixels on a side (SVG
/// sources render at any size).
pub fn validate_raster_source(width: u32, height: u32) -> (r: Result<(), ProcessingError>)
    ensures
        width == height && width >= MIN_SOURCE_SIZE ==> r is Ok,
        !(width == height && width >= MIN_SOURCE_SIZE) ==> (r matches Err(e)
            && e.is(ErrorKind::InvalidDimensions, source_size_message(width, height))),
{
    if width != height || width < MIN_SOURCE_SIZE {
        let mut m: Vec<char> = Vec::new();
        push_str(&mut m, "Source must be square and at least 512 × 512 (got ");
        push_dec(&mut m, width as u64);
        push_str(&mut m, " × ");
        push_dec(&mut m, height as u64);
        push_str(&mut m, ")");
        return Err(ProcessingError::new(ErrorKind::InvalidDimensions, string_of(&m)));
    }
    Ok(())
}

/// The kind of pack source, with a raster source's size.
#[derive(Debug, Clone, Copy, PartialEq, Eq, Structural)]
pub enum PackSourceKind {
    Raster { width: u32, height: u32 },
    Svg,
}

pub open spec fn unknown_asset_message(id: Seq<char>) -> Seq<char> {
    "Unknown logo asset: "@ + id
}

/// The result of an asset: named by the preset's file name, original size
/// zero, and the write's outcome.
pub open spec fn asset_result_spec(filename: Seq<char>, outcome: Result<(String, u64), ProcessingError>, item: FileResult) -> bool {
    &&& item.source_path@ == filename
    &&& item.original_size == 0
    &&& item.warnings is None
    &&& match outcome {
        Ok((path, size)) => item.success && item.output_path == Some(path) && item.output_size == Some(size)
            && item.error is None,
        Err(e) => !item.success && item.output_path is None && item.output_size is None
            && (item.error matches Some(d) && d.code@ == code_of(e.kind()) && d.message@ == e.message_view()),
    }
}

/// What the pack records for the requested `id`: an unknown id fails on its
/// own; a known one holds the outcome of writing its preset.
pub open spec fn pack_item_spec<F: Fn(&LogoAssetDefinition) -> Result<(String, u64), ProcessingError>>(
    write_asset: F,
    id: Seq<char>,
    item: FileResult,
) -> bool {
    match preset_spec(id) {
        None => !item.success && item.source_path@ == id && item.original_size == 0 && item.output_path is None
            && (item.error matches Some(d) && d.code@ == code_of(ErrorKind::ProcessingFailed)
                && d.message@ == unknown_asset_message(id)),
        Some(p) => exists|a: LogoAssetDefinition, outcome: Result<(String, u64), ProcessingError>|
            asset_view(a) == p && #[trigger] call_ensures(write_asset, (&a,), outcome)
                && asset_result_spec(p.1, outcome, item),
    }
}

fn asset_result(filename: String, outcome: Result<(String, u64), ProcessingError>) -> (item: FileResult)
    ensures
        asset_result_spec(filename@, outcome, item),
{
    match outcome {
        Ok((path, size)) => FileResult {
            source_path: filename,
            output_path: Some(path),
            success: true,
            original_size: 0,
            output_size: Some(size),
            error: None,
            warnings: None,
        },
        Err(e) => failure_result(filename, 0, e),
    }
}

fn generate_asset<F>(asset_id: &String, write_asset: &F) -> (item: FileResult)
    where
        F: Fn(&LogoAssetDefinition) -> Result<(String, u64), ProcessingError>,
    requires
        forall|a: LogoAssetDefinition| call_requires(*write_asset, (&a,)),
    ensures
        pack_item_spec(*write_asset, asset_id@, item),
{
    match preset_by_id(asset_id.as_str()) {
        None => {
            let mut m: Vec<char> = Vec::new();
            push_str(&mut m, "Unknown logo asset: ");
            push_str(&mut m, asset_id.as_str());
            let e = ProcessingError::new(ErrorKind::ProcessingFailed, string_of(&m));
            failure_result(asset_id.clone(), 0, e)
        },
        Some(preset) => {
            let outcome = write_asset(&preset);
            let item = asset_result(preset.filename.clone(), outcome);
            assert(asset_result_spec(asset_view(preset).1, outcome, item));
            item
        },
    }
}

pub open spec fn source_accepted(source: PackSourceKind) -> bool {
    match source {
        PackSourceKind::Raster { width, height } => width == height && width >= MIN_SOURCE_SIZE,
        PackSourceKind::Svg => true,
    }
}

/// Generates the selected assets of the Standard Web Pack. A raster source
/// that is not square or is below 512 × 512 fails the whole pack. Otherwise
/// every requested id yields one result, in order (an unknown id or a
/// failed write fails only its own item), `on_progress(done, total,
/// name)` is called after each, and the batch counts every item.
pub fn generate<F, P>(source: PackSourceKind, asset_ids: &Vec<String>, write_asset: F, on_progress: P) -> (r: Result<BatchResult, ProcessingError>)
    where
        F: Fn(&LogoAssetDefinition) -> Result<(String, u64), ProcessingError>,
        P: Fn(u32, u32, &String),
    requires
        asset_ids.len() <= u32::MAX,
        forall|a: LogoAssetDefinition| call_requires(write_asset, (&a,)),
        forall|done: u32, total: u32, name: &String| call_requires(on_progress, (done, total, name)),
    ensures
        source matches PackSourceKind::Raster { width, height } ==> (!source_accepted(source) ==> (r matches Err(e)
            && e.is(ErrorKind::InvalidDimensions, source_size_message(width, height)))),
        source_accepted(source) ==> (r matches Ok(b) && summarizes(b, b.items@) && b.items.len() == asset_ids.len()
            && forall|i: int| 0 <= i < asset_ids.len() ==> pack_item_spec(write_asset, asset_ids@[i]@, #[trigger] b.items@[i])),
{
    if let PackSourceKind::Raster { width, height } = source {
        match validate_raster_source(width, height) {
            Ok(()) => {},
            Err(e) => return Err(e),
        }
    }
    let total = asset_ids.len();
    let mut items: Vec<FileResult> = Vec::new();
    let mut index: usize = 0;
    while index < total
        invariant
            total == asset_ids.len() <= u32::MAX,
            index <= total,
            items.len() == index,
            forall|a: LogoAssetDefinition| call_requires(write_asset, (&a,)),
            forall|done: u32, t: u32, name: &String| call_requires(on_progress, (done, t, name)),
            forall|i: int| 0 <= i < index ==> pack_item_spec(write_asset, asset_ids@[i]@, #[trigger] items@[i]),
        decreases total - index,
    {
        let item = generate_asset(&asset_ids[index], &write_asset);
        on_progress((index + 1) as u32, total as u32, &item.source_path);
        items.push(item);
        index = index + 1;
    }
    Ok(summarize(items))
}

/// Every pack entry is found by its own id.
pub proof fn law_every_preset_is_found_by_id(i: int)
    requires
        0 <= i < standard_pack_spec().len(),
    ensures
        preset_spec(standard_pack_spec()[i].0) == Some(standard_pack_spec()[i]),
{
    reveal_strlit("favicon-ico");
    reveal_strlit("favicon-16");
    reveal_strlit("favicon-32");
    reveal_strlit("apple-touch");
    reveal_strlit("icon-192");
    reveal_strlit("icon-512");
    let p = standard_pack_spec();
    assert(p[0].0[0] != p[3].0[0]);
    assert(p[1].0[8] != p[2].0[8]);
    assert(p[4].0[5] != p[5].0[5]);
    assert(p[0].0 != p[1].0 && p[0].0 != p[2].0 && p[0].0 != p[3].0 && p[0].0 != p[4].0 && p[0].0 != p[5].0);
    assert(p[1].0 != p[2].0 && p[1].0 != p[3].0 && p[1].0 != p[4].0 && p[1].0 != p[5].0);
    assert(p[2].0 != p[3].0 && p[2].0 != p[4].0 && p[2].0 != p[5].0);
    assert(p[3].0 != p[4].0 && p[3].0 != p[5].0);
    assert(p[4].0 != p[5].0);
}

/// Every preset is a PNG or the ICO, and only the ICO has no fixed size.
pub proof fn law_presets_are_png_or_ico(i: int)
    requires
        0 <= i < standard_pack_spec().len(),
    ensures
        standard_pack_spec()[i].4 == "png"@ || standard_pack_spec()[i].4 == "ico"@,
        standard_pack_spec()[i].4 == "png"@ ==> standard_pack_spec()[i].2 == standard_pack_spec()[i].3 > 0,
        standard_pack_spec()[i].1.len() > 0,
{
    reveal_strlit("favicon.ico");
    reveal_strlit("favicon-16x16.png");
    reveal_strlit("favicon-32x32.png");
    reveal_strlit("apple-touch-icon.png");
    reveal_strlit("icon-192.png");
    reveal_strlit("icon-512.png");
    reveal_strlit("ico");
    reveal_strlit("png");
    assert("ico"@[0] != "png"@[0]);
}

} // verus!
