//! Integer rules of the color palette: the accepted palette sizes, the
//! cluster count, the bounded analysis and preview sizes, the shortfall
//! notice, and the exported palette sheet (layout and SVG text).

use vstd::prelude::*;

use crate::errors::{ErrorKind, ProcessingError};
use crate::models::RgbColorDto;
use crate::text::{dec, push_dec, push_str, string_of};

verus! {

pub const MIN_TARGET: u32 = 3;
pub const MAX_TARGET: u32 = 12;

/// Largest side of the analysis raster used for clustering.
pub const MAX_ANALYSIS_SIDE: u32 = 256;

/// Largest long edge of the preview returned to the editor.
pub const MAX_PREVIEW_LONG_EDGE: u32 = 1024;

pub const CLUSTER_MULTIPLIER: usize = 3;
pub const MAX_CLUSTERS: usize = 36;

pub const SHEET_COLUMNS: u32 = 3;
pub const SHEET_CELL_W: u32 = 220;
pub const SHEET_COLOR_H: u32 = 150;
pub const SHEET_TEXT_H: u32 = 62;
pub const SHEET_PAD: u32 = 20;
pub const SHEET_GAP: u32 = 16;

/// JPEG quality of a rasterized sheet (its small text softens quickly).
pub const SHEET_JPEG_QUALITY: u8 = 90;

pub open spec fn target_range_message() -> Seq<char> {
    "Palette size must be between 3 and 12"@
}

/// The requested palette size must lie in `3..=12`.
pub fn check_target(target_count: u32) -> (r: Result<(), ProcessingError>)
    ensures
        MIN_TARGET <= target_count <= MAX_TARGET ==> r is Ok,
        !(MIN_TARGET <= target_count <= MAX_TARGET) ==> (r matches Err(e)
            && e.is(ErrorKind::InvalidImage, target_range_message())),
{
    if target_count < MIN_TARGET || target_count > MAX_TARGET {
        return Err(ProcessingError::invalid_image("Palette size must be between 3 and 12"));
    }
    Ok(())
}

/// Three clusters per requested color, at most 36, at most one per visible
/// pixel, at least one.
pub open spec fn cluster_count_spec(target: int, visible: int) -> int {
    let a = if target * 3 < 36 { target * 3 } else { 36 };
    let b = if a < visible { a } else { visible };
    if b < 1 { 1 } else { b }
}

pub fn cluster_count(target: usize, visible: usize) -> (k: usize)
    requires
        target <= MAX_TARGET,
    ensures
        k == cluster_count_spec(target as int, visible as int),
        1 <= k <= MAX_CLUSTERS,
{
    let a = if target * CLUSTER_MULTIPLIER < MAX_CLUSTERS { target * CLUSTER_MULTIPLIER } else { MAX_CLUSTERS };
    let b = if a < visible { a } else { visible };
    if b < 1 { 1 } else { b }
}

/// One side scaled so that the long side `long` fits `max_side`, rounded
/// half up, never upscaled and never below one pixel.
pub open spec fn fit_axis_spec(v: u32, long: u32, max_side: u32) -> int {
    let exact = if long <= max_side { v as int } else { (2 * (v * max_side) + long) / (2 * long as int) };
    if exact < 1 { 1 } else { exact }
}

pub open spec fn fit_max_side_spec(width: u32, height: u32, max_side: u32) -> (u32, u32) {
    let long = if width >= height { width } else { height };
    (fit_axis_spec(width, long, max_side) as u32, fit_axis_spec(height, long, max_side) as u32)
}

proof fn lemma_fit_quotient(v: int, long: int, max_side: int)
    requires
        0 <= v <= long,
        0 <= max_side < long,
    ensures
        (2 * (v * max_side) + long) / (2 * long) <= max_side,
        (2 * (v * max_side) + long) / (2 * long) <= v,
{
    assert(2 * (v * max_side) + long < 2 * long * (max_side + 1)) by (nonlinear_arith)
        requires 0 <= v <= long, 0 <= max_side < long;
    assert(2 * (v * max_side) + long < 2 * long * (v + 1)) by (nonlinear_arith)
        requires 0 <= v <= long, 0 <= max_side < long;
    assert((2 * (v * max_side) + long) / (2 * long) <= max_side) by (nonlinear_arith)
        requires 2 * (v * max_side) + long < 2 * long * (max_side + 1), long > 0, v >= 0, max_side >= 0;
    assert((2 * (v * max_side) + long) / (2 * long) <= v) by (nonlinear_arith)
        requires 2 * (v * max_side) + long < 2 * long * (v + 1), long > 0, v >= 0, max_side >= 0;
}

fn fit_axis(v: u32, long: u32, max_side: u32) -> (r: u32)
    requires
        v <= long,
    ensures
        r == fit_axis_spec(v, long, max_side),
{
    if long <= max_side {
        return if v < 1 { 1 } else { v };
    }
    let v128: u128 = v as u128;
    let m128: u128 = max_side as u128;
    assert(v128 * m128 <= 0xffff_ffff_ffff_ffffu128) by (nonlinear_arith)
        requires v128 <= 0xffff_ffffu128, m128 <= 0xffff_ffffu128;
    let num: u128 = 2 * (v128 * m128) + long as u128;
    let den: u128 = 2 * long as u128;
    let q: u128 = num / den;
    proof {
        lemma_fit_quotient(v as int, long as int, max_side as int);
        assert(num == 2 * (v * max_side) + long);
    }
    if q < 1 { 1 } else { q as u32 }
}

/// Scales `(width, height)` to fit `max_side` per side, preserving the
/// aspect ratio and never upscaling.
pub fn fit_max_side(width: u32, height: u32, max_side: u32) -> (r: (u32, u32))
    ensures
        r == fit_max_side_spec(width, height, max_side),
{
    let long = if width >= height { width } else { height };
    (fit_axis(width, long, max_side), fit_axis(height, long, max_side))
}

pub open spec fn notice_message(found: nat) -> Seq<char> {
    "Found "@ + dec(found) + " distinguishable colors."@
}

/// The non-fatal notice when fewer colors than requested were found.
pub fn palette_notice(found: usize, target: usize) -> (n: Option<String>)
    ensures
        found < target ==> (n matches Some(s) && s@ == notice_message(found as nat)),
        found >= target ==> n is None,
{
    if found < target {
        let mut m: Vec<char> = Vec::new();
        push_str(&mut m, "Found ");
        push_dec(&mut m, found as u64);
        push_str(&mut m, " distinguishable colors.");
        Some(string_of(&m))
    } else {
        None
    }
}

// ---------------------------------------------------------------------------
// Colors as text
// ---------------------------------------------------------------------------

pub open spec fn hex_digit(d: int) -> char {
    if d < 10 { ((d + 48) as u8) as char } else { ((d + 55) as u8) as char }
}

/// A byte as two uppercase hexadecimal digits.
pub open spec fn hex2(b: u8) -> Seq<char> {
    seq![hex_digit(b as int / 16), hex_digit(b as int % 16)]
}

/// `#RRGGBB` in uppercase.
pub open spec fn hex_spec(c: RgbColorDto) -> Seq<char> {
    seq!['#'] + hex2(c.r) + hex2(c.g) + hex2(c.b)
}

fn hex_char(d: u8) -> (c: char)
    requires
        d < 16,
    ensures
        c == hex_digit(d as int),
{
    if d < 10 { (d + 48) as char } else { (d + 55) as char }
}

fn push_hex2(out: &mut Vec<char>, b: u8)
    ensures
        final(out)@ == old(out)@ + hex2(b),
{
    out.push(hex_char(b / 16));
    out.push(hex_char(b % 16));
    assert(final(out)@ =~= old(out)@ + hex2(b));
}

fn push_hex(out: &mut Vec<char>, c: &RgbColorDto)
    ensures
        final(out)@ == old(out)@ + hex_spec(*c),
{
    out.push('#');
    push_hex2(out, c.r);
    push_hex2(out, c.g);
    push_hex2(out, c.b);
    assert(final(out)@ =~= old(out)@ + hex_spec(*c));
}

/// The color as `#RRGGBB`, uppercase.
pub fn hex_upper(color: &RgbColorDto) -> (s: String)
    ensures
        s@ == hex_spec(*color),
{
    let mut m: Vec<char> = Vec::new();
    push_hex(&mut m, color);
    assert(m@ =~= hex_spec(*color));
    string_of(&m)
}

// ---------------------------------------------------------------------------
// The palette sheet
// ---------------------------------------------------------------------------

pub open spec fn columns_spec(n: nat) -> nat {
    if n < 3 { n } else { 3 }
}

pub open spec fn rows_spec(n: nat) -> nat {
    let c = columns_spec(n);
    if c == 0 { 0 } else { ((n + c - 1) / c as int) as nat }
}

/// The sheet's size for `n` colors (`1..=12`): a grid of at most three
/// columns of 220 × 212 cells, 16 px apart, inside a 20 px margin.
pub open spec fn sheet_size_spec(n: nat) -> (int, int) {
    let c = columns_spec(n);
    let r = rows_spec(n);
    (40 + c * 220 + (c - 1) * 16, 40 + r * 212 + (r - 1) * 16)
}

/// The cell origin of the `i`-th color on a sheet with `columns` columns.
pub open spec fn cell_origin(i: nat, columns: nat) -> (int, int) {
    (20 + (i % columns) as int * 236, 20 + (i / columns) as int * 228)
}

pub open spec fn block_spec(c: RgbColorDto, x: int, y: int) -> Seq<char> {
    "<rect x=\""@ + dec(x as nat) + "\" y=\""@ + dec(y as nat)
        + "\" width=\"220\" height=\"150\" rx=\"8\" fill=\""@ + hex_spec(c) + "\"/>"@
}

pub open spec fn hex_line_spec(c: RgbColorDto, x: int, y: int) -> Seq<char> {
    "<text x=\""@ + dec(x as nat) + "\" y=\""@ + dec((y + 176) as nat)
        + "\" font-family=\"Arial, sans-serif\" font-size=\"24\" font-weight=\"700\" fill=\"#21201c\">"@
        + hex_spec(c) + "</text>"@
}

pub open spec fn rgb_line_spec(c: RgbColorDto, x: int, y: int) -> Seq<char> {
    "<text x=\""@ + dec(x as nat) + "\" y=\""@ + dec((y + 200) as nat)
        + "\" font-family=\"Arial, sans-serif\" font-size=\"15\" fill=\"#6c6a63\">RGB("@
        + dec(c.r as nat) + ", "@ + dec(c.g as nat) + ", "@ + dec(c.b as nat) + ")</text>"@
}

/// One color's cell: its block, its HEX line and its RGB line.
pub open spec fn cell_spec(c: RgbColorDto, x: int, y: int) -> Seq<char> {
    block_spec(c, x, y) + hex_line_spec(c, x, y) + rgb_line_spec(c, x, y)
}

/// The cells of the first `colors.len()` colors, in order.
pub open spec fn cells_spec(colors: Seq<RgbColorDto>, columns: nat) -> Seq<char>
    decreases colors.len(),
{
    if colors.len() == 0 {
        Seq::empty()
    } else {
        let i = (colors.len() - 1) as nat;
        let (x, y) = cell_origin(i, columns);
        cells_spec(colors.drop_last(), columns) + cell_spec(colors.last(), x, y)
    }
}

/// The SVG of the sheet: a white background, then per color its block,
/// its uppercase HEX and its `RGB(r, g, b)` line.
pub open spec fn sheet_svg_spec(colors: Seq<RgbColorDto>, width: u32, height: u32) -> Seq<char> {
    "<svg xmlns=\"http://www.w3.org/2000/svg\" width=\""@ + dec(width as nat) + "\" height=\""@
        + dec(height as nat) + "\" viewBox=\"0 0 "@ + dec(width as nat) + " "@ + dec(height as nat) + "\">"@
        + "<rect width=\""@ + dec(width as nat) + "\" height=\""@ + dec(height as nat)
        + "\" fill=\"#ffffff\"/>"@ + cells_spec(colors, columns_spec(colors.len())) + "</svg>"@
}

fn push_block(out: &mut Vec<char>, c: &RgbColorDto, x: u32, y: u32)
    ensures
        final(out)@ == old(out)@ + block_spec(*c, x as int, y as int),
{
    push_str(out, "<rect x=\"");
    push_dec(out, x as u64);
    push_str(out, "\" y=\"");
    push_dec(out, y as u64);
    push_str(out, "\" width=\"220\" height=\"150\" rx=\"8\" fill=\"");
    push_hex(out, c);
    push_str(out, "\"/>");
    assert(final(out)@ =~= old(out)@ + block_spec(*c, x as int, y as int));
}

fn push_hex_line(out: &mut Vec<char>, c: &RgbColorDto, x: u32, y: u32)
    requires
        y + 176 <= u32::MAX,
    ensures
        final(out)@ == old(out)@ + hex_line_spec(*c, x as int, y as int),
{
    push_str(out, "<text x=\"");
    push_dec(out, x as u64);
    push_str(out, "\" y=\"");
    push_dec(out, (y + 176) as u64);
    push_str(out, "\" font-family=\"Arial, sans-serif\" font-size=\"24\" font-weight=\"700\" fill=\"#21201c\">");
    push_hex(out, c);
    push_str(out, "</text>");
    assert(final(out)@ =~= old(out)@ + hex_line_spec(*c, x as int, y as int));
}

fn push_rgb_line(out: &mut Vec<char>, c: &RgbColorDto, x: u32, y: u32)
    requires
        y + 200 <= u32::MAX,
    ensures
        final(out)@ == old(out)@ + rgb_line_spec(*c, x as int, y as int),
{
    push_str(out, "<text x=\"");
    push_dec(out, x as u64);
    push_str(out, "\" y=\"");
    push_dec(out, (y + 200) as u64);
    push_str(out, "\" font-family=\"Arial, sans-serif\" font-size=\"15\" fill=\"#6c6a63\">RGB(");
    push_dec(out, c.r as u64);
    push_str(out, ", ");
    push_dec(out, c.g as u64);
    push_str(out, ", ");
    push_dec(out, c.b as u64);
    push_str(out, ")</text>");
    assert(final(out)@ =~= old(out)@ + rgb_line_spec(*c, x as int, y as int));
}

fn push_cell(out: &mut Vec<char>, c: &RgbColorDto, x: u32, y: u32)
    requires
        y + 200 <= u32::MAX,
    ensures
        final(out)@ == old(out)@ + cell_spec(*c, x as int, y as int),
{
    push_block(out, c, x, y);
    push_hex_line(out, c, x, y);
    push_rgb_line(out, c, x, y);
    assert(final(out)@ =~= old(out)@ + cell_spec(*c, x as int, y as int));
}

fn push_cell_at(out: &mut Vec<char>, colors: &Vec<RgbColorDto>, i: usize, columns: usize)
    requires
        i < colors.len() <= MAX_TARGET,
        1 <= columns <= 3,
    ensures
        final(out)@ == old(out)@ + cell_spec(colors@[i as int], cell_origin(i as nat, columns as nat).0,
            cell_origin(i as nat, columns as nat).1),
{
    let col = i % columns;
    let row = i / columns;
    assert(col < 3 && row < 12) by (nonlinear_arith)
        requires col == i % columns, row == i / columns, 1 <= columns <= 3, i < 12;
    let x: u32 = 20 + (col as u32) * 236;
    let y: u32 = 20 + (row as u32) * 228;
    push_cell(out, &colors[i], x, y);
}

fn build_sheet_svg(colors: &Vec<RgbColorDto>, width: u32, height: u32) -> (s: String)
    requires
        colors.len() <= MAX_TARGET,
    ensures
        s@ == sheet_svg_spec(colors@, width, height),
{
    let n = colors.len();
    let columns: usize = if n < 3 { n } else { 3 };
    let mut m: Vec<char> = Vec::new();
    push_str(&mut m, "<svg xmlns=\"http://www.w3.org/2000/svg\" width=\"");
    push_dec(&mut m, width as u64);
    push_str(&mut m, "\" height=\"");
    push_dec(&mut m, height as u64);
    push_str(&mut m, "\" viewBox=\"0 0 ");
    push_dec(&mut m, width as u64);
    push_str(&mut m, " ");
    push_dec(&mut m, height as u64);
    push_str(&mut m, "\">");
    push_str(&mut m, "<rect width=\"");
    push_dec(&mut m, width as u64);
    push_str(&mut m, "\" height=\"");
    push_dec(&mut m, height as u64);
    push_str(&mut m, "\" fill=\"#ffffff\"/>");
    let ghost head = m@;
    let mut i: usize = 0;
    while i < n
        invariant
            n == colors.len() <= MAX_TARGET,
            columns == columns_spec(n as nat),
            0 < columns || n == 0,
            i <= n,
            m@ == head + cells_spec(colors@.take(i as int), columns as nat),
        decreases n - i,
    {
        let ghost before = m@;
        push_cell_at(&mut m, colors, i, columns);
        proof {
            let t = colors@.take(i + 1);
            assert(t.drop_last() =~= colors@.take(i as int));
            assert(t.last() == colors@[i as int]);
            assert(m@ =~= head + cells_spec(t, columns as nat));
        }
        i = i + 1;
    }
    assert(colors@.take(n as int) =~= colors@);
    push_str(&mut m, "</svg>");
    assert(m@ =~= sheet_svg_spec(colors@, width, height));
    string_of(&m)
}

proof fn lemma_single_row()
    ensures
        rows_spec(1) == 1,
        rows_spec(2) == 1,
        rows_spec(3) == 1,
{
    assert(columns_spec(1) == 1);
    assert(columns_spec(2) == 2);
    assert(columns_spec(3) == 3);
}

/// A laid-out palette sheet: its SVG text and its size in pixels.
#[derive(Debug, Clone)]
pub struct SheetPlan {
    pub svg: String,
    pub width: u32,
    pub height: u32,
}

pub open spec fn color_count_message() -> Seq<char> {
    "Palette must contain between 1 and 12 colors"@
}

/// Lays out the palette sheet of 1 to 12 colors (more or fewer is refused).
pub fn export_sheet(colors: &Vec<RgbColorDto>) -> (r: Result<SheetPlan, ProcessingError>)
    ensures
        (colors.len() == 0 || colors.len() > MAX_TARGET) ==> (r matches Err(e)
            && e.is(ErrorKind::InvalidImage, color_count_message())),
        1 <= colors.len() <= MAX_TARGET ==> (r matches Ok(plan)
            && (plan.width as int, plan.height as int) == sheet_size_spec(colors.len() as nat)
            && plan.svg@ == sheet_svg_spec(colors@, plan.width, plan.height)),
{
    let n = colors.len();
    if n == 0 || n > 12 {
        return Err(ProcessingError::invalid_image("Palette must contain between 1 and 12 colors"));
    }
    let count = n as u32;
    let columns: u32 = if count < SHEET_COLUMNS { count } else { SHEET_COLUMNS };
    let rows: u32 = if columns == SHEET_COLUMNS { (count + 2) / 3 } else { 1 };
    assert(rows as int == rows_spec(n as nat)) by {
        lemma_single_row();
    }
    assert(1 <= rows <= 4);
    let width: u32 = SHEET_PAD * 2 + columns * SHEET_CELL_W + (columns - 1) * SHEET_GAP;
    let cell_h: u32 = SHEET_COLOR_H + SHEET_TEXT_H;
    assert(cell_h == 212);
    let height: u32 = SHEET_PAD * 2 + rows * cell_h + (rows - 1) * SHEET_GAP;
    let svg = build_sheet_svg(colors, width, height);
    Ok(SheetPlan { svg, width, height })
}

/// The area a cell at `origin` covers: its 220 px wide block and text
/// lines, 212 px tall.
pub open spec fn cell_covers(origin: (int, int), x: int, y: int) -> bool {
    origin.0 <= x < origin.0 + 220 && origin.1 <= y < origin.1 + 212
}

proof fn lemma_cell_layout(n: nat, i: nat, c: nat)
    requires
        1 <= n <= 12,
        i < n,
        c == columns_spec(n),
    ensures
        c >= 1,
        i % c < c,
        i / c < rows_spec(n),
        i == c * (i / c) + i % c,
{
    lemma_single_row();
    if n < 3 {
        assert(c == n);
        if n == 1 {
            assert(i == 0);
        } else {
            assert(i % 2 == i && i / 2 == 0);
        }
    } else {
        assert(c == 3);
        assert(rows_spec(n) == (n + 2) / 3);
        assert(i == 3 * (i / 3) + i % 3);
        assert(i / 3 < (n + 2) / 3);
    }
}

/// The cells of a sheet are where a reader sees them: every color's cell
/// lies inside the sheet with the margin around it, and the cells of two
/// different colors never share a pixel, so each color is visible.
pub proof fn law_cells_are_separate_and_inside(n: nat, i: nat, j: nat, x: int, y: int)
    requires
        1 <= n <= 12,
        i < n,
        j < n,
        i != j,
    ensures
        cell_origin(i, columns_spec(n)).0 >= 20,
        cell_origin(i, columns_spec(n)).1 >= 20,
        cell_origin(i, columns_spec(n)).0 + 220 + 20 <= sheet_size_spec(n).0,
        cell_origin(i, columns_spec(n)).1 + 212 + 20 <= sheet_size_spec(n).1,
        !(cell_covers(cell_origin(i, columns_spec(n)), x, y) && cell_covers(cell_origin(j, columns_spec(n)), x, y)),
{
    let c = columns_spec(n);
    let r = rows_spec(n);
    lemma_cell_layout(n, i, c);
    lemma_cell_layout(n, j, c);
    let (ci, ri) = (i % c, i / c);
    let (cj, rj) = (j % c, j / c);
    assert(ci as int * 236 <= (c - 1) * 236) by (nonlinear_arith)
        requires ci < c, c >= 1;
    assert(ri as int * 228 <= (r - 1) * 228) by (nonlinear_arith)
        requires ri < r;
    assert(ci != cj || ri != rj);
    if ci != cj {
        if ci < cj {
            assert(ci as int * 236 + 236 <= cj as int * 236) by (nonlinear_arith)
                requires ci < cj;
        } else {
            assert(cj as int * 236 + 236 <= ci as int * 236) by (nonlinear_arith)
                requires cj < ci;
        }
    } else {
        if ri < rj {
            assert(ri as int * 228 + 228 <= rj as int * 228) by (nonlinear_arith)
                requires ri < rj;
        } else {
            assert(rj as int * 228 + 228 <= ri as int * 228) by (nonlinear_arith)
                requires rj < ri;
        }
    }
}

/// A sheet is never wider than three cells, and its height grows by one
/// row for each further three colors.
pub proof fn law_sheet_grid_shape(n: nat)
    requires
        1 <= n <= 12,
    ensures
        sheet_size_spec(n).0 <= 40 + 3 * 220 + 2 * 16,
        n <= 3 ==> sheet_size_spec(n).1 == 40 + 212,
        n > 3 ==> sheet_size_spec(n).1 == sheet_size_spec((n - 3) as nat).1 + 228,
{
    assert(columns_spec(n) <= 3);
    lemma_single_row();
    if n > 3 {
        let m = (n - 3) as nat;
        assert(columns_spec(n) == 3);
        assert(rows_spec(n) == (n + 2) / 3);
        if m >= 3 {
            assert(columns_spec(m) == 3);
            assert(rows_spec(m) == (m + 2) / 3);
            assert((n + 2) / 3 == (m + 2) / 3 + 1);
        } else {
            lemma_single_row();
            assert((n + 2) / 3 == 2);
        }
    }
}

/// The preview and analysis sizes never exceed their bound on the long
/// side, never upscale, and keep the long side at the bound when scaling.
pub proof fn law_fit_bounds(width: u32, height: u32, max_side: u32)
    requires
        max_side >= 1,
    ensures
        fit_max_side_spec(width, height, max_side).0 <= (if width <= max_side { if width < 1 { 1 } else { width } } else { max_side }),
        fit_max_side_spec(width, height, max_side).1 <= (if height <= max_side { if height < 1 { 1 } else { height } } else { max_side }),
        (width > max_side && width >= height) ==> fit_max_side_spec(width, height, max_side).0 == max_side,
        (height > max_side && height >= width) ==> fit_max_side_spec(width, height, max_side).1 == max_side,
{
    let long = if width >= height { width } else { height };
    if long > max_side {
        assert((2 * (width * max_side) + long) / (2 * long as int) <= max_side) by (nonlinear_arith)
            requires width <= long, max_side < long;
        assert((2 * (height * max_side) + long) / (2 * long as int) <= max_side) by (nonlinear_arith)
            requires height <= long, max_side < long;
        assert((2 * (width * max_side) + long) / (2 * long as int) <= width) by (nonlinear_arith)
            requires width <= long, max_side < long;
        assert((2 * (height * max_side) + long) / (2 * long as int) <= height) by (nonlinear_arith)
            requires height <= long, max_side < long;
        assert((2 * (long * max_side) + long) / (2 * long as int) == max_side) by (nonlinear_arith)
            requires long > 0;
    }
}

} // verus!
