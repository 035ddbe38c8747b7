//! DocumentComposer: plans the output document, one fixed-size page per
//! tile of the grid.
//!
//! Every page carries one full-size draw of the source image, translated so
//! that exactly this tile's portion falls inside the page bounds (the page
//! emitter clips the rest). The grid and the centering offset are the very
//! formulas of the preview, so the printed composite reconstructs what was
//! previewed.
//!
//! Output coordinates count half-milli-points: 2000 units per typographic
//! point, 72 points per inch, so one milli-inch is exactly 144 units and
//! the halved centering offset stays an integer.

use crate::grid::MAX_DIMENSION;
use crate::grid::TileGrid;
use crate::grid::compute_tile_grid;
use crate::grid::lemma_ceil_div;
use crate::page::PosterError;
use crate::page::PosterSpec;
use vstd::prelude::*;

verus! {

/// Output units per milli-inch: 72 points per inch, 2000 units per point,
/// 1000 milli-inches per inch.
pub const OUTPUT_UNITS_PER_MILLI_INCH: u64 = 144;

/// One output page: its grid position and the translation, in output
/// units, of the single full-size image draw on it.
#[derive(Debug, Clone, Copy, PartialEq, Eq, Structural)]
pub struct PagePlacement {
    pub col: u64,
    pub row: u64,
    pub offset_x: i64,
    pub offset_y: i64,
}

/// The planned output document: page and image sizes in output units, and
/// one placement per tile, row by row.
pub struct DocumentPlan {
    pub grid: TileGrid,
    pub page_width: u64,
    pub page_height: u64,
    pub image_width: u64,
    pub image_height: u64,
    pub pages: Vec<PagePlacement>,
}

/// The translation, on one axis, of the image draw for the page at grid
/// index `index`: half the excess of the tiled canvas over the desired
/// size, minus this page's position on the canvas.
pub open spec fn spec_offset(index: int, count: int, page: int, desired: int) -> int {
    72 * (count * page - desired) - index * (144 * page)
}

/// The placement of the `k`-th output page of a row-major emission over a
/// `cols x rows` grid.
pub open spec fn spec_placement(
    k: int,
    cols: int,
    rows: int,
    page_w: int,
    page_h: int,
    desired_w: int,
    desired_h: int,
) -> PagePlacement {
    PagePlacement {
        col: (k % cols) as u64,
        row: (k / cols) as u64,
        offset_x: spec_offset(k % cols, cols, page_w, desired_w) as i64,
        offset_y: spec_offset(k / cols, rows, page_h, desired_h) as i64,
    }
}

/// The eight-byte signature that opens every PNG stream.
pub open spec fn spec_is_png(bytes: Seq<u8>) -> bool {
    &&& bytes.len() >= 8
    &&& bytes[0] == 137u8
    &&& bytes[1] == 80u8
    &&& bytes[2] == 78u8
    &&& bytes[3] == 71u8
    &&& bytes[4] == 13u8
    &&& bytes[5] == 10u8
    &&& bytes[6] == 26u8
    &&& bytes[7] == 10u8
}

/// Whether the raw bytes begin with the PNG signature — the one encoded
/// image format the output stage embeds.
pub fn is_png(bytes: &Vec<u8>) -> (r: bool)
    ensures
        r == spec_is_png(bytes@),
{
    bytes.len() >= 8 && bytes[0] == 137 && bytes[1] == 80 && bytes[2] == 78 && bytes[3] == 71
        && bytes[4] == 13 && bytes[5] == 10 && bytes[6] == 26 && bytes[7] == 10
}

/// Plan the output document for a poster specification and the raw encoded
/// image bytes.
///
/// Fails fast: an invalid specification is rejected before any page is
/// planned, bytes that are not a PNG stream are rejected next, and only
/// then is the full plan produced — exactly one page per tile of the grid,
/// in row-major order, each placed by the shared centering formula.
pub fn compose_document(spec: &PosterSpec, image_bytes: &Vec<u8>) -> (r: Result<
    DocumentPlan,
    PosterError,
>)
    ensures
        !spec.valid() ==> r == Err::<DocumentPlan, PosterError>(PosterError::InvalidSpec),
        spec.valid() && !spec_is_png(image_bytes@) ==> r == Err::<DocumentPlan, PosterError>(
            PosterError::Decode,
        ),
        spec.valid() && spec_is_png(image_bytes@) ==> {
            &&& r is Ok
            &&& r->Ok_0.grid == spec.spec_grid()
            &&& r->Ok_0.page_width == 144 * spec.spec_size_of_page().0
            &&& r->Ok_0.page_height == 144 * spec.spec_size_of_page().1
            &&& r->Ok_0.image_width == 144 * spec.desired_width
            &&& r->Ok_0.image_height == 144 * spec.desired_height
            &&& r->Ok_0.pages@.len() == spec.spec_grid().columns * spec.spec_grid().rows
            &&& forall|k: int|
                0 <= k < r->Ok_0.pages@.len() ==> r->Ok_0.pages@[k] == spec_placement(
                    k,
                    spec.spec_grid().columns as int,
                    spec.spec_grid().rows as int,
                    spec.spec_size_of_page().0,
                    spec.spec_size_of_page().1,
                    spec.desired_width as int,
                    spec.desired_height as int,
                )
        },
{
    let dw = spec.desired_width;
    let dh = spec.desired_height;
    if dw < 1 || dw > MAX_DIMENSION || dh < 1 || dh > MAX_DIMENSION {
        return Err(PosterError::InvalidSpec);
    }
    if !is_png(image_bytes) {
        return Err(PosterError::Decode);
    }
    let (pw, ph) = spec.page_size.size();
    let grid = compute_tile_grid(dw, dh, pw, ph);
    let cols = grid.columns;
    let rows = grid.rows;
    proof {
        lemma_ceil_div(dw as int, pw as int);
        lemma_ceil_div(dh as int, ph as int);
        assert(cols * pw < dw + pw && rows * ph < dh + ph && cols * rows <= dw * dh && dw * dh
            <= MAX_DIMENSION * MAX_DIMENSION) by (nonlinear_arith)
            requires
                1 <= cols <= dw <= MAX_DIMENSION,
                1 <= rows <= dh <= MAX_DIMENSION,
                1 <= pw,
                1 <= ph,
                (cols - 1) * pw < dw,
                (rows - 1) * ph < dh,
                cols * pw >= dw,
                rows * ph >= dh,
        ;
    }
    let base_x: u64 = 72 * (cols * pw - dw);
    let base_y: u64 = 72 * (rows * ph - dh);
    let total: u64 = cols * rows;
    let mut pages: Vec<PagePlacement> = Vec::new();
    let mut k: u64 = 0;
    while k < total
        invariant
            1 <= cols <= dw <= MAX_DIMENSION,
            1 <= rows <= dh <= MAX_DIMENSION,
            1 <= pw <= MAX_DIMENSION,
            1 <= ph <= MAX_DIMENSION,
            cols * pw >= dw,
            rows * ph >= dh,
            cols * pw < dw + pw,
            rows * ph < dh + ph,
            base_x == 72 * (cols * pw - dw),
            base_y == 72 * (rows * ph - dh),
            total == cols * rows,
            k <= total,
            pages@.len() == k,
            forall|j: int|
                0 <= j < k ==> pages@[j] == spec_placement(
                    j,
                    cols as int,
                    rows as int,
                    pw as int,
                    ph as int,
                    dw as int,
                    dh as int,
                ),
        decreases total - k,
    {
        let col = k % cols;
        let row = k / cols;
        proof {
            assert(row < rows && col < cols && col * (144 * pw) <= MAX_DIMENSION * (144
                * MAX_DIMENSION) && row * (144 * ph) <= MAX_DIMENSION * (144 * MAX_DIMENSION))
                by (nonlinear_arith)
                requires
                    1 <= cols <= MAX_DIMENSION,
                    1 <= rows <= MAX_DIMENSION,
                    1 <= pw <= MAX_DIMENSION,
                    1 <= ph <= MAX_DIMENSION,
                    k < cols * rows,
                    col == k % cols,
                    row == k / cols,
            ;
        }
        let off_x: i64 = base_x as i64 - (col * (144 * pw)) as i64;
        let off_y: i64 = base_y as i64 - (row * (144 * ph)) as i64;
        pages.push(PagePlacement { col, row, offset_x: off_x, offset_y: off_y });
        k = k + 1;
    }
    Ok(
        DocumentPlan {
            grid,
            page_width: OUTPUT_UNITS_PER_MILLI_INCH * pw,
            page_height: OUTPUT_UNITS_PER_MILLI_INCH * ph,
            image_width: OUTPUT_UNITS_PER_MILLI_INCH * dw,
            image_height: OUTPUT_UNITS_PER_MILLI_INCH * dh,
            pages,
        },
    )
}

/// The output stage and the preview share their geometry exactly: on each
/// axis, the (negated) translation of page `index`, as a fraction of the
/// output image size `144 * desired`, is the very rational the preview's
/// unclamped UV coordinate of grid line `index` names over `2 * desired`.
pub proof fn lemma_preview_output_agree(index: int, count: int, page: int, desired: int)
    ensures
        -spec_offset(index, count, page, desired) * (2 * desired) == (2 * page * index - (count
            * page - desired)) * (144 * desired),
{
    assert(-(72 * (count * page - desired) - index * (144 * page)) * (2 * desired) == (2 * page
        * index - (count * page - desired)) * (144 * desired)) by (nonlinear_arith);
}

} // verus!
