//! The UV mapping: which normalized sub-rectangle of the source image each
//! tile of the grid shows.
//!
//! The tiled canvas is `grid * page` (component-wise) and is centered over
//! the desired poster size, so the centering offset `(grid*page - desired)/2`
//! is split evenly on both sides. The image-space corner of grid line `k` is
//! `page*k - offset`, and dividing by `desired` gives the UV fraction. To
//! keep the halved offset exact, a coordinate is represented over the
//! denominator `2*desired`. Both corners are clamped to `[0, 1]`: edge tiles
//! show only the portion of the image inside the desired poster bounds.

use crate::frac::Frac;
use crate::grid::MAX_DIMENSION;
use crate::grid::TileGrid;
use crate::grid::lemma_ceil_div;
use crate::grid::spec_ceil_div;
use vstd::prelude::*;

verus! {

/// A point of the image in normalized coordinates, each component in [0, 1].
#[derive(Debug, Clone, Copy, PartialEq, Eq, Structural)]
pub struct UvPoint {
    pub x: Frac,
    pub y: Frac,
}

/// The normalized sub-rectangle of the source image that one tile shows.
#[derive(Debug, Clone, Copy, PartialEq, Eq, Structural)]
pub struct UvRect {
    pub min: UvPoint,
    pub max: UvPoint,
}

/// Numerator (over denominator `2*desired`) of the UV coordinate at grid
/// line `k` of an axis with `count` pages of extent `page` covering a
/// desired extent `desired`: `2*page*k - (count*page - desired)`, clamped
/// to `[0, 2*desired]`.
pub open spec fn spec_uv_num(k: int, count: int, page: int, desired: int) -> int {
    let raw = 2 * page * k - (count * page - desired);
    if raw < 0 {
        0
    } else if raw > 2 * desired {
        2 * desired
    } else {
        raw
    }
}

/// The UV coordinate at grid line `k`, as an exact rational.
pub open spec fn spec_uv_coord(k: int, count: int, page: int, desired: int) -> Frac {
    Frac { num: spec_uv_num(k, count, page, desired) as u128, den: (2 * desired) as u128 }
}

/// The UV rectangle of the tile at grid coordinate `(col, row)`: its corners
/// are the coordinates of grid lines `col`/`col+1` and `row`/`row+1`.
pub open spec fn spec_uv_rect(
    col: int,
    row: int,
    cols: int,
    rows: int,
    page_w: int,
    page_h: int,
    desired_w: int,
    desired_h: int,
) -> UvRect {
    UvRect {
        min: UvPoint {
            x: spec_uv_coord(col, cols, page_w, desired_w),
            y: spec_uv_coord(row, rows, page_h, desired_h),
        },
        max: UvPoint {
            x: spec_uv_coord(col + 1, cols, page_w, desired_w),
            y: spec_uv_coord(row + 1, rows, page_h, desired_h),
        },
    }
}

/// The exact UV coordinate at one grid line of one axis.
fn uv_coord(k: u64, count: u64, page: u64, desired: u64) -> (c: Frac)
    requires
        1 <= page <= MAX_DIMENSION,
        1 <= desired <= MAX_DIMENSION,
        count == spec_ceil_div(desired as int, page as int),
        k <= count,
    ensures
        c == spec_uv_coord(k as int, count as int, page as int, desired as int),
{
    proof {
        lemma_ceil_div(desired as int, page as int);
        assert(count * page < desired + page && k * page <= count * page && 2 * page * k <= 2
            * (count * page)) by (nonlinear_arith)
            requires
                page >= 1,
                k <= count,
                count >= 1,
                (count - 1) * page < desired,
        ;
    }
    let offset: u64 = count * page - desired;
    let line: u64 = 2 * page * k;
    let num: u64 = if line < offset {
        0
    } else if line - offset > 2 * desired {
        2 * desired
    } else {
        line - offset
    };
    Frac { num: num as u128, den: (2 * desired) as u128 }
}

/// The UV rectangle of the tile at `(col, row)`: exactly the clamped
/// centered mapping of that tile onto the source image.
pub fn compute_uv(
    col: u64,
    row: u64,
    grid: TileGrid,
    page_width: u64,
    page_height: u64,
    desired_width: u64,
    desired_height: u64,
) -> (rect: UvRect)
    requires
        1 <= page_width <= MAX_DIMENSION,
        1 <= page_height <= MAX_DIMENSION,
        1 <= desired_width <= MAX_DIMENSION,
        1 <= desired_height <= MAX_DIMENSION,
        grid.columns == spec_ceil_div(desired_width as int, page_width as int),
        grid.rows == spec_ceil_div(desired_height as int, page_height as int),
        col < grid.columns,
        row < grid.rows,
    ensures
        rect == spec_uv_rect(
            col as int,
            row as int,
            grid.columns as int,
            grid.rows as int,
            page_width as int,
            page_height as int,
            desired_width as int,
            desired_height as int,
        ),
        rect.min.x.in_unit_interval(),
        rect.min.y.in_unit_interval(),
        rect.max.x.in_unit_interval(),
        rect.max.y.in_unit_interval(),
{
    let rect = UvRect {
        min: UvPoint {
            x: uv_coord(col, grid.columns, page_width, desired_width),
            y: uv_coord(row, grid.rows, page_height, desired_height),
        },
        max: UvPoint {
            x: uv_coord(col + 1, grid.columns, page_width, desired_width),
            y: uv_coord(row + 1, grid.rows, page_height, desired_height),
        },
    };
    proof {
        lemma_uv_rect_in_unit_square(
            col as int,
            row as int,
            grid.columns as int,
            grid.rows as int,
            page_width as int,
            page_height as int,
            desired_width as int,
            desired_height as int,
        );
    }
    rect
}

/// Every UV coordinate is clamped into the unit interval: its numerator
/// lies in `[0, 2*desired]`, the denominator.
pub proof fn lemma_uv_in_unit_interval(k: int, count: int, page: int, desired: int)
    requires
        1 <= desired <= MAX_DIMENSION,
    ensures
        0 <= spec_uv_num(k, count, page, desired) <= 2 * desired,
        spec_uv_coord(k, count, page, desired).in_unit_interval(),
        spec_uv_coord(k, count, page, desired).wf(),
{
}

/// A whole UV rectangle lies within the unit square `[0,1] x [0,1]`, even
/// when the tiled canvas exceeds the desired poster size.
pub proof fn lemma_uv_rect_in_unit_square(
    col: int,
    row: int,
    cols: int,
    rows: int,
    page_w: int,
    page_h: int,
    desired_w: int,
    desired_h: int,
)
    requires
        1 <= desired_w <= MAX_DIMENSION,
        1 <= desired_h <= MAX_DIMENSION,
    ensures
        spec_uv_rect(col, row, cols, rows, page_w, page_h, desired_w, desired_h).min.x.in_unit_interval(),
        spec_uv_rect(col, row, cols, rows, page_w, page_h, desired_w, desired_h).min.y.in_unit_interval(),
        spec_uv_rect(col, row, cols, rows, page_w, page_h, desired_w, desired_h).max.x.in_unit_interval(),
        spec_uv_rect(col, row, cols, rows, page_w, page_h, desired_w, desired_h).max.y.in_unit_interval(),
{
    lemma_uv_in_unit_interval(col, cols, page_w, desired_w);
    lemma_uv_in_unit_interval(col + 1, cols, page_w, desired_w);
    lemma_uv_in_unit_interval(row, rows, page_h, desired_h);
    lemma_uv_in_unit_interval(row + 1, rows, page_h, desired_h);
}

/// Horizontally adjacent tiles share exactly one boundary value: the right
/// edge of tile `(col, row)` is the left edge of tile `(col+1, row)`, as
/// stored rationals — no gap and no overlap.
pub proof fn lemma_uv_seam_horizontal(
    col: int,
    row: int,
    cols: int,
    rows: int,
    page_w: int,
    page_h: int,
    desired_w: int,
    desired_h: int,
)
    ensures
        spec_uv_rect(col, row, cols, rows, page_w, page_h, desired_w, desired_h).max.x
            == spec_uv_rect(col + 1, row, cols, rows, page_w, page_h, desired_w, desired_h).min.x,
{
}

/// Vertically adjacent tiles share exactly one boundary value: the bottom
/// edge of tile `(col, row)` is the top edge of tile `(col, row+1)`.
pub proof fn lemma_uv_seam_vertical(
    col: int,
    row: int,
    cols: int,
    rows: int,
    page_w: int,
    page_h: int,
    desired_w: int,
    desired_h: int,
)
    ensures
        spec_uv_rect(col, row, cols, rows, page_w, page_h, desired_w, desired_h).max.y
            == spec_uv_rect(col, row + 1, cols, rows, page_w, page_h, desired_w, desired_h).min.y,
{
}

/// A poster no larger than one page yields a 1 x 1 grid whose single tile
/// shows the whole image: its UV rectangle is exactly (0,0)-(1,1).
pub proof fn lemma_uv_single_tile_whole_image(page_w: int, page_h: int, desired_w: int, desired_h: int)
    requires
        1 <= desired_w <= page_w,
        1 <= desired_h <= page_h,
    ensures
        spec_ceil_div(desired_w, page_w) == 1,
        spec_ceil_div(desired_h, page_h) == 1,
        spec_uv_rect(0, 0, 1, 1, page_w, page_h, desired_w, desired_h) == (UvRect {
            min: UvPoint {
                x: Frac { num: 0, den: (2 * desired_w) as u128 },
                y: Frac { num: 0, den: (2 * desired_h) as u128 },
            },
            max: UvPoint {
                x: Frac { num: (2 * desired_w) as u128, den: (2 * desired_w) as u128 },
                y: Frac { num: (2 * desired_h) as u128, den: (2 * desired_h) as u128 },
            },
        }),
{
    lemma_ceil_div_one(desired_w, page_w);
    lemma_ceil_div_one(desired_h, page_h);
}

/// A desired extent no larger than one page needs exactly one page.
pub proof fn lemma_ceil_div_one(desired: int, page: int)
    requires
        1 <= desired <= page,
    ensures
        spec_ceil_div(desired, page) == 1,
{
    lemma_ceil_div(desired, page);
    let q = spec_ceil_div(desired, page);
    assert(q == 1) by (nonlinear_arith)
        requires
            1 <= desired <= page,
            q >= 1,
            (q - 1) * page < desired,
    ;
}

} // verus!
