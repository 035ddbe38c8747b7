//! The preview layout: fitting the tile grid into an on-screen rectangle.
//!
//! The grid, with a uniform proportional margin between tiles, must fill
//! the available draw area without overflowing it in either axis while
//! every tile keeps the page's aspect ratio. A candidate page height comes
//! from the draw height, a candidate width from the draw width, and the
//! tighter of the two implied aspect ratios wins: the other dimension is
//! rederived from it by the true page ratio.
//!
//! The margin is a fraction in parts per mille (the preview uses 50, i.e.
//! one twentieth). Display coordinates are exact rationals in the same
//! units as the draw area.

use crate::frac::Frac;
use crate::grid::MAX_DIMENSION;
use crate::grid::TileGrid;
use crate::grid::lemma_ceil_div;
use crate::grid::spec_ceil_div;
use vstd::prelude::*;

verus! {

/// Largest numerator or denominator a display page size can have: a draw
/// extent times 1000 (per-mille scaling) times a page extent, or an axis
/// denominator times a page extent.
pub const MAX_SIZE_PART: u128 = 2_000_000_000_000_000;

/// The on-screen size of one displayed page, exact in draw-area units.
#[derive(Debug, Clone, Copy, PartialEq, Eq, Structural)]
pub struct DisplayLayout {
    pub page_width: Frac,
    pub page_height: Frac,
}

/// The on-screen rectangles of one tile on one axis, all over one common
/// denominator: the printable sheet's extent (`page_min` to `page_max`,
/// drawn full-size and opaque) and the image's visible extent (`image_min`
/// to `image_max`, inset at the grid's outer edges by the centering offset
/// so the blank part of an edge tile shows no image).
#[derive(Debug, Clone, Copy, PartialEq, Eq, Structural)]
pub struct AxisCoords {
    pub page_min: Frac,
    pub page_max: Frac,
    pub image_min: Frac,
    pub image_max: Frac,
}

/// The on-screen rectangles of one tile: page sheet and visible image
/// region, as exact rationals in draw-area units.
#[derive(Debug, Clone, Copy, PartialEq, Eq, Structural)]
pub struct TileDisplayRect {
    pub x: AxisCoords,
    pub y: AxisCoords,
}

/// Denominator of the grid's extent along one axis, in per-mille of a page:
/// `count` pages plus a margin between each adjacent pair.
pub open spec fn spec_axis_denom(count: int, margin_pm: int) -> int {
    count * (1000 + margin_pm) - margin_pm
}

/// The page height candidate derived from the draw height alone.
pub open spec fn spec_height_candidate(draw_h: int, rows: int, margin_pm: int) -> Frac {
    Frac {
        num: (draw_h * 1000) as u128,
        den: spec_axis_denom(rows, margin_pm) as u128,
    }
}

/// The page width candidate derived from the draw width alone.
pub open spec fn spec_width_candidate(draw_w: int, cols: int, margin_pm: int) -> Frac {
    Frac {
        num: (draw_w * 1000) as u128,
        den: spec_axis_denom(cols, margin_pm) as u128,
    }
}

/// Whether the width implied by the height candidate fits within the width
/// candidate — if so, the height candidate is authoritative.
pub open spec fn spec_height_is_authoritative(
    draw_w: int,
    draw_h: int,
    cols: int,
    rows: int,
    page_w: int,
    page_h: int,
    margin_pm: int,
) -> bool {
    (draw_w * 1000) * (spec_axis_denom(rows, margin_pm) * page_h) >= (draw_h * 1000 * page_w)
        * spec_axis_denom(cols, margin_pm)
}

/// The displayed page size: the authoritative candidate, with the other
/// dimension rederived from it by the true page aspect ratio.
pub open spec fn spec_display_layout(
    draw_w: int,
    draw_h: int,
    cols: int,
    rows: int,
    page_w: int,
    page_h: int,
    margin_pm: int,
) -> DisplayLayout {
    let dv = spec_axis_denom(rows, margin_pm);
    let dh = spec_axis_denom(cols, margin_pm);
    if spec_height_is_authoritative(draw_w, draw_h, cols, rows, page_w, page_h, margin_pm) {
        DisplayLayout {
            page_width: Frac { num: (draw_h * 1000 * page_w) as u128, den: (dv * page_h) as u128 },
            page_height: Frac { num: (draw_h * 1000) as u128, den: dv as u128 },
        }
    } else {
        DisplayLayout {
            page_width: Frac { num: (draw_w * 1000) as u128, den: dh as u128 },
            page_height: Frac { num: (draw_w * 1000 * page_h) as u128, den: (dh * page_w) as u128 },
        }
    }
}

/// Fit the tile grid into the draw area: the largest page display size
/// that keeps the page aspect ratio and overflows the draw area in
/// neither axis.
pub fn compute_display_layout(
    draw_width: u64,
    draw_height: u64,
    grid: TileGrid,
    page_width: u64,
    page_height: u64,
    margin_pm: u64,
) -> (layout: DisplayLayout)
    requires
        1 <= draw_width <= MAX_DIMENSION,
        1 <= draw_height <= MAX_DIMENSION,
        1 <= grid.columns <= MAX_DIMENSION,
        1 <= grid.rows <= MAX_DIMENSION,
        1 <= page_width <= MAX_DIMENSION,
        1 <= page_height <= MAX_DIMENSION,
        margin_pm <= 1000,
    ensures
        layout == spec_display_layout(
            draw_width as int,
            draw_height as int,
            grid.columns as int,
            grid.rows as int,
            page_width as int,
            page_height as int,
            margin_pm as int,
        ),
        layout.page_width.wf(),
        layout.page_height.wf(),
        layout.page_width.num <= MAX_SIZE_PART,
        layout.page_height.num <= MAX_SIZE_PART,
        layout.page_width.den <= MAX_SIZE_PART,
        layout.page_height.den <= MAX_SIZE_PART,
{
    proof {
        assert(grid.rows * (1000 + margin_pm) <= MAX_DIMENSION * 2000 && grid.rows * (1000
            + margin_pm) >= 1000 + margin_pm && grid.columns * (1000 + margin_pm) <= MAX_DIMENSION
            * 2000 && grid.columns * (1000 + margin_pm) >= 1000 + margin_pm) by (nonlinear_arith)
            requires
                1 <= grid.columns <= MAX_DIMENSION,
                1 <= grid.rows <= MAX_DIMENSION,
                margin_pm <= 1000,
        ;
    }
    let dv: u64 = grid.rows * (1000 + margin_pm) - margin_pm;
    let dh: u64 = grid.columns * (1000 + margin_pm) - margin_pm;
    proof {
        assert((draw_height as int * 1000) * (page_width as int) <= MAX_SIZE_PART && (draw_width
            as int * 1000) * (page_height as int) <= MAX_SIZE_PART && (dv as int) * (page_height
            as int) <= MAX_SIZE_PART && (dh as int) * (page_width as int) <= MAX_SIZE_PART
            && (draw_width as int * 1000) * ((dv as int) * (page_height as int)) < u128::MAX
            && ((draw_height as int * 1000) * (page_width as int)) * (dh as int) < u128::MAX
            && (dv as int) * (page_height as int) >= 1 && (dh as int) * (page_width as int) >= 1)
            by (nonlinear_arith)
            requires
                1 <= draw_width <= MAX_DIMENSION,
                1 <= draw_height <= MAX_DIMENSION,
                1 <= page_width <= MAX_DIMENSION,
                1 <= page_height <= MAX_DIMENSION,
                1 <= dv <= MAX_DIMENSION * 2000,
                1 <= dh <= MAX_DIMENSION * 2000,
        ;
    }
    let cand_h_num: u128 = (draw_height as u128) * 1000;
    let cand_w_num: u128 = (draw_width as u128) * 1000;
    let lhs: u128 = cand_w_num * ((dv as u128) * (page_height as u128));
    let rhs: u128 = (cand_h_num * (page_width as u128)) * (dh as u128);
    if lhs >= rhs {
        DisplayLayout {
            page_width: Frac {
                num: cand_h_num * (page_width as u128),
                den: (dv as u128) * (page_height as u128),
            },
            page_height: Frac { num: cand_h_num, den: dv as u128 },
        }
    } else {
        DisplayLayout {
            page_width: Frac { num: cand_w_num, den: dh as u128 },
            page_height: Frac {
                num: cand_w_num * (page_height as u128),
                den: (dh as u128) * (page_width as u128),
            },
        }
    }
}

/// What the tighter-fit choice guarantees: the displayed page keeps the
/// page's aspect ratio exactly, and neither the grid's total width nor its
/// total height overflows the draw area — the displayed size is, on each
/// axis, at most that axis's candidate, which is precisely the statement
/// `(count*(1+margin) - margin) * size <= draw_extent`.
pub proof fn lemma_display_layout_fits(
    draw_w: int,
    draw_h: int,
    cols: int,
    rows: int,
    page_w: int,
    page_h: int,
    margin_pm: int,
)
    requires
        1 <= draw_w <= MAX_DIMENSION,
        1 <= draw_h <= MAX_DIMENSION,
        1 <= cols <= MAX_DIMENSION,
        1 <= rows <= MAX_DIMENSION,
        1 <= page_w <= MAX_DIMENSION,
        1 <= page_h <= MAX_DIMENSION,
        0 <= margin_pm <= 1000,
    ensures
        ({
            let l = spec_display_layout(draw_w, draw_h, cols, rows, page_w, page_h, margin_pm);
            &&& l.page_width.num as int * (l.page_height.den as int * page_h)
                == l.page_height.num as int * (l.page_width.den as int * page_w)
            &&& l.page_height.spec_le(spec_height_candidate(draw_h, rows, margin_pm))
            &&& l.page_width.spec_le(spec_width_candidate(draw_w, cols, margin_pm))
        }),
{
    let l = spec_display_layout(draw_w, draw_h, cols, rows, page_w, page_h, margin_pm);
    let dv = spec_axis_denom(rows, margin_pm);
    let dh = spec_axis_denom(cols, margin_pm);
    assert(1000 <= dv <= MAX_DIMENSION * 2000 && 1000 <= dh <= MAX_DIMENSION * 2000)
        by (nonlinear_arith)
        requires
            1 <= cols <= MAX_DIMENSION,
            1 <= rows <= MAX_DIMENSION,
            0 <= margin_pm <= 1000,
            dv == spec_axis_denom(rows, margin_pm),
            dh == spec_axis_denom(cols, margin_pm),
    ;
    assert(0 <= draw_h * 1000 * page_w <= MAX_SIZE_PART && 0 <= draw_w * 1000 * page_h
        <= MAX_SIZE_PART && 0 <= dv * page_h <= MAX_SIZE_PART && 0 <= dh * page_w <= MAX_SIZE_PART)
        by (nonlinear_arith)
        requires
            1 <= draw_w <= MAX_DIMENSION,
            1 <= draw_h <= MAX_DIMENSION,
            1 <= page_w <= MAX_DIMENSION,
            1 <= page_h <= MAX_DIMENSION,
            1000 <= dv <= MAX_DIMENSION * 2000,
            1000 <= dh <= MAX_DIMENSION * 2000,
    ;
    if spec_height_is_authoritative(draw_w, draw_h, cols, rows, page_w, page_h, margin_pm) {
        assert(l.page_width.num as int == draw_h * 1000 * page_w);
        assert(l.page_width.den as int == dv * page_h);
        assert(l.page_height.num as int == draw_h * 1000);
        assert(l.page_height.den as int == dv);
        assert((draw_h * 1000 * page_w) * (dv * page_h) == (draw_h * 1000) * ((dv * page_h)
            * page_w)) by (nonlinear_arith);
        assert((draw_h * 1000 * page_w) * dh <= (draw_w * 1000) * (dv * page_h));
    } else {
        assert(l.page_width.num as int == draw_w * 1000);
        assert(l.page_width.den as int == dh);
        assert(l.page_height.num as int == draw_w * 1000 * page_h);
        assert(l.page_height.den as int == dh * page_w);
        assert((draw_w * 1000) * ((dh * page_w) * page_h) == (draw_w * 1000 * page_h) * (dh
            * page_w)) by (nonlinear_arith);
        assert((draw_w * 1000 * page_h) * dv <= (draw_h * 1000) * (dh * page_w))
            by (nonlinear_arith)
            requires
                (draw_w * 1000) * (dv * page_h) < (draw_h * 1000 * page_w) * dh,
                page_h >= 1,
                page_w >= 1,
                dv >= 1,
                dh >= 1,
                draw_w >= 1,
                draw_h >= 1,
        ;
    }
}

/// One axis of one tile's on-screen geometry, over the common denominator
/// `size.den * 2000 * page` (2000 covers both the per-mille margin scaling
/// and the halved centering offset). The tile's origin is
/// `index * size * (1 + margin)`; the first and last tile of the axis inset
/// the image region by the centering offset `(count*page - desired) / (2*page)`
/// scaled into display units, so the blank edge strip shows no image.
pub open spec fn spec_axis_coords(
    index: int,
    count: int,
    page: int,
    desired: int,
    margin_pm: int,
    size: Frac,
) -> AxisCoords {
    let n = size.num as int;
    let d = size.den as int;
    let den = d * (2000 * page);
    let pmin = ((index * n) * (1000 + margin_pm)) * (2 * page);
    let pmax = pmin + (n * 1000) * (2 * page);
    let inset = ((count * page - desired) * n) * 1000;
    let imin = if index == 0 {
        pmin + inset
    } else {
        pmin
    };
    let imax = if index == count - 1 {
        pmax - inset
    } else {
        pmax
    };
    AxisCoords {
        page_min: Frac { num: pmin as u128, den: den as u128 },
        page_max: Frac { num: pmax as u128, den: den as u128 },
        image_min: Frac { num: imin as u128, den: den as u128 },
        image_max: Frac { num: imax as u128, den: den as u128 },
    }
}

/// The exact on-screen extents of one tile along one axis.
pub fn tile_axis_coords(
    index: u64,
    count: u64,
    page: u64,
    desired: u64,
    margin_pm: u64,
    size: Frac,
) -> (c: AxisCoords)
    requires
        1 <= page <= MAX_DIMENSION,
        1 <= desired <= MAX_DIMENSION,
        count == spec_ceil_div(desired as int, page as int),
        index < count,
        margin_pm <= 1000,
        size.wf(),
        size.num <= MAX_SIZE_PART,
        size.den <= MAX_SIZE_PART,
    ensures
        c == spec_axis_coords(
            index as int,
            count as int,
            page as int,
            desired as int,
            margin_pm as int,
            size,
        ),
        c.page_min.wf(),
        c.page_max.wf(),
        c.image_min.wf(),
        c.image_max.wf(),
{
    proof {
        lemma_ceil_div(desired as int, page as int);
        let ni = size.num as int;
        let di = size.den as int;
        let idx = index as int;
        let pg = page as int;
        let m = margin_pm as int;
        let cnt = count as int;
        let des = desired as int;
        assert(cnt * pg >= des && cnt * pg < des + pg && cnt * pg <= 1_000_000_000_000 && 0 <= idx
            * ni <= 2_000_000_000_000_000_000_000 && 0 <= (idx * ni) * (1000 + m)
            <= 4_000_000_000_000_000_000_000_000 && 0 <= ((idx * ni) * (1000 + m)) * (2 * pg)
            <= 8_000_000_000_000_000_000_000_000_000_000 && 0 <= ni * 1000
            <= 2_000_000_000_000_000_000 && 0 <= (ni * 1000) * (2 * pg)
            <= 4_000_000_000_000_000_000_000_000 && 1 <= di * (2000 * pg)
            <= 4_000_000_000_000_000_000_000_000 && 0 <= (cnt * pg - des) * ni
            <= 2_000_000_000_000_000_000_000 && 0 <= ((cnt * pg - des) * ni) * 1000 <= (ni * 1000)
            * (2 * pg)) by (nonlinear_arith)
            requires
                1 <= pg <= MAX_DIMENSION,
                1 <= des <= MAX_DIMENSION,
                1 <= cnt <= des,
                0 <= idx < cnt,
                0 <= m <= 1000,
                1 <= di <= MAX_SIZE_PART,
                0 <= ni <= MAX_SIZE_PART,
                cnt * pg >= des,
                (cnt - 1) * pg < des,
        ;
    }
    let n: u128 = size.num;
    let d: u128 = size.den;
    let den: u128 = d * (2000 * (page as u128));
    let pmin: u128 = ((index as u128) * n) * ((1000 + margin_pm) as u128) * (2 * (page as u128));
    let step: u128 = (n * 1000) * (2 * (page as u128));
    let pmax: u128 = pmin + step;
    let inset: u128 = (((count * page - desired) as u128) * n) * 1000;
    let imin: u128 = if index == 0 {
        pmin + inset
    } else {
        pmin
    };
    let imax: u128 = if index == count - 1 {
        pmax - inset
    } else {
        pmax
    };
    AxisCoords {
        page_min: Frac { num: pmin, den },
        page_max: Frac { num: pmax, den },
        image_min: Frac { num: imin, den },
        image_max: Frac { num: imax, den },
    }
}

/// With a page size no larger than its axis candidate — which the fitted
/// layout guarantees on both axes — the far edge of the axis's last tile,
/// the grid's total on-screen extent, does not pass the draw extent.
pub proof fn lemma_grid_stays_inside_draw_area(
    count: int,
    page: int,
    desired: int,
    margin_pm: int,
    size: Frac,
    draw: int,
)
    requires
        1 <= count <= MAX_DIMENSION,
        1 <= page <= MAX_DIMENSION,
        1 <= desired <= MAX_DIMENSION,
        0 <= margin_pm <= 1000,
        1 <= size.den <= MAX_SIZE_PART,
        size.num <= MAX_SIZE_PART,
        1 <= draw <= MAX_DIMENSION,
        size.spec_le(
            Frac {
                num: (draw * 1000) as u128,
                den: spec_axis_denom(count, margin_pm) as u128,
            },
        ),
    ensures
        ({
            let c = spec_axis_coords(count - 1, count, page, desired, margin_pm, size);
            c.page_max.num as int <= draw * (c.page_max.den as int)
        }),
{
    let n = size.num as int;
    let d = size.den as int;
    let a = spec_axis_denom(count, margin_pm);
    assert(1000 <= a <= MAX_DIMENSION * 2000) by (nonlinear_arith)
        requires
            1 <= count <= MAX_DIMENSION,
            0 <= margin_pm <= 1000,
            a == count * (1000 + margin_pm) - margin_pm,
    ;
    let c = spec_axis_coords(count - 1, count, page, desired, margin_pm, size);
    let pmax = (((count - 1) * n) * (1000 + margin_pm)) * (2 * page) + (n * 1000) * (2 * page);
    assert(pmax == (a * n) * (2 * page) && 0 <= pmax
        <= 8_000_000_000_000_000_000_000_000_000_000 && 1 <= d * (2000 * page)
        <= 4_000_000_000_000_000_000_000_000) by (nonlinear_arith)
        requires
            1 <= count <= MAX_DIMENSION,
            1 <= page <= MAX_DIMENSION,
            0 <= margin_pm <= 1000,
            0 <= n <= MAX_SIZE_PART,
            1 <= d <= MAX_SIZE_PART,
            a == count * (1000 + margin_pm) - margin_pm,
            pmax == (((count - 1) * n) * (1000 + margin_pm)) * (2 * page) + (n * 1000) * (2
                * page),
    ;
    assert(c.page_max.num as int == pmax);
    assert(c.page_max.den as int == d * (2000 * page));
    assert((a * n) * (2 * page) <= draw * (d * (2000 * page))) by (nonlinear_arith)
        requires
            n * a <= (draw * 1000) * d,
            page >= 1,
            draw >= 1,
            d >= 1,
            n >= 0,
            a >= 1,
    ;
}

/// The on-screen rectangles of the tile at `(col, row)`: the full printable
/// sheet and, within it, the visible image region.
pub fn tile_display_rect(
    col: u64,
    row: u64,
    grid: TileGrid,
    page_width: u64,
    page_height: u64,
    desired_width: u64,
    desired_height: u64,
    margin_pm: u64,
    layout: DisplayLayout,
) -> (rect: TileDisplayRect)
    requires
        1 <= page_width <= MAX_DIMENSION,
        1 <= page_height <= MAX_DIMENSION,
        1 <= desired_width <= MAX_DIMENSION,
        1 <= desired_height <= MAX_DIMENSION,
        grid.columns == spec_ceil_div(desired_width as int, page_width as int),
        grid.rows == spec_ceil_div(desired_height as int, page_height as int),
        col < grid.columns,
        row < grid.rows,
        margin_pm <= 1000,
        layout.page_width.wf(),
        layout.page_height.wf(),
        layout.page_width.num <= MAX_SIZE_PART,
        layout.page_width.den <= MAX_SIZE_PART,
        layout.page_height.num <= MAX_SIZE_PART,
        layout.page_height.den <= MAX_SIZE_PART,
    ensures
        rect.x == spec_axis_coords(
            col as int,
            grid.columns as int,
            page_width as int,
            desired_width as int,
            margin_pm as int,
            layout.page_width,
        ),
        rect.y == spec_axis_coords(
            row as int,
            grid.rows as int,
            page_height as int,
            desired_height as int,
            margin_pm as int,
            layout.page_height,
        ),
{
    TileDisplayRect {
        x: tile_axis_coords(
            col,
            grid.columns,
            page_width,
            desired_width,
            margin_pm,
            layout.page_width,
        ),
        y: tile_axis_coords(
            row,
            grid.rows,
            page_height,
            desired_height,
            margin_pm,
            layout.page_height,
        ),
    }
}

} // verus!
