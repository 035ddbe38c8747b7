//! The tile grid: how many printable pages the desired poster size needs.

use vstd::prelude::*;

verus! {

/// Largest supported length, in milli-inches (one thousand inches).
/// Chosen so that every intermediate product of the geometry fits its
/// integer type.
pub const MAX_DIMENSION: u64 = 1_000_000;

/// The page grid a poster is split into: at least one column and one row.
#[derive(Debug, Clone, Copy, PartialEq, Eq, Structural)]
pub struct TileGrid {
    pub columns: u64,
    pub rows: u64,
}

/// Ceiling of `a / b`: the least count of pages of extent `b` that covers
/// a desired extent `a`.
pub open spec fn spec_ceil_div(a: int, b: int) -> int {
    (a + b - 1) / b
}

/// The defining facts about the ceiling division: it covers `a`, one page
/// fewer does not, an exact multiple yields the exact quotient, and the
/// result never exceeds `a` itself (for `b >= 1`).
pub proof fn lemma_ceil_div(a: int, b: int)
    requires
        a >= 1,
        b >= 1,
    ensures
        spec_ceil_div(a, b) >= 1,
        spec_ceil_div(a, b) * b >= a,
        (spec_ceil_div(a, b) - 1) * b < a,
        spec_ceil_div(a, b) <= a,
        a % b == 0 ==> spec_ceil_div(a, b) * b == a,
        spec_ceil_div(a, b) == (a - 1) / b + 1,
{
    let q = spec_ceil_div(a, b);
    vstd::arithmetic::div_mod::lemma_fundamental_div_mod(a + b - 1, b);
    vstd::arithmetic::div_mod::lemma_mod_bound(a + b - 1, b);
    assert(a + b - 1 == q * b + ((a + b - 1) % b));
    assert(q * b >= a) by (nonlinear_arith)
        requires
            b >= 1,
            a + b - 1 == q * b + ((a + b - 1) % b),
            0 <= (a + b - 1) % b < b,
    ;
    assert((q - 1) * b < a) by (nonlinear_arith)
        requires
            b >= 1,
            a + b - 1 == q * b + ((a + b - 1) % b),
            0 <= (a + b - 1) % b < b,
    ;
    assert(q >= 1) by (nonlinear_arith)
        requires
            a >= 1,
            b >= 1,
            q * b >= a,
            (q - 1) * b < a,
    ;
    assert(q <= a) by (nonlinear_arith)
        requires
            a >= 1,
            b >= 1,
            (q - 1) * b < a,
    ;
    if a % b == 0 {
        vstd::arithmetic::div_mod::lemma_fundamental_div_mod(a, b);
        let d = a / b;
        assert(a == d * b);
        assert(q == d) by (nonlinear_arith)
            requires
                b >= 1,
                a == d * b,
                q * b >= a,
                (q - 1) * b < a,
        ;
    }
    vstd::arithmetic::div_mod::lemma_fundamental_div_mod(a - 1, b);
    vstd::arithmetic::div_mod::lemma_mod_bound(a - 1, b);
    let d2 = (a - 1) / b;
    assert(a - 1 == b * d2 + ((a - 1) % b));
    assert(d2 + 1 == q) by (nonlinear_arith)
        requires
            b >= 1,
            a - 1 == b * d2 + ((a - 1) % b),
            0 <= (a - 1) % b < b,
            q * b >= a,
            (q - 1) * b < a,
    ;
}

/// Least number of pages of extent `page` that covers `desired`; an exact
/// multiple yields the exact quotient, never a spurious extra page.
pub fn ceil_div(desired: u64, page: u64) -> (r: u64)
    requires
        desired >= 1,
        page >= 1,
    ensures
        r == spec_ceil_div(desired as int, page as int),
        1 <= r <= desired,
{
    proof {
        lemma_ceil_div(desired as int, page as int);
    }
    (desired - 1) / page + 1
}

/// Grid dimensions for a desired poster size on a given page size:
/// `columns = ceil(desired_width / page_width)` and
/// `rows = ceil(desired_height / page_height)`, each at least 1.
pub fn compute_tile_grid(
    desired_width: u64,
    desired_height: u64,
    page_width: u64,
    page_height: u64,
) -> (grid: TileGrid)
    requires
        desired_width >= 1,
        desired_height >= 1,
        page_width >= 1,
        page_height >= 1,
    ensures
        grid.columns == spec_ceil_div(desired_width as int, page_width as int),
        grid.rows == spec_ceil_div(desired_height as int, page_height as int),
        1 <= grid.columns <= desired_width,
        1 <= grid.rows <= desired_height,
{
    TileGrid {
        columns: ceil_div(desired_width, page_width),
        rows: ceil_div(desired_height, page_height),
    }
}

/// When the desired extent is an exact multiple of the page extent, the
/// grid has exactly that quotient of pages: no spurious extra tile.
pub proof fn lemma_grid_exact_multiple(desired: int, page: int, k: int)
    requires
        page >= 1,
        k >= 1,
        desired == k * page,
    ensures
        spec_ceil_div(desired, page) == k,
{
    assert(desired >= 1) by (nonlinear_arith)
        requires
            page >= 1,
            k >= 1,
            desired == k * page,
    ;
    lemma_ceil_div(desired, page);
    let q = spec_ceil_div(desired, page);
    assert(q == k) by (nonlinear_arith)
        requires
            page >= 1,
            desired == k * page,
            q * page >= desired,
            (q - 1) * page < desired,
    ;
}

} // verus!
