use etracer::frac::Frac;
use etracer::grid::compute_tile_grid;
use etracer::page::Page;
use etracer::page::PosterError;
use etracer::page::PosterSpec;
use etracer::page::tile_grid_for_spec;
use etracer::uv::compute_uv;

#[test]
fn grid_exact_multiple_no_extra_tile() {
    // desired 17 in on 8.5 in pages: exactly 2 columns, not 3
    let g = compute_tile_grid(17000, 11000, 8500, 11000);
    assert_eq!(g.columns, 2);
    assert_eq!(g.rows, 1);
}

#[test]
fn grid_rounds_up() {
    // 20 x 10 in on Letter (8.5 x 11): 3 columns, 1 row
    let g = compute_tile_grid(20000, 10000, 8500, 11000);
    assert_eq!(g.columns, 3);
    assert_eq!(g.rows, 1);
}

#[test]
fn grid_smaller_than_one_page_is_one_by_one() {
    let g = compute_tile_grid(100, 100, 8500, 11000);
    assert_eq!(g.columns, 1);
    assert_eq!(g.rows, 1);
}

#[test]
fn grid_rejects_zero_width() {
    let p = PosterSpec {
        desired_width: 0,
        desired_height: 10000,
        page_size: Page::Letter,
        maintain_aspect_ratio: false,
    };
    assert_eq!(tile_grid_for_spec(&p), Err(PosterError::InvalidSpec));
}

#[test]
fn grid_accepts_valid_spec() {
    let p = PosterSpec {
        desired_width: 20000,
        desired_height: 10000,
        page_size: Page::Letter,
        maintain_aspect_ratio: false,
    };
    let g = tile_grid_for_spec(&p).unwrap();
    assert_eq!(g.columns, 3);
    assert_eq!(g.rows, 1);
}

#[test]
fn grid_rejects_oversized_dimension() {
    let p = PosterSpec {
        desired_width: 1_000_001,
        desired_height: 10000,
        page_size: Page::Letter,
        maintain_aspect_ratio: false,
    };
    assert_eq!(tile_grid_for_spec(&p), Err(PosterError::InvalidSpec));
}

#[test]
fn grid_at_largest_supported_size() {
    let g = compute_tile_grid(1_000_000, 1_000_000, 1, 1_000_000);
    assert_eq!(g.columns, 1_000_000);
    assert_eq!(g.rows, 1);
}

#[test]
fn page_sizes_in_milli_inches() {
    assert_eq!(Page::Letter.size(), (8500, 11000));
    assert_eq!(Page::A4.size(), (8300, 11700));
    assert_eq!(Page::Legal.size(), (8500, 14000));
    assert_eq!(Page::Tabloid.size(), (11000, 17000));
}

#[test]
fn uv_adjacent_tiles_share_seam() {
    let g = compute_tile_grid(20000, 10000, 8500, 11000);
    let left = compute_uv(0, 0, g, 8500, 11000, 20000, 10000);
    let mid = compute_uv(1, 0, g, 8500, 11000, 20000, 10000);
    let right = compute_uv(2, 0, g, 8500, 11000, 20000, 10000);
    assert_eq!(left.max.x, mid.min.x);
    assert_eq!(mid.max.x, right.min.x);
}

#[test]
fn uv_vertically_adjacent_tiles_share_seam() {
    // 10 x 30 in on Letter: 2 columns, 3 rows
    let g = compute_tile_grid(10000, 30000, 8500, 11000);
    assert_eq!(g.rows, 3);
    let top = compute_uv(0, 0, g, 8500, 11000, 10000, 30000);
    let mid = compute_uv(0, 1, g, 8500, 11000, 10000, 30000);
    assert_eq!(top.max.y, mid.min.y);
}

#[test]
fn uv_exact_interior_value() {
    // canvas 3*8500 = 25500, centering offset 5500; grid line 1 maps to
    // (2*8500 - 5500) / (2*20000) = 11500/40000
    let g = compute_tile_grid(20000, 10000, 8500, 11000);
    let mid = compute_uv(1, 0, g, 8500, 11000, 20000, 10000);
    assert_eq!(mid.min.x, Frac { num: 11500, den: 40000 });
    assert_eq!(mid.max.x, Frac { num: 28500, den: 40000 });
}

#[test]
fn uv_clamped_to_unit_square() {
    let g = compute_tile_grid(20000, 10000, 8500, 11000);
    for col in 0..3 {
        let r = compute_uv(col, 0, g, 8500, 11000, 20000, 10000);
        assert!(r.min.x.num <= r.min.x.den);
        assert!(r.max.x.num <= r.max.x.den);
        assert!(r.min.y.num <= r.min.y.den);
        assert!(r.max.y.num <= r.max.y.den);
    }
    // the outer edges are clamped to exactly 0 and 1
    let first = compute_uv(0, 0, g, 8500, 11000, 20000, 10000);
    let last = compute_uv(2, 0, g, 8500, 11000, 20000, 10000);
    assert_eq!(first.min.x.num, 0);
    assert_eq!(last.max.x.num, last.max.x.den);
}

#[test]
fn uv_single_tile_shows_whole_image() {
    // 8 x 10 in fits one Letter page: UV is exactly (0,0)-(1,1)
    let g = compute_tile_grid(8000, 10000, 8500, 11000);
    assert_eq!(g.columns, 1);
    assert_eq!(g.rows, 1);
    let r = compute_uv(0, 0, g, 8500, 11000, 8000, 10000);
    assert_eq!(r.min.x.num, 0);
    assert_eq!(r.min.y.num, 0);
    assert_eq!(r.max.x, Frac { num: 16000, den: 16000 });
    assert_eq!(r.max.y, Frac { num: 20000, den: 20000 });
}
