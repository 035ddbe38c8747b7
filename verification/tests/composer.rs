use etracer::compose::compose_document;
use etracer::display::compute_display_layout;
use etracer::display::tile_display_rect;
use etracer::frac::Frac;
use etracer::grid::compute_tile_grid;
use etracer::page::Page;
use etracer::page::PosterError;
use etracer::page::PosterSpec;

fn poster_20_by_10() -> PosterSpec {
    PosterSpec {
        desired_width: 20000,
        desired_height: 10000,
        page_size: Page::Letter,
        maintain_aspect_ratio: false,
    }
}

#[test]
fn composer_page_count_matches_grid() {
    // 20 x 10 in on Letter: 3 columns x 1 row = 3 pages
    let png = vec![137u8, 80, 78, 71, 13, 10, 26, 10];
    let plan = compose_document(&poster_20_by_10(), &png).unwrap();
    assert_eq!(plan.grid.columns, 3);
    assert_eq!(plan.grid.rows, 1);
    assert_eq!(plan.pages.len(), 3);
}

#[test]
fn composer_sizes_and_offsets_exact() {
    let png = vec![137u8, 80, 78, 71, 13, 10, 26, 10];
    let plan = compose_document(&poster_20_by_10(), &png).unwrap();
    // output units are half-milli-points: 144 per milli-inch
    assert_eq!(plan.page_width, 144 * 8500);
    assert_eq!(plan.page_height, 144 * 11000);
    assert_eq!(plan.image_width, 144 * 20000);
    assert_eq!(plan.image_height, 144 * 10000);
    // canvas excess: 3*8500 - 20000 = 5500 wide, 11000 - 10000 = 1000 high
    let base_x: i64 = 72 * 5500;
    let base_y: i64 = 72 * 1000;
    for (k, page) in plan.pages.iter().enumerate() {
        assert_eq!(page.col, k as u64);
        assert_eq!(page.row, 0);
        assert_eq!(page.offset_x, base_x - (k as i64) * 144 * 8500);
        assert_eq!(page.offset_y, base_y);
    }
}

#[test]
fn composer_rejects_zero_dimension() {
    let png = vec![137u8, 80, 78, 71, 13, 10, 26, 10];
    let p = PosterSpec {
        desired_width: 0,
        desired_height: 10000,
        page_size: Page::Letter,
        maintain_aspect_ratio: false,
    };
    assert!(matches!(compose_document(&p, &png), Err(PosterError::InvalidSpec)));
}

#[test]
fn composer_rejects_undecodable_bytes() {
    let not_png = vec![1u8, 2, 3, 4, 5, 6, 7, 8, 9];
    assert!(matches!(
        compose_document(&poster_20_by_10(), &not_png),
        Err(PosterError::Decode)
    ));
    let empty: Vec<u8> = Vec::new();
    assert!(matches!(
        compose_document(&poster_20_by_10(), &empty),
        Err(PosterError::Decode)
    ));
}

#[test]
fn display_layout_width_authoritative_fills_draw_width() {
    // 3 x 1 grid of Letter pages in a 1000 x 1000 area, margin 1/20:
    // the width candidate is the tighter fit
    let g = compute_tile_grid(20000, 10000, 8500, 11000);
    let layout = compute_display_layout(1000, 1000, g, 8500, 11000, 50);
    assert_eq!(layout.page_width, Frac { num: 1000 * 1000, den: 3100 });
    assert_eq!(
        layout.page_height,
        Frac { num: 1000 * 1000 * 11000, den: 3100 * 8500 }
    );
    // the grid spans the draw width exactly: 3.1 page widths = 1000
    let w = &layout.page_width;
    assert_eq!(w.num * 3100, 1000 * 1000 * w.den);
}

#[test]
fn display_layout_height_authoritative_in_wide_area() {
    // the same grid in a very wide area: the height candidate wins
    let g = compute_tile_grid(20000, 10000, 8500, 11000);
    let layout = compute_display_layout(10000, 1000, g, 8500, 11000, 50);
    assert_eq!(layout.page_height, Frac { num: 1000 * 1000, den: 1000 });
    assert_eq!(
        layout.page_width,
        Frac { num: 1000 * 1000 * 8500, den: 1000 * 11000 }
    );
}

#[test]
fn display_first_tile_insets_image_by_centering_offset() {
    let g = compute_tile_grid(20000, 10000, 8500, 11000);
    let layout = compute_display_layout(1000, 1000, g, 8500, 11000, 50);
    let rect = tile_display_rect(0, 0, g, 8500, 11000, 20000, 10000, 50, layout);
    // common denominator: page_width.den * 2000 * 8500
    let den: u128 = 3100 * 2000 * 8500;
    assert_eq!(rect.x.page_min, Frac { num: 0, den });
    // one page width: num * 1000 * 2 * page
    let n: u128 = 1000 * 1000;
    assert_eq!(rect.x.page_max, Frac { num: n * 1000 * 2 * 8500, den });
    // the first column insets the image by (25500 - 20000)/(2*8500) pages
    let inset: u128 = 5500 * n * 1000;
    assert_eq!(rect.x.image_min, Frac { num: inset, den });
    assert_eq!(rect.x.image_max, rect.x.page_max);
}

#[test]
fn display_interior_tile_shows_full_page_image() {
    let g = compute_tile_grid(20000, 10000, 8500, 11000);
    let layout = compute_display_layout(1000, 1000, g, 8500, 11000, 50);
    let rect = tile_display_rect(1, 0, g, 8500, 11000, 20000, 10000, 50, layout);
    assert_eq!(rect.x.image_min, rect.x.page_min);
    assert_eq!(rect.x.image_max, rect.x.page_max);
    // origin advances by one page width plus the margin
    let n: u128 = 1000 * 1000;
    let den: u128 = 3100 * 2000 * 8500;
    assert_eq!(rect.x.page_min, Frac { num: n * 1050 * 2 * 8500, den });
}
