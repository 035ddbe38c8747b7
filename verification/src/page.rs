//! Page formats, the poster specification, and the engine's errors.

use crate::grid::MAX_DIMENSION;
use crate::grid::TileGrid;
use crate::grid::compute_tile_grid;
use crate::grid::spec_ceil_div;
use vstd::prelude::*;

verus! {

/// The closed set of printable page formats.
#[derive(Debug, Clone, Copy, PartialEq, Eq, Structural)]
pub enum Page {
    Letter,
    A4,
    Legal,
    Tabloid,
}

impl Page {
    /// The fixed physical size of the format, (width, height) in
    /// milli-inches.
    pub open spec fn spec_size(self) -> (int, int) {
        match self {
            Page::A4 => (8300int, 11700int),
            Page::Legal => (8500int, 14000int),
            Page::Letter => (8500int, 11000int),
            Page::Tabloid => (11000int, 17000int),
        }
    }

    /// The physical size of the format, (width, height) in milli-inches.
    pub fn size(&self) -> (s: (u64, u64))
        ensures
            s.0 == self.spec_size().0,
            s.1 == self.spec_size().1,
            1 <= s.0 <= MAX_DIMENSION,
            1 <= s.1 <= MAX_DIMENSION,
    {
        match self {
            Page::A4 => (8300, 11700),
            Page::Legal => (8500, 14000),
            Page::Letter => (8500, 11000),
            Page::Tabloid => (11000, 17000),
        }
    }
}

/// What the user asked for: a desired poster size in milli-inches, a page
/// format to tile it with, and whether the poster must keep the source
/// image's aspect ratio.
#[derive(Debug, Clone, Copy, PartialEq, Eq, Structural)]
pub struct PosterSpec {
    pub desired_width: u64,
    pub desired_height: u64,
    pub page_size: Page,
    pub maintain_aspect_ratio: bool,
}

impl PosterSpec {
    /// Both desired dimensions are strictly positive and within the
    /// engine's representable range.
    pub open spec fn valid(self) -> bool {
        &&& 1 <= self.desired_width <= MAX_DIMENSION
        &&& 1 <= self.desired_height <= MAX_DIMENSION
    }

    /// The tile grid this specification calls for.
    pub open spec fn spec_grid(self) -> TileGrid {
        TileGrid {
            columns: spec_ceil_div(
                self.desired_width as int,
                self.spec_size_of_page().0,
            ) as u64,
            rows: spec_ceil_div(self.desired_height as int, self.spec_size_of_page().1) as u64,
        }
    }

    /// The chosen page format's size, (width, height) in milli-inches.
    pub open spec fn spec_size_of_page(self) -> (int, int) {
        self.page_size.spec_size()
    }
}

/// Everything that the engine can refuse to do, by cause.
#[derive(Debug, Clone, Copy, PartialEq, Eq, Structural)]
pub enum PosterError {
    /// A desired dimension is zero or beyond the representable range.
    InvalidSpec,
    /// The raw image bytes are not a decodable image.
    Decode,
    /// An operation that needs a loaded image was requested without one.
    InvalidState,
}

/// The validated grid computation: rejects an invalid specification before
/// computing anything, and otherwise yields exactly the ceiling grid.
pub fn tile_grid_for_spec(spec: &PosterSpec) -> (r: Result<TileGrid, PosterError>)
    ensures
        spec.valid() <==> r is Ok,
        !spec.valid() ==> r == Err::<TileGrid, PosterError>(PosterError::InvalidSpec),
        spec.valid() ==> r == Ok::<TileGrid, PosterError>(spec.spec_grid()),
{
    if spec.desired_width < 1 || spec.desired_width > MAX_DIMENSION || spec.desired_height < 1
        || spec.desired_height > MAX_DIMENSION {
        return Err(PosterError::InvalidSpec);
    }
    let (page_w, page_h) = spec.page_size.size();
    let grid = compute_tile_grid(spec.desired_width, spec.desired_height, page_w, page_h);
    proof {
        crate::grid::lemma_ceil_div(spec.desired_width as int, page_w as int);
        crate::grid::lemma_ceil_div(spec.desired_height as int, page_h as int);
    }
    Ok(grid)
}

} // verus!
