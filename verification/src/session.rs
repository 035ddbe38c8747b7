//! SessionState: the orchestrator's state and transitions.
//!
//! Holds the current poster specification, display unit and loaded image,
//! and applies every edit as one atomic, invariant-preserving update: a
//! width or height edit under aspect lock recomputes the dependent
//! dimension in the same step, so no partially-updated state is ever
//! observable. Saving is only permitted once an image is loaded.

use crate::compose::DocumentPlan;
use crate::compose::compose_document;
use crate::compose::spec_is_png;
use crate::compose::spec_placement;
use crate::grid::MAX_DIMENSION;
use crate::grid::TileGrid;
use crate::page::Page;
use crate::page::PosterError;
use crate::page::PosterSpec;
use crate::page::tile_grid_for_spec;
use crate::units::Units;
use vstd::prelude::*;

verus! {

/// The loaded source image: decoded pixel dimensions, plus the raw encoded
/// bytes — the output stage re-embeds the original encoded bytes, not the
/// decoded pixels.
pub struct SourceImage {
    pub width_px: u64,
    pub height_px: u64,
    pub raw_bytes: Vec<u8>,
}

impl SourceImage {
    /// A decoded image has at least one pixel on each axis.
    pub open spec fn wf(self) -> bool {
        1 <= self.width_px && 1 <= self.height_px
    }
}

/// A dimension recomputed under aspect lock: `primary * num_px / den_px`,
/// saturated into the engine's representable range so the specification
/// stays valid.
pub open spec fn spec_locked_dependent(primary: int, num_px: int, den_px: int) -> int {
    let raw = primary * num_px / den_px;
    if raw < 1 {
        1
    } else if raw > MAX_DIMENSION {
        MAX_DIMENSION as int
    } else {
        raw
    }
}

/// The desired height after a width edit: recomputed from the image's pixel
/// aspect ratio when the lock is on and an image is present, otherwise
/// unchanged.
pub open spec fn spec_height_after_width_edit(s: SessionState, width: int) -> int {
    match s.image {
        Some(img) => if s.poster.maintain_aspect_ratio {
            spec_locked_dependent(width, img.height_px as int, img.width_px as int)
        } else {
            s.poster.desired_height as int
        },
        None => s.poster.desired_height as int,
    }
}

/// The desired width after a height edit, symmetrically.
pub open spec fn spec_width_after_height_edit(s: SessionState, height: int) -> int {
    match s.image {
        Some(img) => if s.poster.maintain_aspect_ratio {
            spec_locked_dependent(height, img.width_px as int, img.height_px as int)
        } else {
            s.poster.desired_width as int
        },
        None => s.poster.desired_width as int,
    }
}

/// The orchestrator's state: the current poster specification, the unit
/// lengths are entered and shown in, and the loaded image, if any.
pub struct SessionState {
    pub poster: PosterSpec,
    pub units: Units,
    pub image: Option<SourceImage>,
}

impl SessionState {
    /// The state invariant every transition preserves: the poster
    /// specification is valid and any loaded image is well-formed.
    pub open spec fn wf(self) -> bool {
        &&& self.poster.valid()
        &&& match self.image {
            Some(img) => img.wf(),
            None => true,
        }
    }

    /// Saving needs a loaded image.
    pub open spec fn can_save(self) -> bool {
        self.image is Some
    }

    /// Replace the loaded image atomically: pixel dimensions and raw bytes
    /// change together, and under aspect lock the desired height is
    /// recomputed from the new image's ratio in the same step.
    pub fn load_image(&mut self, width_px: u64, height_px: u64, raw_bytes: Vec<u8>)
        requires
            old(self).wf(),
            1 <= width_px,
            1 <= height_px,
        ensures
            final(self).wf(),
            final(self).image == Some(SourceImage { width_px, height_px, raw_bytes }),
            final(self).units == old(self).units,
            final(self).poster.page_size == old(self).poster.page_size,
            final(self).poster.maintain_aspect_ratio == old(self).poster.maintain_aspect_ratio,
            final(self).poster.desired_width == old(self).poster.desired_width,
            old(self).poster.maintain_aspect_ratio ==> final(self).poster.desired_height
                == spec_locked_dependent(
                old(self).poster.desired_width as int,
                height_px as int,
                width_px as int,
            ),
            !old(self).poster.maintain_aspect_ratio ==> final(self).poster.desired_height == old(
                self,
            ).poster.desired_height,
    {
        self.image = Some(SourceImage { width_px, height_px, raw_bytes });
        if self.poster.maintain_aspect_ratio {
            let h = locked_dependent(self.poster.desired_width, height_px, width_px);
            self.poster.desired_height = h;
        }
    }

    /// Edit the desired width; under aspect lock with an image present, the
    /// desired height is recomputed from the image's pixel ratio in the
    /// same atomic update.
    pub fn apply_width(&mut self, width: u64)
        requires
            old(self).wf(),
            1 <= width <= MAX_DIMENSION,
        ensures
            final(self).wf(),
            final(self).poster.desired_width == width,
            final(self).poster.desired_height == spec_height_after_width_edit(*old(self), width as int),
            final(self).poster.page_size == old(self).poster.page_size,
            final(self).poster.maintain_aspect_ratio == old(self).poster.maintain_aspect_ratio,
            final(self).units == old(self).units,
            final(self).image == old(self).image,
    {
        self.poster.desired_width = width;
        match &self.image {
            Some(img) => {
                if self.poster.maintain_aspect_ratio {
                    let h = locked_dependent(width, img.height_px, img.width_px);
                    self.poster.desired_height = h;
                }
            },
            None => {},
        }
    }

    /// Edit the desired height; under aspect lock with an image present,
    /// the desired width is recomputed symmetrically.
    pub fn apply_height(&mut self, height: u64)
        requires
            old(self).wf(),
            1 <= height <= MAX_DIMENSION,
        ensures
            final(self).wf(),
            final(self).poster.desired_height == height,
            final(self).poster.desired_width == spec_width_after_height_edit(*old(self), height as int),
            final(self).poster.page_size == old(self).poster.page_size,
            final(self).poster.maintain_aspect_ratio == old(self).poster.maintain_aspect_ratio,
            final(self).units == old(self).units,
            final(self).image == old(self).image,
    {
        self.poster.desired_height = height;
        match &self.image {
            Some(img) => {
                if self.poster.maintain_aspect_ratio {
                    let w = locked_dependent(height, img.width_px, img.height_px);
                    self.poster.desired_width = w;
                }
            },
            None => {},
        }
    }

    /// Change the display unit: a pure entry/display conversion — the
    /// canonical stored dimensions do not change.
    pub fn set_units(&mut self, units: Units)
        requires
            old(self).wf(),
        ensures
            final(self).wf(),
            final(self).units == units,
            final(self).poster == old(self).poster,
            final(self).image == old(self).image,
    {
        self.units = units;
    }

    /// Choose the page format; the grid is derived, so nothing else moves.
    pub fn set_page_size(&mut self, page_size: Page)
        requires
            old(self).wf(),
        ensures
            final(self).wf(),
            final(self).poster.page_size == page_size,
            final(self).poster.desired_width == old(self).poster.desired_width,
            final(self).poster.desired_height == old(self).poster.desired_height,
            final(self).poster.maintain_aspect_ratio == old(self).poster.maintain_aspect_ratio,
            final(self).units == old(self).units,
            final(self).image == old(self).image,
    {
        self.poster.page_size = page_size;
    }

    /// Toggle the aspect lock. Turning it on with an image present
    /// re-establishes the locked invariant at once: the desired height is
    /// recomputed from the current width. With no image the lock is a
    /// no-op flag.
    pub fn set_aspect_lock(&mut self, on: bool)
        requires
            old(self).wf(),
        ensures
            final(self).wf(),
            final(self).poster.maintain_aspect_ratio == on,
            final(self).poster.desired_width == old(self).poster.desired_width,
            final(self).poster.page_size == old(self).poster.page_size,
            final(self).units == old(self).units,
            final(self).image == old(self).image,
            on && old(self).image is Some ==> final(self).poster.desired_height
                == spec_locked_dependent(
                old(self).poster.desired_width as int,
                old(self).image->Some_0.height_px as int,
                old(self).image->Some_0.width_px as int,
            ),
            !(on && old(self).image is Some) ==> final(self).poster.desired_height == old(
                self,
            ).poster.desired_height,
    {
        self.poster.maintain_aspect_ratio = on;
        if on {
            match &self.image {
                Some(img) => {
                    let h = locked_dependent(
                        self.poster.desired_width,
                        img.height_px,
                        img.width_px,
                    );
                    self.poster.desired_height = h;
                },
                None => {},
            }
        }
    }

    /// The tile grid the current specification calls for.
    pub fn tile_grid(&self) -> (r: Result<TileGrid, PosterError>)
        requires
            self.wf(),
        ensures
            r == Ok::<TileGrid, PosterError>(self.poster.spec_grid()),
    {
        tile_grid_for_spec(&self.poster)
    }

    /// Plan the output document for the current state. Rejected with an
    /// invalid-state error when no image is loaded; otherwise exactly the
    /// composer's plan for the current specification and the retained raw
    /// bytes.
    pub fn save_document(&self) -> (r: Result<DocumentPlan, PosterError>)
        requires
            self.wf(),
        ensures
            !self.can_save() ==> r == Err::<DocumentPlan, PosterError>(PosterError::InvalidState),
            self.can_save() && !spec_is_png(self.image->Some_0.raw_bytes@) ==> r == Err::<
                DocumentPlan,
                PosterError,
            >(PosterError::Decode),
            self.can_save() && spec_is_png(self.image->Some_0.raw_bytes@) ==> {
                &&& r is Ok
                &&& r->Ok_0.grid == self.poster.spec_grid()
                &&& r->Ok_0.page_width == 144 * self.poster.spec_size_of_page().0
                &&& r->Ok_0.page_height == 144 * self.poster.spec_size_of_page().1
                &&& r->Ok_0.image_width == 144 * self.poster.desired_width
                &&& r->Ok_0.image_height == 144 * self.poster.desired_height
                &&& r->Ok_0.pages@.len() == self.poster.spec_grid().columns
                    * self.poster.spec_grid().rows
                &&& forall|k: int|
                    0 <= k < r->Ok_0.pages@.len() ==> r->Ok_0.pages@[k] == spec_placement(
                        k,
                        self.poster.spec_grid().columns as int,
                        self.poster.spec_grid().rows as int,
                        self.poster.spec_size_of_page().0,
                        self.poster.spec_size_of_page().1,
                        self.poster.desired_width as int,
                        self.poster.desired_height as int,
                    )
            },
    {
        match &self.image {
            Some(img) => compose_document(&self.poster, &img.raw_bytes),
            None => Err(PosterError::InvalidState),
        }
    }
}

impl Default for SessionState {
    /// A fresh session: no image, inches, Letter pages, lock off, and the
    /// starting desired size of 8.26 by 15 inches.
    fn default() -> (s: Self)
        ensures
            s.wf(),
            s.poster.desired_width == 8260,
            s.poster.desired_height == 15000,
            s.poster.page_size == Page::Letter,
            !s.poster.maintain_aspect_ratio,
            s.units == Units::Inches,
            s.image is None,
    {
        SessionState {
            poster: PosterSpec {
                desired_width: 8260,
                desired_height: 15000,
                page_size: Page::Letter,
                maintain_aspect_ratio: false,
            },
            units: Units::Inches,
            image: None,
        }
    }
}

/// The saturated aspect-lock division: `primary * num_px / den_px`, clamped
/// into the representable range.
fn locked_dependent(primary: u64, num_px: u64, den_px: u64) -> (r: u64)
    requires
        1 <= primary <= MAX_DIMENSION,
        1 <= den_px,
    ensures
        r == spec_locked_dependent(primary as int, num_px as int, den_px as int),
        1 <= r <= MAX_DIMENSION,
{
    proof {
        assert(0 <= (primary as int) * (num_px as int) < u128::MAX && (primary as int) * (num_px
            as int) / (den_px as int) >= 0) by (nonlinear_arith)
            requires
                1 <= primary <= MAX_DIMENSION,
                0 <= num_px <= u64::MAX,
                den_px >= 1,
        ;
    }
    let raw: u128 = (primary as u128) * (num_px as u128) / (den_px as u128);
    if raw < 1 {
        1
    } else if raw > MAX_DIMENSION as u128 {
        MAX_DIMENSION
    } else {
        raw as u64
    }
}

} // verus!
