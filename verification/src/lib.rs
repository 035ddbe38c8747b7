//! Poster tiling engine.
//!
//! Turns one raster image into a multi-page poster: computes how many
//! printable pages a desired physical size needs, maps each page of that
//! grid onto a normalized sub-rectangle of the source image, lays the grid
//! out for an on-screen preview, and plans the placement of the image on
//! each output page so that the printed composite reconstructs the preview.
//!
//! All physical lengths are integers counting thousandths of an inch
//! (milli-inches), the engine's canonical unit; fractional coordinates are
//! exact rationals. This keeps every geometric identity exact: adjoining
//! tiles meet at exactly the same boundary value, and the preview and the
//! output stages derive their placements from the same grid formulas.

pub mod compose;
pub mod display;
pub mod frac;
pub mod grid;
pub mod page;
pub mod session;
pub mod units;
pub mod uv;
