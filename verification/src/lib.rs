//! An immediate-mode 2D vector-drawing library.
//!
//! Callers describe parametric shapes (rectangles, circles, ellipses,
//! polygons, regular polygons, lines, or custom paths) in exact integer
//! canvas units; the library converts each shape into a path of drawing
//! commands and tessellates it, through `lyon_tessellation`, into a
//! triangle mesh that accumulates in a per-frame buffer pair.

use vstd::prelude::*;

pub mod canvas;
pub mod common_shapes;
pub mod geometry;
pub mod mesh;
pub mod tessellator;
pub mod trig;

pub use canvas::{Canvas, CapStyle, DrawMode, FillOptions, FillRule, Geometry, JoinStyle, StrokeOptions};
pub use geometry::{CanvasPath, PathBuilder, PathEvent, Vec2};
pub use mesh::{BufferPair, Color, RawVertex, Vertex};

verus! {

/// Largest magnitude a canvas coordinate may have. Coordinates are handed
/// to the tessellator as 16-bit integers widened to single-precision
/// floats, a lossless conversion, so they must fit in 16 bits.
pub const COORD_MAX: i32 = 32767;

/// True when `v` can be a canvas coordinate.
pub open spec fn coord_in_range(v: int) -> bool {
    -(COORD_MAX as int) <= v <= COORD_MAX as int
}

} // verus!
