//! The drawing context: shape dispatch, draw modes, and the per-frame
//! mesh buffer.

use vstd::prelude::*;

use crate::geometry::{CanvasPath, PathEvent};
use crate::mesh::{colored_seq, shifted_seq, BufferPair, Color, RawVertex};
use crate::tessellator::{
    fill_of_path, lyon_path_of, stroke_of_path, svg_path, tessellate_fill, tessellate_stroke,
};

verus! {

/// Policy determining which regions of a self-overlapping path count as
/// inside for filling.
#[derive(Clone, Copy, Debug, PartialEq, Eq, Structural)]
pub enum FillRule {
    NonZero,
    EvenOdd,
}

impl FillRule {
    pub fn is_even_odd(&self) -> (r: bool)
        ensures
            r == (*self is EvenOdd),
    {
        match self {
            FillRule::NonZero => false,
            FillRule::EvenOdd => true,
        }
    }
}

/// Treatment of a stroked sub-path's open endpoints.
#[derive(Clone, Copy, Debug, PartialEq, Eq, Structural)]
pub enum CapStyle {
    /// The stroke ends flat at the endpoint.
    Butt,
    /// The stroke ends in a semicircular cap.
    Round,
    /// The stroke is extended by half the line width and cut flat.
    Square,
}

/// Treatment of a stroked path's interior corners.
#[derive(Clone, Copy, Debug, PartialEq, Eq, Structural)]
pub enum JoinStyle {
    /// A sharp, possibly extended corner.
    Miter,
    /// A filleted arc.
    Round,
    /// A flat chamfer.
    Bevel,
}

/// Parameters of a fill tessellation. The tolerance is the largest
/// allowed distance, in canvas units, between a curve and its flattened
/// approximation; at least 1.
#[derive(Clone, Copy, Debug, PartialEq, Eq, Structural)]
pub struct FillOptions {
    pub fill_rule: FillRule,
    pub tolerance: i32,
}

impl FillOptions {
    pub open spec fn wf(self) -> bool {
        1 <= self.tolerance <= crate::COORD_MAX
    }
}

/// Parameters of a stroke tessellation: the stroke's width, the cap used
/// at both open ends, the join used at corners, and the flattening
/// tolerance, all in canvas units.
#[derive(Clone, Copy, Debug, PartialEq, Eq, Structural)]
pub struct StrokeOptions {
    pub line_width: i32,
    pub line_cap: CapStyle,
    pub line_join: JoinStyle,
    pub tolerance: i32,
}

impl StrokeOptions {
    pub open spec fn wf(self) -> bool {
        1 <= self.line_width <= crate::COORD_MAX && 1 <= self.tolerance <= crate::COORD_MAX
    }
}

/// Determines how a shape is tessellated (i.e. transformed from a
/// parametric representation to a triangle mesh): exactly one of a fill
/// or a stroke operation, with that operation's options.
#[derive(Clone, Copy, Debug, PartialEq, Eq, Structural)]
pub enum DrawMode {
    /// The shape is tessellated using a fill operation.
    Fill(FillOptions),
    /// The shape is tessellated using a stroke operation.
    Stroke(StrokeOptions),
}

impl DrawMode {
    pub open spec fn wf(self) -> bool {
        match self {
            DrawMode::Fill(o) => o.wf(),
            DrawMode::Stroke(o) => o.wf(),
        }
    }

    /// A one-unit-wide stroke with flat caps and miter joins.
    pub fn stroke_1px() -> (m: DrawMode)
        ensures
            m == DrawMode::Stroke(
                StrokeOptions {
                    line_width: 1,
                    line_cap: CapStyle::Butt,
                    line_join: JoinStyle::Miter,
                    tolerance: 1,
                },
            ),
            m.wf(),
    {
        DrawMode::Stroke(
            StrokeOptions {
                line_width: 1,
                line_cap: CapStyle::Butt,
                line_join: JoinStyle::Miter,
                tolerance: 1,
            },
        )
    }

    /// A plain fill under the default nonzero fill rule.
    pub fn fill_simple() -> (m: DrawMode)
        ensures
            m == DrawMode::Fill(FillOptions { fill_rule: FillRule::NonZero, tolerance: 1 }),
            m.wf(),
    {
        DrawMode::Fill(FillOptions { fill_rule: FillRule::NonZero, tolerance: 1 })
    }
}

/// The capability of producing a path from a shape's own data.
///
/// `path_spec` is the mathematical description of that path;
/// `generate_path` is its executable counterpart and is proved to emit
/// exactly the events of `path_spec`. The conversion is pure: it depends
/// on the shape's fields alone. Any type implementing this trait,
/// built-in shape or caller-defined, is drawable.
pub trait Geometry {
    /// The shape's data admits a path: all derived coordinates are within
    /// the canvas range.
    spec fn wf(&self) -> bool;

    /// The drawing commands the shape stands for.
    spec fn path_spec(&self) -> Seq<PathEvent>;

    /// Produce the shape's path.
    fn generate_path(&self) -> (p: CanvasPath)
        requires
            self.wf(),
        ensures
            p@ == self.path_spec(),
            p.wf(),
    ;
}

/// The mesh a draw call's tessellation produces for a path and a draw
/// mode: the fill or stroke outcome of the lyon path the drawing
/// commands denote, `None` where the tessellator reports an error.
pub open spec fn spec_mesh_for(events: Seq<PathEvent>, mode: DrawMode) -> Option<
    (Seq<RawVertex>, Seq<u32>),
> {
    match mode {
        DrawMode::Fill(o) => fill_of_path(
            lyon_path_of(events),
            o.fill_rule is EvenOdd,
            o.tolerance as int,
        ),
        DrawMode::Stroke(o) => stroke_of_path(
            lyon_path_of(events),
            o.line_width as int,
            o.line_cap,
            o.line_join,
            o.tolerance as int,
        ),
    }
}

/// How one draw call changes the frame buffer: on a tessellation error,
/// or where the combined vertex count would no longer fit the 32-bit
/// index space, the call is a no-op; otherwise the produced positions
/// are appended dressed with the call's flat color, and the produced
/// indices are appended offset by the vertex count already present.
pub open spec fn spec_draw(
    buf_old: BufferPair,
    buf_new: BufferPair,
    events: Seq<PathEvent>,
    mode: DrawMode,
    color: Color,
) -> bool {
    match spec_mesh_for(events, mode) {
        None => buf_new == buf_old,
        Some(m) => if buf_old.vertices@.len() + m.0.len() <= u32::MAX {
            buf_new.vertices@ == buf_old.vertices@ + colored_seq(m.0, color)
                && buf_new.indices@ == buf_old.indices@ + shifted_seq(
                m.1,
                buf_old.vertices@.len() as int,
            )
        } else {
            buf_new == buf_old
        },
    }
}

/// Whether a draw call's mesh is appended: the tessellation must
/// succeed and the combined vertex count must still fit the 32-bit
/// index space.
pub open spec fn spec_draw_accepted(
    buf_old: BufferPair,
    events: Seq<PathEvent>,
    mode: DrawMode,
) -> bool {
    match spec_mesh_for(events, mode) {
        None => false,
        Some(m) => buf_old.vertices@.len() + m.0.len() <= u32::MAX,
    }
}

/// A rendering context that exposes an immediate mode 2D drawing API.
///
/// Shapes drawn through [`draw`](Canvas::draw) accumulate, as triangles,
/// in the held buffer pair; once per frame the host takes the buffer
/// with [`take_buffers`](Canvas::take_buffers), leaving an empty one
/// behind.
#[derive(Clone, Debug, PartialEq, Eq)]
pub struct Canvas {
    pub vertex_buffers: BufferPair,
}

impl Canvas {
    pub open spec fn wf(self) -> bool {
        self.vertex_buffers.wf()
    }

    /// Convert the shape to its path, tessellate it per the draw mode,
    /// and append the produced triangles, dressed with the given flat
    /// color, to the held buffer. The result reports whether the mesh
    /// was appended: a failed tessellation (or a buffer whose combined
    /// vertex count would no longer fit the 32-bit index space) is
    /// reported with `false` and appends nothing; later draw calls
    /// proceed unaffected.
    pub fn draw<G: Geometry>(&mut self, geometry: &G, draw_mode: DrawMode, color: Color) -> (drawn:
        bool)
        requires
            old(self).wf(),
            geometry.wf(),
            draw_mode.wf(),
        ensures
            final(self).wf(),
            spec_draw(
                old(self).vertex_buffers,
                final(self).vertex_buffers,
                geometry.path_spec(),
                draw_mode,
                color,
            ),
            drawn == spec_draw_accepted(
                old(self).vertex_buffers,
                geometry.path_spec(),
                draw_mode,
            ),
            crate::tessellator::mesh_wf(spec_mesh_for(geometry.path_spec(), draw_mode)),
    {
        let path = geometry.generate_path();
        let lyon_path = svg_path(&path.events);
        let mesh: Option<(Vec<RawVertex>, Vec<u32>)> = match draw_mode {
            DrawMode::Fill(o) => tessellate_fill(&lyon_path, o.fill_rule.is_even_odd(), o.tolerance),
            DrawMode::Stroke(o) => tessellate_stroke(
                &lyon_path,
                o.line_width,
                o.line_cap,
                o.line_join,
                o.tolerance,
            ),
        };
        match mesh {
            Some((vs, is)) => self.vertex_buffers.append_mesh(&vs, &is, color),
            None => false,
        }
    }

    /// Take the accumulated buffer pair, leaving an observably empty one
    /// behind: the single hand-off point with the surrounding render
    /// loop, once per frame.
    pub fn take_buffers(&mut self) -> (b: BufferPair)
        requires
            old(self).wf(),
        ensures
            b == old(self).vertex_buffers,
            final(self).vertex_buffers.is_empty_spec(),
            final(self).wf(),
    {
        let mut b = BufferPair::new();
        core::mem::swap(&mut b, &mut self.vertex_buffers);
        b
    }
}

impl Default for Canvas {
    fn default() -> (c: Canvas)
        ensures
            c.vertex_buffers.is_empty_spec(),
            c.wf(),
    {
        Canvas { vertex_buffers: BufferPair::new() }
    }
}

} // verus!
