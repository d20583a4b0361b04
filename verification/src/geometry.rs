//! Path representation and the path builder.
//!
//! A path is an ordered sequence of drawing commands over exact integer
//! canvas coordinates. The builder accumulates commands with the usual
//! SVG-style conveniences (an implicit `MoveTo` is understood by the
//! consumer when a drawing command arrives before any `MoveTo`) and keeps
//! track of the current pen position.

use vstd::prelude::*;

use crate::coord_in_range;

verus! {

/// A 2D position, extent or radius pair in exact integer canvas units.
#[derive(Clone, Copy, Debug, PartialEq, Eq, Structural)]
pub struct Vec2 {
    pub x: i32,
    pub y: i32,
}

impl Vec2 {
    /// Both coordinates are within the canvas coordinate range.
    pub open spec fn in_range(self) -> bool {
        coord_in_range(self.x as int) && coord_in_range(self.y as int)
    }

    pub fn new(x: i32, y: i32) -> (v: Vec2)
        ensures
            v == (Vec2 { x, y }),
    {
        Vec2 { x, y }
    }

    /// The origin.
    pub fn zero() -> (v: Vec2)
        ensures
            v == (Vec2 { x: 0, y: 0 }),
    {
        Vec2 { x: 0, y: 0 }
    }
}

/// Largest magnitude, in whole degrees, an arc's sweep or axis rotation
/// may have: the bound under which a degree count converts losslessly to
/// the 16-bit value handed to the tessellator.
pub const ANGLE_MAX_DEGREES: i32 = 32767;

/// One drawing command of a path.
///
/// Angles are in whole degrees; coordinates in integer canvas units.
#[derive(Clone, Copy, Debug, PartialEq, Eq, Structural)]
pub enum PathEvent {
    /// Start a new sub-path at the point.
    MoveTo(Vec2),
    /// Straight segment to the point.
    LineTo(Vec2),
    /// Quadratic Bezier segment: control point, then endpoint.
    QuadraticTo(Vec2, Vec2),
    /// Cubic Bezier segment: two control points, then endpoint.
    CubicTo(Vec2, Vec2, Vec2),
    /// Elliptic arc around a center: center, the two radii, sweep angle in
    /// degrees, x-axis rotation in degrees. The arc starts at the current
    /// pen position; its exact endpoint is determined by the consumer's
    /// curve flattening.
    Arc(Vec2, Vec2, i32, i32),
    /// Close the current sub-path with a straight segment back to its start.
    Close,
}

/// All coordinates of the command are in the canvas range, arc radii are
/// nonnegative and arc angles are within the accepted bounds.
pub open spec fn event_in_range(e: PathEvent) -> bool {
    match e {
        PathEvent::MoveTo(p) => p.in_range(),
        PathEvent::LineTo(p) => p.in_range(),
        PathEvent::QuadraticTo(c, p) => c.in_range() && p.in_range(),
        PathEvent::CubicTo(c1, c2, p) => c1.in_range() && c2.in_range() && p.in_range(),
        PathEvent::Arc(c, r, sweep, rot) => c.in_range() && r.in_range() && 0 <= r.x && 0 <= r.y
            && -ANGLE_MAX_DEGREES <= sweep <= ANGLE_MAX_DEGREES
            && -ANGLE_MAX_DEGREES <= rot <= ANGLE_MAX_DEGREES,
        PathEvent::Close => true,
    }
}

pub open spec fn events_in_range(s: Seq<PathEvent>) -> bool {
    forall|i: int| 0 <= i < s.len() ==> event_in_range(#[trigger] s[i])
}

/// True of the commands that draw something (everything but `MoveTo` and
/// `Close`).
pub open spec fn is_drawable_event(e: PathEvent) -> bool {
    match e {
        PathEvent::MoveTo(_) => false,
        PathEvent::Close => false,
        _ => true,
    }
}

/// The path holds no drawable segment at all.
pub open spec fn no_drawable_segments(s: Seq<PathEvent>) -> bool {
    forall|i: int| 0 <= i < s.len() ==> !is_drawable_event(#[trigger] s[i])
}

/// An immutable, ordered sequence of drawing commands, built once by a
/// [`PathBuilder`] or a shape and then consumed read-only by the
/// tessellator.
#[derive(Clone, Debug, PartialEq, Eq)]
pub struct CanvasPath {
    pub events: Vec<PathEvent>,
}

impl View for CanvasPath {
    type V = Seq<PathEvent>;

    open spec fn view(&self) -> Seq<PathEvent> {
        self.events@
    }
}

impl CanvasPath {
    /// Every command of the path is within the canvas range.
    pub open spec fn wf(self) -> bool {
        events_in_range(self@)
    }
}

/// Builder for a [`CanvasPath`].
///
/// It records each command verbatim and tracks the pen. The tracked
/// position mirrors the consumer's SVG rules: a drawing command that
/// arrives while no sub-path is open re-opens one (at its own endpoint if
/// nothing was drawn yet, else at the last sub-path's start), and `close`
/// returns the pen to the sub-path's start. After an `arc` the pen sits
/// at the arc's endpoint, rounded to the nearest canvas unit; a chain of
/// arcs can therefore differ from the consumer's exact pen by the
/// accumulated rounding, which is under one unit per arc.
pub struct PathBuilder {
    pub events: Vec<PathEvent>,
    pub current: Vec2,
    pub first: Vec2,
    pub need_move: bool,
    pub empty: bool,
}

impl PathBuilder {
    /// All recorded commands and tracked points are within the canvas range.
    pub open spec fn wf(self) -> bool {
        events_in_range(self.events@) && self.current.in_range() && self.first.in_range()
    }

    pub fn new() -> (b: PathBuilder)
        ensures
            b.events@ == Seq::<PathEvent>::empty(),
            b.current == (Vec2 { x: 0, y: 0 }),
            b.first == (Vec2 { x: 0, y: 0 }),
            b.need_move,
            b.empty,
            b.wf(),
    {
        PathBuilder {
            events: Vec::new(),
            current: Vec2 { x: 0, y: 0 },
            first: Vec2 { x: 0, y: 0 },
            need_move: true,
            empty: true,
        }
    }

    /// Finish the path. The builder is consumed and cannot be appended to
    /// afterwards.
    pub fn build(self) -> (p: CanvasPath)
        requires
            self.wf(),
        ensures
            p@ == self.events@,
            p.wf(),
    {
        CanvasPath { events: self.events }
    }

    /// Start a new sub-path at `to`. Returns an opaque identifier for the
    /// endpoint just added (its position in the command list).
    pub fn move_to(&mut self, to: Vec2) -> (id: usize)
        requires
            old(self).wf(),
            to.in_range(),
        ensures
            final(self).events@ == old(self).events@.push(PathEvent::MoveTo(to)),
            final(self).current == to,
            final(self).first == to,
            !final(self).need_move,
            !final(self).empty,
            final(self).wf(),
            id == old(self).events@.len(),
    {
        let id = self.events.len();
        self.events.push(PathEvent::MoveTo(to));
        self.current = to;
        self.first = to;
        self.need_move = false;
        self.empty = false;
        id
    }

    /// Straight segment to `to`. If no sub-path is open, one is opened
    /// first (at `to` itself if nothing was recorded yet, else at the last
    /// sub-path's start).
    pub fn line_to(&mut self, to: Vec2) -> (id: usize)
        requires
            old(self).wf(),
            to.in_range(),
        ensures
            final(self).events@ == old(self).events@.push(PathEvent::LineTo(to)),
            final(self).current == to,
            final(self).first == (if old(self).need_move && old(self).empty { to } else { old(self).first }),
            !final(self).need_move,
            !final(self).empty,
            final(self).wf(),
            id == old(self).events@.len(),
    {
        let id = self.events.len();
        if self.need_move && self.empty {
            self.first = to;
        }
        self.events.push(PathEvent::LineTo(to));
        self.current = to;
        self.need_move = false;
        self.empty = false;
        id
    }

    /// Quadratic Bezier segment with control point `ctrl`, ending at `to`.
    pub fn quadratic_bezier_to(&mut self, ctrl: Vec2, to: Vec2) -> (id: usize)
        requires
            old(self).wf(),
            ctrl.in_range(),
            to.in_range(),
        ensures
            final(self).events@ == old(self).events@.push(PathEvent::QuadraticTo(ctrl, to)),
            final(self).current == to,
            final(self).first == (if old(self).need_move && old(self).empty { to } else { old(self).first }),
            !final(self).need_move,
            !final(self).empty,
            final(self).wf(),
            id == old(self).events@.len(),
    {
        let id = self.events.len();
        if self.need_move && self.empty {
            self.first = to;
        }
        self.events.push(PathEvent::QuadraticTo(ctrl, to));
        self.current = to;
        self.need_move = false;
        self.empty = false;
        id
    }

    /// Cubic Bezier segment with control points `ctrl1` and `ctrl2`,
    /// ending at `to`.
    pub fn cubic_bezier_to(&mut self, ctrl1: Vec2, ctrl2: Vec2, to: Vec2) -> (id: usize)
        requires
            old(self).wf(),
            ctrl1.in_range(),
            ctrl2.in_range(),
            to.in_range(),
        ensures
            final(self).events@ == old(self).events@.push(PathEvent::CubicTo(ctrl1, ctrl2, to)),
            final(self).current == to,
            final(self).first == (if old(self).need_move && old(self).empty { to } else { old(self).first }),
            !final(self).need_move,
            !final(self).empty,
            final(self).wf(),
            id == old(self).events@.len(),
    {
        let id = self.events.len();
        if self.need_move && self.empty {
            self.first = to;
        }
        self.events.push(PathEvent::CubicTo(ctrl1, ctrl2, to));
        self.current = to;
        self.need_move = false;
        self.empty = false;
        id
    }

    /// Elliptic arc around `center` with the given radii, sweep angle and
    /// x-axis rotation, both in whole degrees. The arc starts at the
    /// current pen position and sweeps around the center; afterwards the
    /// pen sits at the arc's endpoint, rounded to the nearest canvas
    /// unit (so the pen must stay a canvas coordinate, which bounds the
    /// center's distance to the edge of the range). If no sub-path is
    /// open, the arc's start point opens one. An arc centered exactly on
    /// the pen is degenerate — its angles are undefined — and changes
    /// nothing; the consumer skips it the same way.
    pub fn arc(&mut self, center: Vec2, radii: Vec2, sweep_degrees: i32, x_rotation_degrees: i32)
        requires
            old(self).wf(),
            center.in_range(),
            radii.in_range(),
            0 <= radii.x,
            0 <= radii.y,
            -ANGLE_MAX_DEGREES <= sweep_degrees <= ANGLE_MAX_DEGREES,
            -ANGLE_MAX_DEGREES <= x_rotation_degrees <= ANGLE_MAX_DEGREES,
            coord_in_range(center.x - (radii.x + radii.y + 2)),
            coord_in_range(center.x + radii.x + radii.y + 2),
            coord_in_range(center.y - (radii.x + radii.y + 2)),
            coord_in_range(center.y + radii.x + radii.y + 2),
        ensures
            final(self).events@ == old(self).events@.push(
                PathEvent::Arc(center, radii, sweep_degrees, x_rotation_degrees),
            ),
            final(self).current == (if old(self).current == center {
                old(self).current
            } else {
                crate::tessellator::arc_span_of(
                    old(self).current,
                    center,
                    radii,
                    sweep_degrees as int,
                    x_rotation_degrees as int,
                ).1
            }),
            final(self).first == (if old(self).current == center || !old(self).need_move {
                old(self).first
            } else {
                crate::tessellator::arc_span_of(
                    old(self).current,
                    center,
                    radii,
                    sweep_degrees as int,
                    x_rotation_degrees as int,
                ).0
            }),
            final(self).need_move == (old(self).need_move && old(self).current == center),
            final(self).empty == (old(self).empty && old(self).current == center),
            final(self).wf(),
    {
        self.events.push(PathEvent::Arc(center, radii, sweep_degrees, x_rotation_degrees));
        if self.current.x == center.x && self.current.y == center.y {
            return ;
        }
        let span = crate::tessellator::arc_span(
            self.current,
            center,
            radii,
            sweep_degrees,
            x_rotation_degrees,
        );
        if self.need_move {
            self.first = span.0;
        }
        self.current = span.1;
        self.need_move = false;
        self.empty = false;
    }

    /// Close the current sub-path; the pen returns to the sub-path's
    /// start. Closing while no sub-path is open does nothing.
    pub fn close(&mut self)
        requires
            old(self).wf(),
        ensures
            final(self).events@ == (if old(self).need_move {
                old(self).events@
            } else {
                old(self).events@.push(PathEvent::Close)
            }),
            final(self).current == (if old(self).need_move { old(self).current } else { old(self).first }),
            final(self).first == old(self).first,
            final(self).need_move,
            final(self).empty == old(self).empty,
            final(self).wf(),
    {
        if self.need_move {
            return ;
        }
        self.events.push(PathEvent::Close);
        self.current = self.first;
        self.need_move = true;
    }

    /// The tracked pen position; the origin until a first command arrives.
    pub fn current_position(&self) -> (p: Vec2)
        ensures
            p == self.current,
    {
        self.current
    }
}

impl Default for PathBuilder {
    fn default() -> (b: PathBuilder)
        ensures
            b.events@ == Seq::<PathEvent>::empty(),
            b.current == (Vec2 { x: 0, y: 0 }),
            b.first == (Vec2 { x: 0, y: 0 }),
            b.need_move,
            b.empty,
            b.wf(),
    {
        PathBuilder::new()
    }
}

} // verus!
