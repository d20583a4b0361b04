//! A convenient collection of shapes.
//!
//! These shapes are provided to help users draw basic shapes without
//! needing to implement the [`Geometry`](crate::Geometry) trait
//! themselves. Each one converts deterministically to exactly one path,
//! and the conversion is proved to emit exactly the events of the shape's
//! `path_spec`.

use vstd::prelude::*;

use crate::canvas::Geometry;
use crate::coord_in_range;
use crate::geometry::{no_drawable_segments, CanvasPath, PathEvent, Vec2};

verus! {

/// Part of a rectangle located at its `origin` reference point.
#[derive(Clone, Copy, Debug, PartialEq, Eq, Structural)]
pub enum RectangleAnchor {
    Center,
    BottomLeft,
    BottomRight,
    TopRight,
    TopLeft,
}

/// An axis-aligned rectangle, described by a reference point, extents
/// (width and height), and the anchor policy that says which part of the
/// shape sits at the reference point.
#[derive(Clone, Copy, Debug, PartialEq, Eq, Structural)]
pub struct Rectangle {
    /// Reference point of the shape.
    pub origin: Vec2,
    /// Width and height.
    pub extents: Vec2,
    /// Part of the shape located at the `origin`.
    pub anchor_point: RectangleAnchor,
}

impl Rectangle {
    /// The bottom-left corner of the rectangle, as dictated by the anchor
    /// policy. For the `Center` anchor with odd extents the division
    /// rounds towards zero.
    pub open spec fn spec_corner_x(self) -> int {
        match self.anchor_point {
            RectangleAnchor::Center => self.origin.x - self.extents.x / 2,
            RectangleAnchor::BottomLeft => self.origin.x as int,
            RectangleAnchor::BottomRight => self.origin.x - self.extents.x,
            RectangleAnchor::TopRight => self.origin.x - self.extents.x,
            RectangleAnchor::TopLeft => self.origin.x as int,
        }
    }

    pub open spec fn spec_corner_y(self) -> int {
        match self.anchor_point {
            RectangleAnchor::Center => self.origin.y - self.extents.y / 2,
            RectangleAnchor::BottomLeft => self.origin.y as int,
            RectangleAnchor::BottomRight => self.origin.y as int,
            RectangleAnchor::TopRight => self.origin.y - self.extents.y,
            RectangleAnchor::TopLeft => self.origin.y - self.extents.y,
        }
    }

    /// The four corners, counter-clockwise from the bottom-left one.
    pub open spec fn spec_points(self) -> Seq<Vec2> {
        let cx = self.spec_corner_x();
        let cy = self.spec_corner_y();
        let w = self.extents.x as int;
        let h = self.extents.y as int;
        seq![
            Vec2 { x: cx as i32, y: cy as i32 },
            Vec2 { x: (cx + w) as i32, y: cy as i32 },
            Vec2 { x: (cx + w) as i32, y: (cy + h) as i32 },
            Vec2 { x: cx as i32, y: (cy + h) as i32 },
        ]
    }
}

impl Geometry for Rectangle {
    /// Nonnegative extents, and every point the anchor policy can derive
    /// stays within the canvas range.
    open spec fn wf(&self) -> bool {
        0 <= self.extents.x && 0 <= self.extents.y && coord_in_range(self.origin.x - self.extents.x)
            && coord_in_range(self.origin.x + self.extents.x)
            && coord_in_range(self.origin.y - self.extents.y)
            && coord_in_range(self.origin.y + self.extents.y)
    }

    /// A closed four-point polygon, winding positive (counter-clockwise),
    /// starting at the anchored bottom-left corner.
    open spec fn path_spec(&self) -> Seq<PathEvent> {
        let p = self.spec_points();
        seq![
            PathEvent::MoveTo(p[0]),
            PathEvent::LineTo(p[1]),
            PathEvent::LineTo(p[2]),
            PathEvent::LineTo(p[3]),
            PathEvent::Close,
        ]
    }

    fn generate_path(&self) -> (p: CanvasPath) {
        let cx: i32 = match self.anchor_point {
            RectangleAnchor::Center => self.origin.x - self.extents.x / 2,
            RectangleAnchor::BottomLeft => self.origin.x,
            RectangleAnchor::BottomRight => self.origin.x - self.extents.x,
            RectangleAnchor::TopRight => self.origin.x - self.extents.x,
            RectangleAnchor::TopLeft => self.origin.x,
        };
        let cy: i32 = match self.anchor_point {
            RectangleAnchor::Center => self.origin.y - self.extents.y / 2,
            RectangleAnchor::BottomLeft => self.origin.y,
            RectangleAnchor::BottomRight => self.origin.y,
            RectangleAnchor::TopRight => self.origin.y - self.extents.y,
            RectangleAnchor::TopLeft => self.origin.y - self.extents.y,
        };
        let mut events: Vec<PathEvent> = Vec::new();
        events.push(PathEvent::MoveTo(Vec2 { x: cx, y: cy }));
        events.push(PathEvent::LineTo(Vec2 { x: cx + self.extents.x, y: cy }));
        events.push(PathEvent::LineTo(Vec2 { x: cx + self.extents.x, y: cy + self.extents.y }));
        events.push(PathEvent::LineTo(Vec2 { x: cx, y: cy + self.extents.y }));
        events.push(PathEvent::Close);
        proof {
            assert(events@ =~= self.path_spec());
        }
        CanvasPath { events }
    }
}

/// Law: for every well-formed rectangle the four emitted path points
/// form a closed quadrilateral whose bounding box has width `extents.x`
/// and height `extents.y`, and the corner matching the anchor policy is
/// exactly `origin` (for the `Center` anchor with even extents, the
/// quadrilateral's center is exactly `origin`).
pub proof fn lemma_rectangle_anchored_bounding_box(rect: Rectangle)
    requires
        rect.wf(),
    ensures
        rect.path_spec().len() == 5,
        rect.path_spec()[0] == PathEvent::MoveTo(rect.spec_points()[0]),
        rect.path_spec()[4] is Close,
        rect.spec_points()[0].y == rect.spec_points()[1].y,
        rect.spec_points()[2].y == rect.spec_points()[3].y,
        rect.spec_points()[0].x == rect.spec_points()[3].x,
        rect.spec_points()[1].x == rect.spec_points()[2].x,
        rect.spec_points()[1].x - rect.spec_points()[0].x == rect.extents.x,
        rect.spec_points()[3].y - rect.spec_points()[0].y == rect.extents.y,
        rect.anchor_point is BottomLeft ==> rect.spec_points()[0] == rect.origin,
        rect.anchor_point is BottomRight ==> rect.spec_points()[1] == rect.origin,
        rect.anchor_point is TopRight ==> rect.spec_points()[2] == rect.origin,
        rect.anchor_point is TopLeft ==> rect.spec_points()[3] == rect.origin,
        rect.anchor_point is Center && rect.extents.x % 2 == 0 && rect.extents.y % 2 == 0
            ==> rect.spec_points()[0].x + rect.spec_points()[2].x == 2 * rect.origin.x
            && rect.spec_points()[0].y + rect.spec_points()[2].y == 2 * rect.origin.y,
{
}

/// A circle described by its center and radius.
#[derive(Clone, Copy, Debug, PartialEq, Eq, Structural)]
pub struct Circle {
    pub center: Vec2,
    pub radius: i32,
}

impl Geometry for Circle {
    open spec fn wf(&self) -> bool {
        0 <= self.radius && coord_in_range(self.center.x - self.radius) && coord_in_range(
            self.center.x + self.radius,
        ) && coord_in_range(self.center.y - self.radius) && coord_in_range(
            self.center.y + self.radius,
        )
    }

    /// A closed circular path, winding positive: one full-turn arc around
    /// the center, starting at the rightmost point.
    open spec fn path_spec(&self) -> Seq<PathEvent> {
        seq![
            PathEvent::MoveTo(Vec2 { x: (self.center.x + self.radius) as i32, y: self.center.y }),
            PathEvent::Arc(self.center, Vec2 { x: self.radius, y: self.radius }, 360, 0),
            PathEvent::Close,
        ]
    }

    fn generate_path(&self) -> (p: CanvasPath) {
        let mut events: Vec<PathEvent> = Vec::new();
        events.push(PathEvent::MoveTo(Vec2 { x: self.center.x + self.radius, y: self.center.y }));
        events.push(PathEvent::Arc(self.center, Vec2 { x: self.radius, y: self.radius }, 360, 0));
        events.push(PathEvent::Close);
        proof {
            assert(events@ =~= self.path_spec());
        }
        CanvasPath { events }
    }
}

/// An axis-aligned ellipse described by its center and the two radii.
#[derive(Clone, Copy, Debug, PartialEq, Eq, Structural)]
pub struct Ellipse {
    pub center: Vec2,
    pub radii: Vec2,
}

impl Geometry for Ellipse {
    open spec fn wf(&self) -> bool {
        0 <= self.radii.x && 0 <= self.radii.y && coord_in_range(self.center.x - self.radii.x)
            && coord_in_range(self.center.x + self.radii.x)
            && coord_in_range(self.center.y - self.radii.y)
            && coord_in_range(self.center.y + self.radii.y)
    }

    /// A closed elliptical path with zero axis rotation, winding
    /// positive: one full-turn arc around the center, starting at the
    /// rightmost point.
    open spec fn path_spec(&self) -> Seq<PathEvent> {
        seq![
            PathEvent::MoveTo(Vec2 { x: (self.center.x + self.radii.x) as i32, y: self.center.y }),
            PathEvent::Arc(self.center, self.radii, 360, 0),
            PathEvent::Close,
        ]
    }

    fn generate_path(&self) -> (p: CanvasPath) {
        let mut events: Vec<PathEvent> = Vec::new();
        events.push(PathEvent::MoveTo(Vec2 { x: self.center.x + self.radii.x, y: self.center.y }));
        events.push(PathEvent::Arc(self.center, self.radii, 360, 0));
        events.push(PathEvent::Close);
        proof {
            assert(events@ =~= self.path_spec());
        }
        CanvasPath { events }
    }
}

/// Describes a polygon or a polyline: an ordered list of points, each
/// offset by `origin`, either closed (a polygon) or left open (a
/// polyline).
#[derive(Clone, Debug, PartialEq, Eq)]
pub struct Polygon {
    /// Reference point of the shape.
    pub origin: Vec2,
    /// The positions of the vertices, relative to `origin`.
    pub points: Vec<Vec2>,
    /// Determines if the shape will be closed (a polygon) or remain open
    /// (a polyline).
    pub closed: bool,
}

impl Polygon {
    /// The vertex `i`, offset by the origin.
    pub open spec fn spec_point(self, i: int) -> Vec2 {
        Vec2 {
            x: (self.points@[i].x + self.origin.x) as i32,
            y: (self.points@[i].y + self.origin.y) as i32,
        }
    }
}

impl Geometry for Polygon {
    open spec fn wf(&self) -> bool {
        forall|i: int|
            0 <= i < self.points@.len() ==> coord_in_range(
                #[trigger] self.points@[i].x + self.origin.x,
            ) && coord_in_range(self.points@[i].y + self.origin.y)
    }

    /// A move to the first offset point, a straight segment to each
    /// following one in the given order, and a closing segment exactly
    /// when `closed` is set. Zero or one points produce a path with no
    /// drawable segment at all.
    open spec fn path_spec(&self) -> Seq<PathEvent> {
        if self.points@.len() == 0 {
            Seq::<PathEvent>::empty()
        } else {
            let base = Seq::new(
                self.points@.len(),
                |i: int|
                    if i == 0 {
                        PathEvent::MoveTo(self.spec_point(0))
                    } else {
                        PathEvent::LineTo(self.spec_point(i))
                    },
            );
            if self.closed {
                base.push(PathEvent::Close)
            } else {
                base
            }
        }
    }

    fn generate_path(&self) -> (p: CanvasPath) {
        let mut events: Vec<PathEvent> = Vec::new();
        let n = self.points.len();
        let mut i: usize = 0;
        while i < n
            invariant
                n == self.points@.len(),
                i <= n,
                self.wf(),
                events@.len() == i,
                forall|j: int|
                    0 <= j < i ==> events@[j] == (if j == 0 {
                        PathEvent::MoveTo(self.spec_point(0))
                    } else {
                        PathEvent::LineTo(self.spec_point(j))
                    }),
            decreases n - i,
        {
            let q = Vec2 {
                x: self.points[i].x + self.origin.x,
                y: self.points[i].y + self.origin.y,
            };
            if i == 0 {
                events.push(PathEvent::MoveTo(q));
            } else {
                events.push(PathEvent::LineTo(q));
            }
            i = i + 1;
        }
        if self.closed && n > 0 {
            events.push(PathEvent::Close);
        }
        proof {
            assert(events@ =~= self.path_spec());
        }
        CanvasPath { events }
    }
}

/// Zero or one vertices leave nothing to draw: the polygon's path then
/// holds no drawable segment (and drawing it appends nothing that could
/// crash the frame).
pub proof fn lemma_degenerate_polygon_has_no_drawable_segments(poly: Polygon)
    requires
        poly.points@.len() <= 1,
    ensures
        no_drawable_segments(poly.path_spec()),
{
}

/// The base feature of a regular polygon that will be used to determine
/// its size. Values are in integer canvas units and must be nonnegative.
#[derive(Clone, Copy, Debug, PartialEq, Eq, Structural)]
pub enum RegularPolygonFeature {
    /// The radius of the polygon's circumcircle.
    Radius(i32),
    /// The radius of the polygon's incircle.
    Apothem(i32),
    /// The length of the polygon's side.
    SideLength(i32),
}

/// A regular polygon described by its center, its number of sides (at
/// least three) and one sizing feature.
#[derive(Clone, Copy, Debug, PartialEq, Eq, Structural)]
pub struct RegularPolygon {
    pub center: Vec2,
    /// The number of sides.
    pub sides: usize,
    /// The radius, apothem or side length of the polygon.
    pub feature: RegularPolygonFeature,
}

/// Most sides a regular polygon may have.
pub const REGULAR_POLYGON_MAX_SIDES: usize = 65535;

/// The angle pi/n, as a fraction of a turn in 1/2^32-turn units.
pub open spec fn spec_side_ratio_turn(n: int) -> int {
    0x1_0000_0000int / (2 * n)
}

impl RegularPolygon {
    /// The sizing feature's raw value.
    pub open spec fn spec_feature_value(self) -> int {
        match self.feature {
            RegularPolygonFeature::Radius(r) => r as int,
            RegularPolygonFeature::Apothem(a) => a as int,
            RegularPolygonFeature::SideLength(s) => s as int,
        }
    }

    /// The circumradius derived from the sizing feature, in the library's
    /// Q30 fixed-point arithmetic. With `ratio = pi/sides`, an apothem
    /// `a` gives `a * tan(ratio) / sin(ratio)` and a side length `s`
    /// gives `s / (2 * sin(ratio))`, evaluated exactly in that form. A
    /// sine or cosine that is not positive (impossible for three or more
    /// sides, up to fixed-point error) is guarded to zero rather than
    /// divided by.
    pub open spec fn spec_radius(self) -> int {
        let t = spec_side_ratio_turn(self.sides as int);
        let s = crate::trig::spec_sin_turn(t);
        let c = crate::trig::spec_cos_turn(t);
        let one = crate::trig::ONE_Q30 as int;
        match self.feature {
            RegularPolygonFeature::Radius(r) => r as int,
            RegularPolygonFeature::Apothem(a) => if s <= 0 || c <= 0 {
                0
            } else {
                a * (s * one / c) / s
            },
            RegularPolygonFeature::SideLength(l) => if s <= 0 {
                0
            } else {
                l * one / (2 * s)
            },
        }
    }

    /// The angle of vertex `i`, in 1/2^32-turn units: `offset + i * step`
    /// reduced to one turn, where `step` is `1/n` turn and `offset` is
    /// minus half the polygon's internal angle, so that one edge lays
    /// flat, parallel to the x-axis.
    pub open spec fn spec_vertex_turn(n: int, i: int) -> int {
        ((4 * i + 3 * n + 2) % (4 * n)) * 0x1_0000_0000 / (4 * n)
    }

    /// Vertex `i`: the center offset by the circumradius at the vertex
    /// angle, each axis rounded towards zero.
    pub open spec fn spec_vertex(self, i: int) -> Vec2 {
        let t = Self::spec_vertex_turn(self.sides as int, i);
        let r = self.spec_radius();
        let c = crate::trig::spec_cos_turn(t);
        let s = crate::trig::spec_sin_turn(t);
        let one = crate::trig::ONE_Q30 as int;
        let dx = if c >= 0 {
            r * c / one
        } else {
            -(r * (-c) / one)
        };
        let dy = if s >= 0 {
            r * s / one
        } else {
            -(r * (-s) / one)
        };
        Vec2 { x: (self.center.x + dx) as i32, y: (self.center.y + dy) as i32 }
    }

    /// Calculates the circumradius of the regular polygon from its shape
    /// feature.
    pub fn radius(&self) -> (r: i32)
        requires
            self.wf(),
        ensures
            r as int == self.spec_radius(),
    {
        let one: u64 = crate::trig::ONE_Q30 as u64;
        let n: u64 = self.sides as u64;
        proof {
            vstd::arithmetic::div_mod::lemma_div_pos_is_pos(0x1_0000_0000, 2 * n as int);
            vstd::arithmetic::div_mod::lemma_div_is_ordered(
                0x1_0000_0000,
                0x1_0000_0000,
                2 * n as int,
            );
            vstd::arithmetic::div_mod::lemma_div_is_ordered_by_denominator(0x1_0000_0000, 6, 2 * n as int);
        }
        let t: u32 = (0x1_0000_0000u64 / (2 * n)) as u32;
        let (c, s) = crate::trig::cos_sin_turn(t);
        match self.feature {
            RegularPolygonFeature::Radius(r) => r,
            RegularPolygonFeature::Apothem(a) => {
                if s <= 0 || c <= 0 {
                    0
                } else {
                    proof {
                        assert(0 <= a <= crate::COORD_MAX);
                    }
                    let tan: u64 = (s as u64) * one / (c as u64);
                    proof {
                        assert(0 < s as u128);
                        assert((a as u128) * (tan as u128) < 0x1_0000_0000_0000_0000_0000_0000u128)
                            by (nonlinear_arith)
                            requires 0 <= a <= 0x8000, tan <= 0xFFFF_FFFF_FFFF_FFFFu64;
                    }
                    let prod: u128 = (a as u128) * (tan as u128);
                    let r128: u128 = prod / (s as u128);
                    proof {
                        vstd::arithmetic::div_mod::lemma_div_pos_is_pos(
                            a as int * (s as int * one as int / c as int),
                            s as int,
                        );
                        vstd::arithmetic::mul::lemma_mul_nonnegative(a as int, s as int * one as int / c as int);
                        vstd::arithmetic::div_mod::lemma_div_pos_is_pos(s as int * one as int, c as int);
                    }
                    r128 as i32
                }
            },
            RegularPolygonFeature::SideLength(l) => {
                if s <= 0 {
                    0
                } else {
                    proof {
                        assert(0 <= l <= crate::COORD_MAX);
                    }
                    let r128: u128 = (l as u128) * (one as u128) / (2 * (s as u128));
                    proof {
                        vstd::arithmetic::div_mod::lemma_div_pos_is_pos(
                            l as int * one as int,
                            2 * s as int,
                        );
                        vstd::arithmetic::mul::lemma_mul_nonnegative(l as int, one as int);
                    }
                    r128 as i32
                }
            },
        }
    }
}


/// The core of the feature-conversion round trip, over the raw Q30
/// values: for positive sine and cosine values `s` and `c` and a
/// nonnegative apothem `a`, the stated formula `a * tan / sin` — with
/// `tan` computed as `s * ONE / c` — never exceeds the direct form
/// `a * ONE / c` (that is, `a / cos`), and falls short of it by at most
/// `a / s + 1`, the error the two integer divisions can accumulate.
pub proof fn lemma_apothem_formula_matches_direct(a: int, s: int, c: int)
    requires
        0 <= a,
        0 < s,
        0 < c,
    ensures
        a * (s * (crate::trig::ONE_Q30 as int) / c) / s <= a * (crate::trig::ONE_Q30 as int) / c,
        a * (crate::trig::ONE_Q30 as int) / c - a * (s * (crate::trig::ONE_Q30 as int) / c) / s
            <= a / s + 1,
{
    let o = crate::trig::ONE_Q30 as int;
    let t = s * o / c;
    let r = a * t / s;
    let d = a * o / c;
    vstd::arithmetic::mul::lemma_mul_nonnegative(s, o);
    vstd::arithmetic::div_mod::lemma_div_pos_is_pos(s * o, c);
    vstd::arithmetic::mul::lemma_mul_nonnegative(a, t);
    vstd::arithmetic::div_mod::lemma_div_pos_is_pos(a * t, s);
    vstd::arithmetic::mul::lemma_mul_nonnegative(a, o);
    vstd::arithmetic::div_mod::lemma_div_pos_is_pos(a * o, c);
    vstd::arithmetic::div_mod::lemma_fundamental_div_mod(s * o, c);
    vstd::arithmetic::div_mod::lemma_mod_bound(s * o, c);
    vstd::arithmetic::div_mod::lemma_fundamental_div_mod(a * t, s);
    vstd::arithmetic::div_mod::lemma_mod_bound(a * t, s);
    vstd::arithmetic::div_mod::lemma_fundamental_div_mod(a * o, c);
    vstd::arithmetic::div_mod::lemma_mod_bound(a * o, c);
    vstd::arithmetic::div_mod::lemma_fundamental_div_mod(a, s);
    vstd::arithmetic::div_mod::lemma_mod_bound(a, s);
    // the exact division facts, as pure inequalities
    assert(c * t <= s * o && s * o < c * t + c);
    assert(s * r <= a * t && a * t < s * r + s);
    assert(c * d <= a * o && a * o < c * d + c);
    assert(s * (a / s) <= a && a < s * (a / s) + s);
    // upper bound: r <= d
    assert(r <= d) by (nonlinear_arith)
        requires
            0 <= a,
            0 < s,
            0 < c,
            c * t <= s * o,
            s * r <= a * t,
            a * o < c * d + c,
    ;
    // lower bound: d - r <= a / s + 1
    assert(d - r <= a / s + 1) by (nonlinear_arith)
        requires
            0 <= a,
            0 < s,
            0 < c,
            0 <= t,
            0 <= r,
            0 <= d,
            s * o < c * t + c,
            a * t < s * r + s,
            c * d <= a * o,
            s * (a / s) <= a && a < s * (a / s) + s,
    ;
}

/// At the half side angle pi/n, the library's fixed-point sine and
/// cosine are positive for every admissible side count: the angle lies
/// strictly inside the first quarter turn.
pub proof fn lemma_side_ratio_sin_cos_positive(n: int)
    requires
        3 <= n <= REGULAR_POLYGON_MAX_SIDES as int,
    ensures
        0 < crate::trig::spec_sin_turn(spec_side_ratio_turn(n)),
        0 < crate::trig::spec_cos_turn(spec_side_ratio_turn(n)),
{
    let t = spec_side_ratio_turn(n);
    vstd::arithmetic::div_mod::lemma_div_is_ordered_by_denominator(0x1_0000_0000, 6, 2 * n);
    vstd::arithmetic::div_mod::lemma_div_is_ordered_by_denominator(0x1_0000_0000, 2 * n, 131070);
    assert(32768 <= t <= 715827882);
    crate::trig::lemma_first_quadrant_positive(t);
}

/// Law (feature-conversion round trip): a regular polygon sized via
/// `Apothem(a)` has the circumradius the stated formula
/// `a * tan(pi/n) / sin(pi/n)` gives, and that radius agrees with the
/// direct form `a / cos(pi/n)` — here `a * ONE / c` over the fixed-point
/// cosine — within the accumulated division error of at most `a / s + 1`
/// canvas units.
pub proof fn lemma_apothem_radius_round_trip(p: RegularPolygon, a: i32)
    requires
        p.feature == RegularPolygonFeature::Apothem(a),
        0 <= a,
        3 <= p.sides <= REGULAR_POLYGON_MAX_SIDES,
    ensures
        ({
            let t = spec_side_ratio_turn(p.sides as int);
            let s = crate::trig::spec_sin_turn(t);
            let c = crate::trig::spec_cos_turn(t);
            let direct = a as int * (crate::trig::ONE_Q30 as int) / c;
            direct - a as int / s - 1 <= p.spec_radius() <= direct
        }),
{
    let t = spec_side_ratio_turn(p.sides as int);
    let s = crate::trig::spec_sin_turn(t);
    let c = crate::trig::spec_cos_turn(t);
    lemma_side_ratio_sin_cos_positive(p.sides as int);
    lemma_apothem_formula_matches_direct(a as int, s, c);
}

/// Law: the vertices of a regular polygon are evenly spaced. Successive
/// vertex angles differ by exactly one `n`-th of a turn: in quarter
/// degrees of the stated angle rule, the numerator advances by 4 modulo
/// `4 * n` from each vertex to the next.
pub proof fn lemma_regular_polygon_vertices_evenly_spaced(n: int, i: int)
    requires
        3 <= n,
        0 <= i < n - 1,
    ensures
        (4 * (i + 1) + 3 * n + 2) % (4 * n) == ((4 * i + 3 * n + 2) % (4 * n) + 4) % (4 * n),
{
    let m = 4 * n;
    vstd::arithmetic::div_mod::lemma_add_mod_noop(4 * i + 3 * n + 2, 4, m);
    vstd::arithmetic::div_mod::lemma_small_mod(4nat, m as nat);
}

impl Geometry for RegularPolygon {
    /// At least three sides (fewer is a caller contract violation), a
    /// bounded side count, a nonnegative in-range feature value, and a
    /// derived circumradius that keeps every vertex within the canvas
    /// range.
    open spec fn wf(&self) -> bool {
        3 <= self.sides <= REGULAR_POLYGON_MAX_SIDES && 0 <= self.spec_feature_value()
            <= crate::COORD_MAX && 0 <= self.spec_radius() <= crate::COORD_MAX && coord_in_range(
            self.center.x - self.spec_radius(),
        ) && coord_in_range(self.center.x + self.spec_radius()) && coord_in_range(
            self.center.y - self.spec_radius(),
        ) && coord_in_range(self.center.y + self.spec_radius())
    }

    /// A closed polygon, winding positive, through the `sides` vertices
    /// in angular order.
    open spec fn path_spec(&self) -> Seq<PathEvent> {
        Seq::new(
            self.sides as nat,
            |i: int|
                if i == 0 {
                    PathEvent::MoveTo(self.spec_vertex(0))
                } else {
                    PathEvent::LineTo(self.spec_vertex(i))
                },
        ).push(PathEvent::Close)
    }

    fn generate_path(&self) -> (p: CanvasPath) {
        let r = self.radius();
        let one: u64 = crate::trig::ONE_Q30 as u64;
        let n: usize = self.sides;
        let mut events: Vec<PathEvent> = Vec::new();
        let mut i: usize = 0;
        while i < n
            invariant
                n == self.sides,
                self.wf(),
                r as int == self.spec_radius(),
                one == crate::trig::ONE_Q30 as u64,
                i <= n,
                events@.len() == i,
                crate::geometry::events_in_range(events@),
                forall|j: int|
                    0 <= j < i ==> events@[j] == (if j == 0 {
                        PathEvent::MoveTo(self.spec_vertex(0))
                    } else {
                        PathEvent::LineTo(self.spec_vertex(j))
                    }),
            decreases n - i,
        {
            let m: u64 = (4 * (i as u64) + 3 * (n as u64) + 2) % (4 * (n as u64));
            proof {
                vstd::arithmetic::div_mod::lemma_mod_bound(
                    4 * (i as int) + 3 * (n as int) + 2,
                    4 * (n as int),
                );
                vstd::arithmetic::mul::lemma_mul_strict_inequality(
                    m as int,
                    4 * (n as int),
                    0x1_0000_0000,
                );
                vstd::arithmetic::div_mod::lemma_multiply_divide_lt(
                    m as int * 0x1_0000_0000,
                    4 * (n as int),
                    0x1_0000_0000,
                );
                vstd::arithmetic::mul::lemma_mul_nonnegative(m as int, 0x1_0000_0000);
                vstd::arithmetic::div_mod::lemma_div_pos_is_pos(
                    m as int * 0x1_0000_0000,
                    4 * (n as int),
                );
            }
            let t: u32 = ((m * 0x1_0000_0000u64) / (4 * (n as u64))) as u32;
            let (c, s) = crate::trig::cos_sin_turn(t);
            let dx: i32 = if c >= 0 {
                proof {
                    crate::trig::lemma_scale_by_unit_fraction(r as int, c as int);
                }
                ((r as u64) * (c as u64) / one) as i32
            } else {
                proof {
                    crate::trig::lemma_scale_by_unit_fraction(r as int, -c as int);
                }
                -(((r as u64) * ((-c) as u64) / one) as i32)
            };
            let dy: i32 = if s >= 0 {
                proof {
                    crate::trig::lemma_scale_by_unit_fraction(r as int, s as int);
                }
                ((r as u64) * (s as u64) / one) as i32
            } else {
                proof {
                    crate::trig::lemma_scale_by_unit_fraction(r as int, -s as int);
                }
                -(((r as u64) * ((-s) as u64) / one) as i32)
            };
            let q = Vec2 { x: self.center.x + dx, y: self.center.y + dy };
            proof {
                assert(q == self.spec_vertex(i as int));
                assert(q.in_range());
            }
            if i == 0 {
                events.push(PathEvent::MoveTo(q));
            } else {
                events.push(PathEvent::LineTo(q));
            }
            i = i + 1;
        }
        events.push(PathEvent::Close);
        proof {
            assert(events@ =~= self.path_spec());
        }
        CanvasPath { events }
    }
}

/// A line segment described by its endpoints.
#[derive(Clone, Copy, Debug, PartialEq, Eq, Structural)]
pub struct Line(pub Vec2, pub Vec2);

impl Geometry for Line {
    open spec fn wf(&self) -> bool {
        self.0.in_range() && self.1.in_range()
    }

    /// An open two-point polyline: a move to the first endpoint and one
    /// straight segment to the second. Never closed.
    open spec fn path_spec(&self) -> Seq<PathEvent> {
        seq![PathEvent::MoveTo(self.0), PathEvent::LineTo(self.1)]
    }

    fn generate_path(&self) -> (p: CanvasPath) {
        let mut events: Vec<PathEvent> = Vec::new();
        events.push(PathEvent::MoveTo(self.0));
        events.push(PathEvent::LineTo(self.1));
        proof {
            assert(events@ =~= self.path_spec());
        }
        CanvasPath { events }
    }
}

/// A line's path is always open: exactly two events, a move and one
/// straight segment, and no closing command, whatever the endpoints.
pub proof fn lemma_line_path_is_open(line: Line)
    ensures
        line.path_spec().len() == 2,
        line.path_spec()[0] is MoveTo,
        line.path_spec()[1] is LineTo,
        forall|i: int| 0 <= i < line.path_spec().len() ==> !(#[trigger] line.path_spec()[i] is Close),
{
}


impl Default for RectangleAnchor {
    fn default() -> (a: RectangleAnchor)
        ensures
            a == RectangleAnchor::Center,
    {
        RectangleAnchor::Center
    }
}

impl Default for Rectangle {
    fn default() -> (r: Rectangle)
        ensures
            r == (Rectangle {
                origin: Vec2 { x: 0, y: 0 },
                extents: Vec2 { x: 1, y: 1 },
                anchor_point: RectangleAnchor::Center,
            }),
            r.wf(),
    {
        Rectangle {
            origin: Vec2 { x: 0, y: 0 },
            extents: Vec2 { x: 1, y: 1 },
            anchor_point: RectangleAnchor::Center,
        }
    }
}

impl Default for Circle {
    fn default() -> (c: Circle)
        ensures
            c == (Circle { center: Vec2 { x: 0, y: 0 }, radius: 1 }),
            c.wf(),
    {
        Circle { center: Vec2 { x: 0, y: 0 }, radius: 1 }
    }
}

impl Default for Ellipse {
    fn default() -> (e: Ellipse)
        ensures
            e == (Ellipse { center: Vec2 { x: 0, y: 0 }, radii: Vec2 { x: 1, y: 1 } }),
            e.wf(),
    {
        Ellipse { center: Vec2 { x: 0, y: 0 }, radii: Vec2 { x: 1, y: 1 } }
    }
}

impl Default for Polygon {
    fn default() -> (p: Polygon)
        ensures
            p.origin == (Vec2 { x: 0, y: 0 }),
            p.points@ == Seq::<Vec2>::empty(),
            p.closed,
            p.wf(),
    {
        Polygon { origin: Vec2 { x: 0, y: 0 }, points: Vec::new(), closed: true }
    }
}

impl Default for RegularPolygon {
    fn default() -> (p: RegularPolygon)
        ensures
            p == (RegularPolygon {
                center: Vec2 { x: 0, y: 0 },
                sides: 3,
                feature: RegularPolygonFeature::Radius(1),
            }),
            p.wf(),
    {
        RegularPolygon {
            center: Vec2 { x: 0, y: 0 },
            sides: 3,
            feature: RegularPolygonFeature::Radius(1),
        }
    }
}

} // verus!
