//! The boundary to the `lyon_tessellation` crate.
//!
//! Everything the library asks of lyon goes through the trusted items of
//! this module: building a lyon path from the library's recorded drawing
//! commands, and running the fill and stroke tessellators over it. The
//! names `lyon_path_of`, `fill_of_path` and `stroke_of_path` stand for
//! the results of those calls, which are deterministic functions of the
//! commands and options handed over; the library's own contracts are
//! stated over these names. Coordinates cross the boundary as 16-bit
//! integers widened losslessly to single precision; positions come back
//! as the bit patterns of the single-precision values the tessellator
//! produced.

use vstd::prelude::*;

use crate::canvas::{CapStyle, JoinStyle};
use crate::geometry::{events_in_range, PathEvent, Vec2};
use crate::mesh::RawVertex;

verus! {

#[verifier::external_type_specification]
#[verifier::external_body]
pub struct ExLyonPath(lyon_tessellation::path::Path);

#[verifier::external_type_specification]
#[verifier::external_body]
pub struct ExUnknownUnit(lyon_tessellation::geom::euclid::UnknownUnit);

#[verifier::reject_recursive_types(T)]
#[verifier::reject_recursive_types(U)]
#[verifier::external_type_specification]
#[verifier::external_body]
pub struct ExPoint2D<T, U>(lyon_tessellation::geom::euclid::Point2D<T, U>);

#[verifier::reject_recursive_types(T)]
#[verifier::reject_recursive_types(U)]
#[verifier::external_type_specification]
#[verifier::external_body]
pub struct ExVector2D<T, U>(lyon_tessellation::geom::euclid::Vector2D<T, U>);

#[verifier::reject_recursive_types(T)]
#[verifier::external_type_specification]
#[verifier::external_body]
pub struct ExAngle<T>(lyon_tessellation::geom::euclid::Angle<T>);

#[verifier::external_type_specification]
#[verifier::external_body]
pub struct ExLineCap(lyon_tessellation::LineCap);

#[verifier::external_type_specification]
#[verifier::external_body]
pub struct ExLineJoin(lyon_tessellation::LineJoin);

/// The lyon path that replaying the given drawing commands through
/// lyon's SVG path builder produces. Deterministic in the commands.
pub uninterp spec fn lyon_path_of(events: Seq<PathEvent>) -> lyon_tessellation::path::Path;

/// What lyon's fill tessellator returns for a path: `None` where it
/// reports an error, else the fresh mesh it produced (positions as
/// single-precision bit patterns, and zero-based index triples).
/// Deterministic in the path, the fill rule and the tolerance.
pub uninterp spec fn fill_of_path(
    p: lyon_tessellation::path::Path,
    even_odd: bool,
    tolerance: int,
) -> Option<(Seq<RawVertex>, Seq<u32>)>;

/// What lyon's stroke tessellator returns for a path, a line width, the
/// cap and join styles and a tolerance; `None` where it reports an
/// error. Deterministic in those arguments.
pub uninterp spec fn stroke_of_path(
    p: lyon_tessellation::path::Path,
    width: int,
    cap: CapStyle,
    join: JoinStyle,
    tolerance: int,
) -> Option<(Seq<RawVertex>, Seq<u32>)>;

/// The start and end points of the arc that the SVG path builder emits
/// for a pen position, a center, radii, a sweep and an axis rotation,
/// each rounded to the nearest canvas unit. Deterministic in the
/// arguments.
pub uninterp spec fn arc_span_of(
    pen: Vec2,
    center: Vec2,
    radii: Vec2,
    sweep_degrees: int,
    x_rotation_degrees: int,
) -> (Vec2, Vec2);

/// The mathematical view of a tessellation result.
pub open spec fn mesh_view(r: Option<(Vec<RawVertex>, Vec<u32>)>) -> Option<
    (Seq<RawVertex>, Seq<u32>),
> {
    match r {
        Some(m) => Some((m.0@, m.1@)),
        None => None,
    }
}

/// A produced mesh is internally consistent: the vertex count fits the
/// 32-bit index space, the indices come in whole triangles, and each
/// index refers to a vertex of the same mesh.
pub open spec fn mesh_wf(m: Option<(Seq<RawVertex>, Seq<u32>)>) -> bool {
    match m {
        None => true,
        Some(p) => p.0.len() <= u32::MAX && p.1.len() % 3 == 0 && forall|i: int|
            0 <= i < p.1.len() ==> (#[trigger] p.1[i] as int) < p.0.len(),
    }
}

/// Relies on lyon's `math::point`: the single-precision point for a pair
/// of in-range integer canvas coordinates; 16-bit integers widen
/// losslessly.
#[verifier::external_body]
fn to_point(v: Vec2) -> lyon_tessellation::math::Point
    requires
        v.in_range(),
{
    lyon_tessellation::math::point((v.x as i16).into(), (v.y as i16).into())
}

/// Relies on lyon's `math::vector`, as `to_point` on `math::point`.
#[verifier::external_body]
fn to_vector(v: Vec2) -> lyon_tessellation::math::Vector
    requires
        v.in_range(),
{
    lyon_tessellation::math::vector((v.x as i16).into(), (v.y as i16).into())
}

/// Relies on lyon's `Angle::degrees`: the angle for a whole number of
/// degrees (bounded, so the 16-bit conversion is lossless).
#[verifier::external_body]
fn to_angle(degrees: i32) -> lyon_tessellation::math::Angle
    requires
        -32767 <= degrees <= 32767,
{
    lyon_tessellation::math::Angle::degrees((degrees as i16).into())
}

/// Relies on lyon's `LineCap`: one lyon cap for each cap style of the
/// library, variant for variant.
#[verifier::external_body]
fn to_lyon_cap(cap: CapStyle) -> lyon_tessellation::LineCap {
    match cap { CapStyle::Butt => lyon_tessellation::LineCap::Butt, CapStyle::Round => lyon_tessellation::LineCap::Round, CapStyle::Square => lyon_tessellation::LineCap::Square }
}

/// Relies on lyon's `LineJoin`: one lyon join for each join style of the
/// library, variant for variant.
#[verifier::external_body]
fn to_lyon_join(join: JoinStyle) -> lyon_tessellation::LineJoin {
    match join { JoinStyle::Miter => lyon_tessellation::LineJoin::Miter, JoinStyle::Round => lyon_tessellation::LineJoin::Round, JoinStyle::Bevel => lyon_tessellation::LineJoin::Bevel }
}

/// Relies on lyon_geom's `Arc` (its `from` and `to` points): the start
/// and end of the arc the SVG builder emits for these parameters — the
/// start angle is derived from the pen's direction seen from the center,
/// exactly as the builder derives it — rounded to the nearest canvas
/// unit. Both points lie on the ellipse, so they stay within the radii's
/// combined reach of the center.
#[verifier::external_body]
pub(crate) fn arc_span(pen: Vec2, center: Vec2, radii: Vec2, sweep_degrees: i32, x_rotation_degrees: i32) -> (r: (Vec2, Vec2))
    requires
        pen.in_range(),
        center.in_range(),
        radii.in_range(),
        0 <= radii.x,
        0 <= radii.y,
        -32767 <= sweep_degrees <= 32767,
        -32767 <= x_rotation_degrees <= 32767,
    ensures
        r == arc_span_of(pen, center, radii, sweep_degrees as int, x_rotation_degrees as int),
        center.x - (radii.x + radii.y + 2) <= r.0.x <= center.x + radii.x + radii.y + 2,
        center.y - (radii.x + radii.y + 2) <= r.0.y <= center.y + radii.x + radii.y + 2,
        center.x - (radii.x + radii.y + 2) <= r.1.x <= center.x + radii.x + radii.y + 2,
        center.y - (radii.x + radii.y + 2) <= r.1.y <= center.y + radii.x + radii.y + 2,
{
    let ctr = to_point(center);
    let start = (to_point(pen) - ctr).angle_from_x_axis() - to_angle(x_rotation_degrees);
    let arc = lyon_tessellation::geom::Arc { center: ctr, radii: to_vector(radii), start_angle: start, sweep_angle: to_angle(sweep_degrees), x_rotation: to_angle(x_rotation_degrees) };
    let f = arc.from();
    let t = arc.to();
    (Vec2 { x: f.x.round() as i32, y: f.y.round() as i32 }, Vec2 { x: t.x.round() as i32, y: t.y.round() as i32 })
}

/// Relies on lyon_path's SVG path builder (`Path::svg_builder` and its
/// `move_to`, `line_to`, `quadratic_bezier_to`, `cubic_bezier_to`,
/// `arc`, `close` and `build`): replaying the recorded commands in order
/// builds the path they denote, `lyon_path_of(events@)`.
#[verifier::external_body]
pub(crate) fn svg_path(events: &Vec<PathEvent>) -> (p: lyon_tessellation::path::Path)
    requires
        events_in_range(events@),
    ensures
        p == lyon_path_of(events@),
{
    let mut b = lyon_tessellation::path::Path::svg_builder();
    for e in events.iter() {
        match *e {
            PathEvent::MoveTo(q) => { b.move_to(to_point(q)); },
            PathEvent::LineTo(q) => { b.line_to(to_point(q)); },
            PathEvent::QuadraticTo(c, q) => { b.quadratic_bezier_to(to_point(c), to_point(q)); },
            PathEvent::CubicTo(c1, c2, q) => { b.cubic_bezier_to(to_point(c1), to_point(c2), to_point(q)); },
            PathEvent::Arc(c, r, s, x) => b.arc(to_point(c), to_vector(r), to_angle(s), to_angle(x)),
            PathEvent::Close => b.close(),
        }
    }
    b.build()
}

/// Relies on lyon's `FillTessellator::tessellate_path` writing through a
/// `BuffersBuilder` into a fresh `VertexBuffers`: it fills the path's
/// interior by fill rule and flattening tolerance, deterministically;
/// indices are pushed three at a time and refer to vertices added by the
/// same call (at most `u32::MAX` of them, else it errors); on an error
/// the partial output is discarded and `None` comes back.
#[verifier::external_body]
pub(crate) fn tessellate_fill(path: &lyon_tessellation::path::Path, even_odd: bool, tolerance: i32) -> (r:
    Option<(Vec<RawVertex>, Vec<u32>)>)
    requires
        1 <= tolerance <= crate::COORD_MAX,
    ensures
        mesh_view(r) == fill_of_path(*path, even_odd, tolerance as int),
        mesh_wf(mesh_view(r)),
{
    let rule = if even_odd { lyon_tessellation::FillRule::EvenOdd } else { lyon_tessellation::FillRule::NonZero };
    let opts = lyon_tessellation::FillOptions::default().with_fill_rule(rule).with_tolerance((tolerance as i16).into());
    let mut buf = lyon_tessellation::VertexBuffers::new();
    let mut out = lyon_tessellation::BuffersBuilder::new(&mut buf, |v: lyon_tessellation::FillVertex| RawVertex { x_bits: v.position().x.to_bits(), y_bits: v.position().y.to_bits() });
    match lyon_tessellation::FillTessellator::new().tessellate_path(path, &opts, &mut out) {
        Ok(_) => Some((buf.vertices, buf.indices)),
        Err(_) => None,
    }
}

/// Relies on lyon's `StrokeTessellator::tessellate_path`, as
/// `tessellate_fill` on the fill tessellator: it expands the path's
/// centerline into a ribbon of the given width with the given caps and
/// joins, deterministically, with the same output discipline.
#[verifier::external_body]
pub(crate) fn tessellate_stroke(
    path: &lyon_tessellation::path::Path,
    width: i32,
    cap: CapStyle,
    join: JoinStyle,
    tolerance: i32,
) -> (r: Option<(Vec<RawVertex>, Vec<u32>)>)
    requires
        1 <= width <= crate::COORD_MAX,
        1 <= tolerance <= crate::COORD_MAX,
    ensures
        mesh_view(r) == stroke_of_path(*path, width as int, cap, join, tolerance as int),
        mesh_wf(mesh_view(r)),
{
    let opts = lyon_tessellation::StrokeOptions::default().with_line_width((width as i16).into()).with_line_cap(to_lyon_cap(cap)).with_line_join(to_lyon_join(join)).with_tolerance((tolerance as i16).into());
    let mut buf = lyon_tessellation::VertexBuffers::new();
    let mut out = lyon_tessellation::BuffersBuilder::new(&mut buf, |v: lyon_tessellation::StrokeVertex| RawVertex { x_bits: v.position().x.to_bits(), y_bits: v.position().y.to_bits() });
    match lyon_tessellation::StrokeTessellator::new().tessellate_path(path, &opts, &mut out) {
        Ok(_) => Some((buf.vertices, buf.indices)),
        Err(_) => None,
    }
}

} // verus!
