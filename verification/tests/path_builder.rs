//! The path builder: command recording and pen tracking.

use canvas2d::{PathBuilder, PathEvent, Vec2};

fn v(x: i32, y: i32) -> Vec2 {
    Vec2 { x, y }
}

#[test]
fn current_position_defaults_to_the_origin() {
    let b = PathBuilder::new();
    assert_eq!(b.current_position(), v(0, 0));
}

#[test]
fn builder_records_commands_in_order() {
    let mut b = PathBuilder::new();
    b.move_to(v(1, 1));
    b.line_to(v(10, 1));
    b.quadratic_bezier_to(v(15, 5), v(10, 10));
    b.cubic_bezier_to(v(5, 15), v(0, 15), v(1, 10));
    b.close();
    let path = b.build();
    assert_eq!(
        path.events,
        vec![
            PathEvent::MoveTo(v(1, 1)),
            PathEvent::LineTo(v(10, 1)),
            PathEvent::QuadraticTo(v(15, 5), v(10, 10)),
            PathEvent::CubicTo(v(5, 15), v(0, 15), v(1, 10)),
            PathEvent::Close,
        ]
    );
}

#[test]
fn pen_follows_segments_and_close_returns_to_subpath_start() {
    let mut b = PathBuilder::new();
    b.move_to(v(3, 4));
    assert_eq!(b.current_position(), v(3, 4));
    b.line_to(v(20, 4));
    assert_eq!(b.current_position(), v(20, 4));
    b.close();
    assert_eq!(b.current_position(), v(3, 4));
}

#[test]
fn endpoint_identifiers_are_distinct() {
    let mut b = PathBuilder::new();
    let a = b.move_to(v(0, 0));
    let c = b.line_to(v(5, 0));
    let d = b.line_to(v(5, 5));
    assert!(a != c && c != d && a != d);
}

#[test]
fn close_without_an_open_subpath_records_nothing() {
    let mut b = PathBuilder::new();
    b.close();
    assert_eq!(b.build().events, vec![]);
}

#[test]
fn arc_centered_on_the_pen_leaves_the_pen_in_place() {
    let mut b = PathBuilder::new();
    b.move_to(v(10, 10));
    b.arc(v(10, 10), v(5, 5), 360, 0);
    assert_eq!(b.current_position(), v(10, 10));
    assert_eq!(
        b.build().events,
        vec![
            PathEvent::MoveTo(v(10, 10)),
            PathEvent::Arc(v(10, 10), v(5, 5), 360, 0),
        ]
    );
}

#[test]
fn pen_follows_an_arc_to_its_endpoint() {
    let mut b = PathBuilder::new();
    b.move_to(v(0, 0));
    b.arc(v(10, 0), v(10, 10), 180, 0);
    assert_eq!(b.current_position(), v(20, 0));
}

#[test]
fn arc_away_from_the_pen_is_recorded_and_moves_the_pen() {
    let mut b = PathBuilder::new();
    b.move_to(v(20, 10));
    b.arc(v(10, 10), v(10, 10), 180, 0);
    assert_eq!(b.current_position(), v(0, 10));
    let path = b.build();
    assert_eq!(
        path.events,
        vec![
            PathEvent::MoveTo(v(20, 10)),
            PathEvent::Arc(v(10, 10), v(10, 10), 180, 0),
        ]
    );
}

#[test]
fn close_after_an_arc_returns_the_pen_to_the_subpath_start() {
    let mut b = PathBuilder::new();
    b.move_to(v(20, 10));
    b.arc(v(10, 10), v(10, 10), 90, 0);
    b.close();
    assert_eq!(b.current_position(), v(20, 10));
}

#[test]
fn default_builder_is_empty() {
    let b = PathBuilder::default();
    assert_eq!(b.current_position(), v(0, 0));
    assert_eq!(b.build().events, vec![]);
}
