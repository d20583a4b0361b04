//! Shape-to-path translation: exact event sequences and numeric rules.

use canvas2d::common_shapes::{
    Circle, Ellipse, Line, Polygon, Rectangle, RectangleAnchor, RegularPolygon,
    RegularPolygonFeature,
};
use canvas2d::{Geometry, PathEvent, Vec2};

fn v(x: i32, y: i32) -> Vec2 {
    Vec2 { x, y }
}

fn rect_events(anchor: RectangleAnchor) -> Vec<PathEvent> {
    Rectangle {
        origin: v(10, 20),
        extents: v(100, 60),
        anchor_point: anchor,
    }
    .generate_path()
    .events
}

#[test]
fn rectangle_center_anchor() {
    assert_eq!(
        rect_events(RectangleAnchor::Center),
        vec![
            PathEvent::MoveTo(v(-40, -10)),
            PathEvent::LineTo(v(60, -10)),
            PathEvent::LineTo(v(60, 50)),
            PathEvent::LineTo(v(-40, 50)),
            PathEvent::Close,
        ]
    );
}

#[test]
fn rectangle_corner_anchors_place_origin_on_matching_corner() {
    assert_eq!(
        rect_events(RectangleAnchor::BottomLeft)[0],
        PathEvent::MoveTo(v(10, 20))
    );
    assert_eq!(
        rect_events(RectangleAnchor::BottomRight)[1],
        PathEvent::LineTo(v(10, 20))
    );
    assert_eq!(
        rect_events(RectangleAnchor::TopRight)[2],
        PathEvent::LineTo(v(10, 20))
    );
    assert_eq!(
        rect_events(RectangleAnchor::TopLeft)[3],
        PathEvent::LineTo(v(10, 20))
    );
}

#[test]
fn rectangle_bounding_box_matches_extents() {
    for anchor in [
        RectangleAnchor::Center,
        RectangleAnchor::BottomLeft,
        RectangleAnchor::BottomRight,
        RectangleAnchor::TopRight,
        RectangleAnchor::TopLeft,
    ] {
        let events = rect_events(anchor);
        assert_eq!(events.len(), 5);
        let mut xs: Vec<i32> = Vec::new();
        let mut ys: Vec<i32> = Vec::new();
        for e in &events {
            match e {
                PathEvent::MoveTo(p) | PathEvent::LineTo(p) => {
                    xs.push(p.x);
                    ys.push(p.y);
                }
                PathEvent::Close => {}
                other => panic!("unexpected event {:?}", other),
            }
        }
        assert_eq!(xs.iter().max().unwrap() - xs.iter().min().unwrap(), 100);
        assert_eq!(ys.iter().max().unwrap() - ys.iter().min().unwrap(), 60);
    }
}

fn hexagon_vertices(feature: RegularPolygonFeature) -> Vec<(f64, f64)> {
    let shape = RegularPolygon {
        center: v(0, 0),
        sides: 6,
        feature,
    };
    let events = shape.generate_path().events;
    assert_eq!(events.len(), 7);
    assert_eq!(events[6], PathEvent::Close);
    events[..6]
        .iter()
        .map(|e| match e {
            PathEvent::MoveTo(p) | PathEvent::LineTo(p) => (p.x as f64, p.y as f64),
            other => panic!("unexpected event {:?}", other),
        })
        .collect()
}

#[test]
fn hexagon_vertices_lie_on_circumcircle() {
    let vs = hexagon_vertices(RegularPolygonFeature::Radius(10000));
    for &(x, y) in &vs {
        let dist = (x * x + y * y).sqrt();
        assert!(
            (dist - 10000.0).abs() < 3.0,
            "vertex ({x}, {y}) at distance {dist}"
        );
    }
}

#[test]
fn hexagon_consecutive_vertices_subtend_a_sixth_of_a_turn() {
    let vs = hexagon_vertices(RegularPolygonFeature::Radius(10000));
    let sixth = std::f64::consts::PI / 3.0;
    for i in 0..6 {
        let (x0, y0) = vs[i];
        let (x1, y1) = vs[(i + 1) % 6];
        let mut delta = y1.atan2(x1) - y0.atan2(x0);
        while delta < 0.0 {
            delta += 2.0 * std::f64::consts::PI;
        }
        assert!(
            (delta - sixth).abs() < 0.001,
            "angle between vertex {i} and its successor is {delta}"
        );
    }
    // the polygon lays flat: the first vertex sits at minus half the
    // internal angle, -60 degrees for a hexagon
    let (x0, y0) = vs[0];
    assert!((y0.atan2(x0) + sixth).abs() < 0.001);
}

#[test]
fn apothem_feature_round_trips_through_the_circumradius() {
    let n = 6usize;
    let a = 8660i32;
    let from_apothem = RegularPolygon {
        center: v(0, 0),
        sides: n,
        feature: RegularPolygonFeature::Apothem(a),
    }
    .radius();
    let ratio = std::f64::consts::PI / n as f64;
    let direct = (a as f64 / ratio.cos()).round() as i32;
    let from_radius = RegularPolygon {
        center: v(0, 0),
        sides: n,
        feature: RegularPolygonFeature::Radius(direct),
    }
    .radius();
    assert_eq!(from_radius, direct);
    assert!(
        (from_apothem - from_radius).abs() <= 2,
        "apothem-derived radius {from_apothem} vs direct {from_radius}"
    );
}

#[test]
fn side_length_feature_matches_the_stated_formula() {
    // r = s / (2 sin(pi/n)); for a hexagon sin(pi/6) = 1/2, so r = s
    let r = RegularPolygon {
        center: v(0, 0),
        sides: 6,
        feature: RegularPolygonFeature::SideLength(5000),
    }
    .radius();
    assert!((r - 5000).abs() <= 2, "hexagon side 5000 gave radius {r}");
}

#[test]
fn polygon_with_no_points_has_no_segments() {
    let p = Polygon {
        origin: v(0, 0),
        points: Vec::new(),
        closed: true,
    };
    assert_eq!(p.generate_path().events, vec![]);
}

#[test]
fn polygon_with_one_point_has_no_drawable_segments() {
    let p = Polygon {
        origin: v(5, 5),
        points: vec![v(1, 1)],
        closed: true,
    };
    let events = p.generate_path().events;
    assert_eq!(
        events,
        vec![PathEvent::MoveTo(v(6, 6)), PathEvent::Close]
    );
    let drawable = events
        .iter()
        .filter(|e| {
            !matches!(e, PathEvent::MoveTo(_)) && !matches!(e, PathEvent::Close)
        })
        .count();
    assert_eq!(drawable, 0);
}

#[test]
fn polygon_offsets_points_by_origin_in_order() {
    let p = Polygon {
        origin: v(100, -100),
        points: vec![v(0, 0), v(10, 0), v(10, 10)],
        closed: false,
    };
    assert_eq!(
        p.generate_path().events,
        vec![
            PathEvent::MoveTo(v(100, -100)),
            PathEvent::LineTo(v(110, -100)),
            PathEvent::LineTo(v(110, -90)),
        ]
    );
}

#[test]
fn line_is_always_an_open_two_point_path() {
    let l = Line(v(1, 2), v(30, 40));
    assert_eq!(
        l.generate_path().events,
        vec![PathEvent::MoveTo(v(1, 2)), PathEvent::LineTo(v(30, 40))]
    );
}

#[test]
fn zero_length_line_still_builds_its_path() {
    let l = Line(v(7, 7), v(7, 7));
    assert_eq!(
        l.generate_path().events,
        vec![PathEvent::MoveTo(v(7, 7)), PathEvent::LineTo(v(7, 7))]
    );
}

#[test]
fn circle_path_is_one_full_turn_arc() {
    let c = Circle {
        center: v(10, 20),
        radius: 5,
    };
    assert_eq!(
        c.generate_path().events,
        vec![
            PathEvent::MoveTo(v(15, 20)),
            PathEvent::Arc(v(10, 20), v(5, 5), 360, 0),
            PathEvent::Close,
        ]
    );
}

#[test]
fn ellipse_path_is_one_full_turn_arc_with_two_radii() {
    let e = Ellipse {
        center: v(0, 0),
        radii: v(40, 30),
    };
    assert_eq!(
        e.generate_path().events,
        vec![
            PathEvent::MoveTo(v(40, 0)),
            PathEvent::Arc(v(0, 0), v(40, 30), 360, 0),
            PathEvent::Close,
        ]
    );
}
