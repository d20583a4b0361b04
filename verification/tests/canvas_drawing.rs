//! The drawing context: tessellation into the frame buffer, index
//! offsetting across draw calls, and the take-and-replace hand-off.

use canvas2d::common_shapes::{Circle, Line, Rectangle, RectangleAnchor};
use canvas2d::{
    Canvas, Color, DrawMode, FillOptions, FillRule, CapStyle, JoinStyle, StrokeOptions, Vec2, Vertex,
};

fn v(x: i32, y: i32) -> Vec2 {
    Vec2 { x, y }
}

const RED: Color = Color {
    red: 255,
    green: 0,
    blue: 0,
    alpha: 255,
};

fn unit_square() -> Rectangle {
    Rectangle {
        origin: v(0, 0),
        extents: v(100, 100),
        anchor_point: RectangleAnchor::BottomLeft,
    }
}

fn position(vertex: &Vertex) -> (f32, f32) {
    (
        f32::from_bits(vertex.x_bits),
        f32::from_bits(vertex.y_bits),
    )
}

#[test]
fn fill_of_a_square_covers_its_area_with_triangles() {
    let mut canvas = Canvas::default();
    let drawn = canvas.draw(&unit_square(), DrawMode::fill_simple(), RED);
    assert!(drawn, "a well-formed square must tessellate");
    let buffers = canvas.take_buffers();

    assert!(buffers.indices.len() >= 6, "at least two triangles");
    assert_eq!(buffers.indices.len() % 3, 0);

    let mut unique: Vec<(f32, f32)> = Vec::new();
    for vertex in &buffers.vertices {
        assert_eq!(vertex.color, RED);
        let p = position(vertex);
        if !unique.contains(&p) {
            unique.push(p);
        }
    }
    assert_eq!(unique.len(), 4, "a convex quad has four unique positions");

    let mut area = 0.0f64;
    for t in buffers.indices.chunks(3) {
        let (ax, ay) = position(&buffers.vertices[t[0] as usize]);
        let (bx, by) = position(&buffers.vertices[t[1] as usize]);
        let (cx, cy) = position(&buffers.vertices[t[2] as usize]);
        let cross = (bx as f64 - ax as f64) * (cy as f64 - ay as f64)
            - (cx as f64 - ax as f64) * (by as f64 - ay as f64);
        area += cross.abs() / 2.0;
    }
    assert!(
        (area - 10000.0).abs() < 1.0,
        "covered area {area} should equal the square's"
    );
}

#[test]
fn fill_rules_agree_on_a_simple_square() {
    let mut canvas = Canvas::default();
    canvas.draw(
        &unit_square(),
        DrawMode::Fill(FillOptions {
            fill_rule: FillRule::EvenOdd,
            tolerance: 1,
        }),
        RED,
    );
    let even_odd = canvas.take_buffers();
    canvas.draw(
        &unit_square(),
        DrawMode::Fill(FillOptions {
            fill_rule: FillRule::NonZero,
            tolerance: 1,
        }),
        RED,
    );
    let non_zero = canvas.take_buffers();
    assert_eq!(even_odd.vertices.len(), non_zero.vertices.len());
    assert_eq!(even_odd.indices.len(), non_zero.indices.len());
}

fn stroke_vertex_count(cap: CapStyle, tolerance: i32) -> usize {
    let mut canvas = Canvas::default();
    canvas.draw(
        &Line(v(0, 0), v(2000, 0)),
        DrawMode::Stroke(StrokeOptions {
            line_width: 200,
            line_cap: cap,
            line_join: JoinStyle::Miter,
            tolerance,
        }),
        RED,
    );
    canvas.take_buffers().vertices.len()
}

#[test]
fn round_caps_add_vertices_and_scale_with_tolerance() {
    let butt = stroke_vertex_count(CapStyle::Butt, 4);
    let round_coarse = stroke_vertex_count(CapStyle::Round, 16);
    let round_fine = stroke_vertex_count(CapStyle::Round, 1);
    assert!(
        round_coarse > butt,
        "round caps ({round_coarse}) need more vertices than butt caps ({butt})"
    );
    assert!(
        round_fine > round_coarse,
        "tolerance 1 ({round_fine}) must refine tolerance 16 ({round_coarse})"
    );
}

#[test]
fn zero_length_segment_appends_nothing_and_later_draws_land_correctly() {
    let mut canvas = Canvas::default();
    canvas.draw(&unit_square(), DrawMode::fill_simple(), RED);
    let after_first_vertices = canvas.vertex_buffers.vertices.len();
    let after_first_indices = canvas.vertex_buffers.indices.len();
    assert!(after_first_vertices > 0);

    canvas.draw(&Line(v(50, 50), v(50, 50)), DrawMode::fill_simple(), RED);
    assert_eq!(
        canvas.vertex_buffers.vertices.len(),
        after_first_vertices,
        "a zero-length segment appends no vertices"
    );
    assert_eq!(canvas.vertex_buffers.indices.len(), after_first_indices);

    canvas.draw(&unit_square(), DrawMode::fill_simple(), RED);
    let buffers = canvas.take_buffers();
    assert!(buffers.vertices.len() > after_first_vertices);
    let second_draw = &buffers.indices[after_first_indices..];
    assert!(!second_draw.is_empty());
    assert_eq!(
        second_draw.iter().min().copied().unwrap() as usize,
        after_first_vertices,
        "the second mesh's indices start at the first mesh's vertex count"
    );
    for &ix in &buffers.indices {
        assert!((ix as usize) < buffers.vertices.len());
    }
}

#[test]
fn take_and_replace_leaves_an_empty_buffer_and_resets_indexing() {
    let mut canvas = Canvas::default();
    canvas.draw(&unit_square(), DrawMode::fill_simple(), RED);
    let first = canvas.take_buffers();
    assert!(!first.vertices.is_empty());

    assert_eq!(canvas.vertex_buffers.vertices.len(), 0);
    assert_eq!(canvas.vertex_buffers.indices.len(), 0);

    canvas.draw(&unit_square(), DrawMode::fill_simple(), RED);
    let second = canvas.take_buffers();
    assert_eq!(
        first, second,
        "a draw after the take starts index numbering from zero again"
    );
    assert_eq!(second.indices.iter().min().copied(), Some(0));
}

#[test]
fn stroke_1px_uses_flat_caps_and_miter_joins() {
    assert_eq!(
        DrawMode::stroke_1px(),
        DrawMode::Stroke(StrokeOptions {
            line_width: 1,
            line_cap: CapStyle::Butt,
            line_join: JoinStyle::Miter,
            tolerance: 1,
        })
    );
}

#[test]
fn fill_simple_uses_the_nonzero_rule() {
    assert_eq!(
        DrawMode::fill_simple(),
        DrawMode::Fill(FillOptions {
            fill_rule: FillRule::NonZero,
            tolerance: 1,
        })
    );
}

#[test]
fn fill_of_a_circle_covers_roughly_its_disk() {
    let mut canvas = Canvas::default();
    canvas.draw(
        &Circle {
            center: v(0, 0),
            radius: 1000,
        },
        DrawMode::fill_simple(),
        RED,
    );
    let buffers = canvas.take_buffers();
    assert!(buffers.indices.len() >= 3, "the circle must produce triangles");
    let mut area = 0.0f64;
    for t in buffers.indices.chunks(3) {
        let (ax, ay) = position(&buffers.vertices[t[0] as usize]);
        let (bx, by) = position(&buffers.vertices[t[1] as usize]);
        let (cx, cy) = position(&buffers.vertices[t[2] as usize]);
        let cross = (bx as f64 - ax as f64) * (cy as f64 - ay as f64)
            - (cx as f64 - ax as f64) * (by as f64 - ay as f64);
        area += cross.abs() / 2.0;
    }
    let disk = std::f64::consts::PI * 1000.0 * 1000.0;
    assert!(
        (area - disk).abs() / disk < 0.02,
        "covered area {area} vs disk {disk}"
    );
}
