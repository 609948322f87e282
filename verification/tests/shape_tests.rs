use rusty::color::Color;
use rusty::gpu::GraphicsContext;
use rusty::gpu::SurfaceConfig;
use rusty::math::Rect;
use rusty::math::Vec2;
use rusty::shape::CircleShape;
use rusty::shape::RectangleShape;
use rusty::vertex::ShapeVertex;

fn context() -> GraphicsContext {
    let mut ctx = GraphicsContext::init(SurfaceConfig { width: 800, height: 600 });
    ctx.register_bind_group_layout("transform".to_string());
    ctx
}

fn vertex_bytes(v: &ShapeVertex) -> Vec<u8> {
    let mut out = Vec::new();
    for w in v.position.iter().chain(v.color.iter()).chain(v.tex_coords.iter()) {
        out.extend_from_slice(&w.to_le_bytes());
    }
    out
}

fn mirror_bytes(vs: &[ShapeVertex]) -> Vec<u8> {
    let mut out = Vec::new();
    for v in vs {
        out.extend_from_slice(&vertex_bytes(v));
    }
    out
}

fn floats2(words: [u32; 2]) -> (f32, f32) {
    (f32::from_bits(words[0]), f32::from_bits(words[1]))
}

#[test]
fn rectangle_points_are_the_four_corners() {
    let mut ctx = context();
    let rect = RectangleShape::new(&mut ctx, Vec2 { x: 100, y: 50 });
    assert_eq!(rect.point(0), Vec2 { x: 0, y: 0 });
    assert_eq!(rect.point(1), Vec2 { x: 0, y: 50 });
    assert_eq!(rect.point(2), Vec2 { x: 100, y: 50 });
    assert_eq!(rect.point(3), Vec2 { x: 100, y: 0 });
    assert_eq!(rect.point(17), Vec2 { x: 0, y: 0 });
    assert_eq!(rect.point_count(), 4);
}

#[test]
fn rectangle_fill_color_reaches_every_vertex_and_the_gpu() {
    let mut ctx = context();
    let mut rect = RectangleShape::new(&mut ctx, Vec2 { x: 2, y: 3 });
    let color = Color(255, 0, 0);
    rect.set_fill_color(&mut ctx, color);
    let expected = color.normalized();
    for v in &rect.vertices {
        assert_eq!(v.color, expected);
    }
    let gpu = &ctx.buffers[rect.mesh.vertex_buffer].bytes;
    assert_eq!(gpu, &mirror_bytes(&rect.vertices));
}

#[test]
fn rectangle_texture_rect_sets_corner_uvs() {
    let mut ctx = context();
    let mut rect = RectangleShape::new(&mut ctx, Vec2 { x: 100, y: 100 });
    rect.set_texture_rect(&mut ctx, Rect { x: 5, y: 7, width: 20, height: 30 });
    let uvs: Vec<(f32, f32)> = rect.vertices.iter().map(|v| floats2(v.tex_coords)).collect();
    assert_eq!(uvs, vec![(5., 7.), (5., 37.), (25., 37.), (25., 7.)]);
    let gpu = &ctx.buffers[rect.mesh.vertex_buffer].bytes;
    assert_eq!(gpu, &mirror_bytes(&rect.vertices));
}

#[test]
fn rectangle_bounds_follow_position_not_origin() {
    let mut ctx = context();
    let mut rect = RectangleShape::new(&mut ctx, Vec2 { x: 100, y: 100 });
    rect.set_position(&mut ctx, Vec2 { x: 200, y: 200 });
    rect.set_origin(&mut ctx, Vec2 { x: 50, y: 50 });
    let b = rect.bounds();
    assert_eq!(b, Rect { x: 200, y: 200, width: 100, height: 100 });
}

#[test]
fn rectangle_rotate_past_360_resets() {
    let mut ctx = context();
    let mut rect = RectangleShape::new(&mut ctx, Vec2 { x: 10, y: 10 });
    rect.rotate(&mut ctx, 350);
    rect.rotate(&mut ctx, 20);
    assert_eq!(rect.rotation(), 0);
}

#[test]
fn rectangle_index_buffer_is_two_triangles() {
    let mut ctx = context();
    let rect = RectangleShape::new(&mut ctx, Vec2 { x: 10, y: 10 });
    let expected: Vec<u8> = [0u16, 1, 3, 1, 2, 3].iter().flat_map(|w| w.to_le_bytes()).collect();
    assert_eq!(ctx.buffers[rect.mesh.index_buffer].bytes, expected);
    assert_eq!(rect.mesh.num_elements, 6);
}

#[test]
fn rectangle_initial_mirror_matches_gpu_buffer() {
    let mut ctx = context();
    let rect = RectangleShape::new(&mut ctx, Vec2 { x: 33, y: 36 });
    let gpu = &ctx.buffers[rect.mesh.vertex_buffer].bytes;
    assert_eq!(gpu, &mirror_bytes(&rect.vertices));
    // Corner positions are exactly the size corners.
    let positions: Vec<(f32, f32)> = rect
        .vertices
        .iter()
        .map(|v| (f32::from_bits(v.position[0]), f32::from_bits(v.position[1])))
        .collect();
    assert_eq!(positions, vec![(0., 0.), (0., 36.), (33., 36.), (33., 0.)]);
}

#[test]
fn circle_points_sit_on_the_circle_starting_at_the_top() {
    let mut ctx = context();
    let circle = CircleShape::new(&mut ctx, 10, 4);
    let centre = (10f32, 10f32);
    let mut angles = Vec::new();
    for i in 0..4usize {
        let (x, y) = floats2(circle.point(i));
        let (dx, dy) = (x - centre.0, y - centre.1);
        let dist = (dx * dx + dy * dy).sqrt();
        assert!((dist - 10.0).abs() < 1e-3, "point {i} at distance {dist}");
        angles.push(dy.atan2(dx));
    }
    // Index 0 is the top of the circle.
    let (x0, y0) = floats2(circle.point(0));
    assert!((x0 - 10.0).abs() < 1e-3 && y0.abs() < 1e-3);
    // The four points are spaced a quarter turn apart.
    for i in 0..4usize {
        let step = (angles[(i + 1) % 4] - angles[i]).rem_euclid(std::f32::consts::TAU);
        assert!(
            (step - std::f32::consts::FRAC_PI_2).abs() < 1e-3,
            "step {i} was {step}"
        );
    }
}

#[test]
fn circle_fill_color_is_a_no_op() {
    let mut ctx = context();
    let mut circle = CircleShape::new(&mut ctx, 10, 8);
    let before = circle.vertices.clone();
    let buffer_before = ctx.buffers[circle.mesh.vertex_buffer].bytes.clone();
    circle.set_fill_color(Color(12, 34, 56));
    assert_eq!(circle.vertices, before);
    assert_eq!(ctx.buffers[circle.mesh.vertex_buffer].bytes, buffer_before);
}

#[test]
fn circle_fan_indices_wrap_around() {
    let mut ctx = context();
    let circle = CircleShape::new(&mut ctx, 10, 4);
    let expected: Vec<u8> = [0u16, 1, 2, 0, 2, 3, 0, 3, 4, 0, 4, 1]
        .iter()
        .flat_map(|w| w.to_le_bytes())
        .collect();
    assert_eq!(ctx.buffers[circle.mesh.index_buffer].bytes, expected);
    assert_eq!(circle.mesh.num_elements, 12);
    assert_eq!(circle.point_count(), 5);
}

#[test]
fn circle_perimeter_vertices_match_the_angle_formula() {
    let mut ctx = context();
    let circle = CircleShape::new(&mut ctx, 25, 7);
    assert_eq!(circle.vertices.len(), 8);
    let pi = glam::Vec2::NEG_X.to_angle();
    for i in 0..7u32 {
        let f = glam::UVec2::new(i, 7).as_vec2();
        let theta = -(pi + pi) * f.x / f.y;
        let expected = glam::Vec2::from_angle(theta) * 25.0;
        let (x, y) = floats2([circle.vertices[i as usize + 1].position[0],
            circle.vertices[i as usize + 1].position[1]]);
        assert_eq!((x, y), (expected.x, expected.y));
    }
    let gpu = &ctx.buffers[circle.mesh.vertex_buffer].bytes;
    assert_eq!(gpu, &mirror_bytes(&circle.vertices));
}

#[test]
fn circle_with_no_perimeter_points_is_just_a_centre() {
    let mut ctx = context();
    let circle = CircleShape::new(&mut ctx, 10, 0);
    assert_eq!(circle.vertices.len(), 1);
    assert_eq!(circle.mesh.num_elements, 0);
    assert!(ctx.buffers[circle.mesh.index_buffer].bytes.is_empty());
}

#[test]
fn negative_rotation_is_kept_not_reset() {
    let mut ctx = context();
    let mut rect = RectangleShape::new(&mut ctx, Vec2 { x: 10, y: 10 });
    rect.rotate(&mut ctx, -30);
    assert_eq!(rect.rotation(), -30);
    rect.set_rotation(&mut ctx, 500);
    rect.rotate(&mut ctx, -200);
    assert_eq!(rect.rotation(), 300);
}

#[test]
fn circle_move_rewrites_the_uniform_buffer() {
    let mut ctx = context();
    let mut circle = CircleShape::new(&mut ctx, 10, 6);
    circle.move_by(&mut ctx, Vec2 { x: 15, y: -4 });
    let expected = glam::Mat4::from_translation((15., -4., 0.).into())
        * glam::Mat4::from_rotation_z(0.)
        * glam::Mat4::from_translation((0., 0., 0.).into());
    let expected_bytes: Vec<u8> = expected
        .to_cols_array()
        .iter()
        .flat_map(|f| f.to_bits().to_le_bytes())
        .collect();
    assert_eq!(ctx.buffers[circle.mesh.buffer].bytes, expected_bytes);
}
