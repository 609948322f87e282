use rusty::math::Vec2;
use rusty::transform::Transform;

fn matrix_floats(words: [u32; 16]) -> [f32; 16] {
    let mut out = [0f32; 16];
    for (i, w) in words.iter().enumerate() {
        out[i] = f32::from_bits(*w);
    }
    out
}

fn expected_model(position: (f32, f32), rotation: f32, origin: (f32, f32)) -> [f32; 16] {
    let translation = glam::Mat4::from_translation((position.0, position.1, 0.0).into());
    let rotation = glam::Mat4::from_rotation_z(rotation);
    let origin = glam::Mat4::from_translation((-origin.0, -origin.1, 0.).into());
    (translation * rotation * origin).to_cols_array()
}

#[test]
fn model_matrix_is_translation_times_rotation_times_origin() {
    let t = Transform {
        position: Vec2 { x: 40, y: -7 },
        rotation: 3,
        scale: 1,
        origin: Vec2 { x: 5, y: 9 },
    };
    let got = matrix_floats(t.to_model_matrix());
    let expected = expected_model((40., -7.), 3., (5., 9.));
    assert_eq!(got, expected);
}

#[test]
fn model_matrix_transforms_a_known_point() {
    // With no rotation the matrix must map a local point p to
    // p + position - origin.
    let t = Transform {
        position: Vec2 { x: 100, y: 200 },
        rotation: 0,
        scale: 1,
        origin: Vec2 { x: 30, y: 40 },
    };
    let m = glam::Mat4::from_cols_array(&matrix_floats(t.to_model_matrix()));
    let moved = m.transform_point3(glam::Vec3::new(1.0, 2.0, 0.0));
    assert_eq!(moved, glam::Vec3::new(71.0, 162.0, 0.0));
}

#[test]
fn rotate_past_360_resets_to_zero() {
    let mut t = Transform::default();
    t.rotate(350);
    assert_eq!(t.rotation, 350);
    t.rotate(20);
    assert_eq!(t.rotation, 0);
}

#[test]
fn rotate_within_360_accumulates() {
    let mut t = Transform::default();
    t.rotate(100);
    t.rotate(200);
    assert_eq!(t.rotation, 300);
    t.rotate(60);
    assert_eq!(t.rotation, 360);
    t.rotate(1);
    assert_eq!(t.rotation, 0);
}

#[test]
fn default_transform_is_identity_like() {
    let t = Transform::default();
    assert_eq!(t.position, Vec2 { x: 0, y: 0 });
    assert_eq!(t.rotation, 0);
    assert_eq!(t.scale, 0);
    assert_eq!(t.origin, Vec2 { x: 0, y: 0 });
    let m = matrix_floats(t.to_model_matrix());
    assert_eq!(m, glam::Mat4::IDENTITY.to_cols_array());
}
