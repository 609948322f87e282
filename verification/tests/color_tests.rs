use rusty::color::white;
use rusty::color::Color;

fn as_floats(words: [u32; 4]) -> [f32; 4] {
    [
        f32::from_bits(words[0]),
        f32::from_bits(words[1]),
        f32::from_bits(words[2]),
        f32::from_bits(words[3]),
    ]
}

#[test]
fn into_accepted_wgsl_color_format() {
    let color = as_floats(Color(255, 255, 255).normalized());
    assert_eq!(color, [1., 1., 1., 1.0]);
    let color = as_floats(Color(155, 155, 155).normalized());
    assert_eq!(color, [0., 0., 0., 1.]);
}

#[test]
fn color_constants_normalize_to_unit_channels() {
    assert_eq!(as_floats(white().normalized()), [1., 1., 1., 1.]);
    assert_eq!(as_floats(rusty::color::red().normalized()), [1., 0., 0., 1.]);
    assert_eq!(as_floats(rusty::color::green().normalized()), [0., 1., 0., 1.]);
    assert_eq!(as_floats(rusty::color::blue().normalized()), [0., 0., 1., 1.]);
    assert_eq!(as_floats(rusty::color::black().normalized()), [0., 0., 0., 1.]);
}
