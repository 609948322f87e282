use rusty::gpu::BindingResource;
use rusty::gpu::GraphicsContext;
use rusty::gpu::SurfaceConfig;
use rusty::math::Rect;
use rusty::math::Vec2;
use rusty::sprite::Sprite;
use rusty::texture::Texture;
use rusty::texture::TextureError;

fn context() -> GraphicsContext {
    let mut ctx = GraphicsContext::init(SurfaceConfig { width: 800, height: 600 });
    ctx.register_bind_group_layout("transform".to_string());
    ctx.register_bind_group_layout("texture".to_string());
    ctx
}

fn png_bytes(width: u32, height: u32, rgba: &[u8]) -> Vec<u8> {
    let image = image::RgbaImage::from_raw(width, height, rgba.to_vec()).unwrap();
    let mut out = std::io::Cursor::new(Vec::new());
    image.write_to(&mut out, image::ImageFormat::Png).unwrap();
    out.into_inner()
}

#[test]
fn texture_from_bytes_decodes_dimensions_and_pixels() {
    let mut ctx = context();
    let rgba = [255u8, 0, 0, 255, 0, 255, 0, 255];
    let bytes = png_bytes(2, 1, &rgba);
    let texture = Texture::from_bytes(&mut ctx, &bytes).unwrap();
    assert_eq!((texture.width, texture.height), (2, 1));
    assert_eq!(ctx.textures[texture.texture].pixels, rgba.to_vec());
    let bind_group = &ctx.bind_groups[texture.bind_group];
    assert_eq!(bind_group.layout, "texture");
    assert_eq!(bind_group.entries.len(), 3);
    // The size uniform holds the dimensions as floats.
    let size_buffer = match bind_group.entries[2] {
        BindingResource::Buffer(b) => b,
        _ => panic!("expected a size buffer binding"),
    };
    let expected: Vec<u8> =
        [2f32, 1f32].iter().flat_map(|f| f.to_bits().to_le_bytes()).collect();
    assert_eq!(ctx.buffers[size_buffer].bytes, expected);
}

#[test]
fn texture_from_bytes_rejects_garbage() {
    let mut ctx = context();
    let r = Texture::from_bytes(&mut ctx, &[1, 2, 3, 4]);
    assert_eq!(r, Err(TextureError::Decode));
    assert!(ctx.textures.is_empty());
}

#[test]
fn empty_texture_is_a_transparent_pixel() {
    let mut ctx = context();
    let texture = Texture::empty(&mut ctx);
    assert_eq!((texture.width, texture.height), (1, 1));
    assert_eq!(ctx.textures[texture.texture].pixels, vec![0, 0, 0, 0]);
    let bind_group = &ctx.bind_groups[texture.bind_group];
    assert_eq!(bind_group.layout, "texture");
    assert_eq!(bind_group.entries.len(), 2);
}

#[test]
fn sprite_quad_spans_the_texture() {
    let mut ctx = context();
    let rgba = vec![7u8; 4 * 4 * 2];
    let texture = Texture::from_image(&mut ctx, 4, 2, rgba);
    let sprite = Sprite::new(&mut ctx, texture);
    assert_eq!(sprite.texture_rect, Rect { x: 0, y: 0, width: 4, height: 2 });
    let corners: Vec<(f32, f32)> = sprite
        .vertices
        .iter()
        .map(|v| (f32::from_bits(v.position[0]), f32::from_bits(v.position[1])))
        .collect();
    assert_eq!(corners, vec![(0., 0.), (0., 2.), (4., 2.), (4., 0.)]);
    let uvs: Vec<(f32, f32)> = sprite
        .vertices
        .iter()
        .map(|v| (f32::from_bits(v.tex_coords[0]), f32::from_bits(v.tex_coords[1])))
        .collect();
    assert_eq!(uvs, vec![(0., 0.), (0., 2.), (4., 2.), (4., 0.)]);
}

#[test]
fn sprite_mutators_rewrite_the_uniform_buffer() {
    let mut ctx = context();
    let texture = Texture::empty(&mut ctx);
    let mut sprite = Sprite::new(&mut ctx, texture);
    sprite.set_position(&mut ctx, Vec2 { x: 11, y: 22 });
    let expected = glam::Mat4::from_translation((11., 22., 0.).into())
        * glam::Mat4::from_rotation_z(0.)
        * glam::Mat4::from_translation((0., 0., 0.).into());
    let expected_bytes: Vec<u8> = expected
        .to_cols_array()
        .iter()
        .flat_map(|f| f.to_bits().to_le_bytes())
        .collect();
    assert_eq!(ctx.buffers[sprite.mesh.buffer].bytes, expected_bytes);
    sprite.rotate(&mut ctx, 350);
    sprite.rotate(&mut ctx, 20);
    assert_eq!(sprite.rotation(), 0);
    let mut texture2 = texture;
    texture2.width = 9;
    sprite.set_texture(texture2);
    assert_eq!(sprite.texture.width, 9);
}
