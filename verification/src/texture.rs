//! Textures: a GPU texture, its view, its sampler, and the bind group
//! exposing them — plus a size uniform — to the fragment stage.
//!
//! Image decoding is the one outside computation here; everything the
//! decoder returns flows through plain values.

use vstd::prelude::*;

use crate::bytes::words_le_bytes;
use crate::bytes::words_to_bytes;
use crate::fp::f32_bits;
use crate::fp::f32_from_int;
use crate::gpu::appended;
use crate::gpu::BindingResource;
use crate::gpu::BufferUsage;
use crate::gpu::GraphicsContext;
use vstd::string::StringExecFns;

verus! {

/// What decoding an encoded image yields: its pixel width and height and
/// its RGBA bytes, or nothing when the bytes are no image.
pub uninterp spec fn image_decode(bytes: Seq<u8>) -> Option<(u32, u32, Seq<u8>)>;

/// Relies on `image::load_from_memory` and `image::DynamicImage::to_rgba8`:
/// decoding is a pure function of the encoded bytes, and the RGBA buffer
/// holds four bytes per pixel.
#[verifier::external_body]
fn decode_image(bytes: &[u8]) -> (r: Option<(u32, u32, Vec<u8>)>)
    ensures
        match r {
            Some((w, h, px)) => image_decode(bytes@) == Some((w, h, px@)) && px@.len() == 4 * w
                * h,
            None => image_decode(bytes@) is None,
        },
{
    match image::load_from_memory(bytes) {
        Ok(img) => {
            let rgba = img.to_rgba8();
            let w = rgba.width();
            let h = rgba.height();
            Some((w, h, rgba.into_raw()))
        },
        Err(_) => None,
    }
}

/// Why a texture could not be created.
#[derive(Clone, Copy, Debug, PartialEq, Eq, Structural)]
pub enum TextureError {
    /// The bytes could not be decoded as an image.
    Decode,
}

/// A texture resource: handles to the GPU texture, its view, its sampler
/// and its fragment-stage bind group, plus the pixel size.
#[derive(Clone, Copy, Debug, PartialEq, Eq, Structural)]
pub struct Texture {
    pub texture: usize,
    pub view: usize,
    pub sampler: usize,
    pub bind_group: usize,
    pub width: u32,
    pub height: u32,
}

/// The context after creating a full texture from RGBA pixels: the texture
/// with its pixels, one view, one sampler, a size uniform buffer holding
/// the dimensions as float words, and a bind group over the "texture"
/// layout binding view, sampler and size buffer in that slot order.
pub open spec fn texture_created(
    t: Texture,
    width: u32,
    height: u32,
    pixels: Seq<u8>,
    a: GraphicsContext,
    b: GraphicsContext,
) -> bool {
    &&& t.width == width && t.height == height
    &&& t.texture == a.textures@.len()
    &&& b.textures@.len() == a.textures@.len() + 1
    &&& forall|k: int|
        0 <= k < a.textures@.len() ==> b.textures@[k] == #[trigger] a.textures@[k]
    &&& b.textures@[t.texture as int].width == width
    &&& b.textures@[t.texture as int].height == height
    &&& b.textures@[t.texture as int].pixels@ == pixels
    &&& t.view == a.views && b.views == a.views + 1
    &&& t.sampler == a.samplers && b.samplers == a.samplers + 1
    &&& t.bind_group == a.bind_groups@.len()
    &&& b.bind_groups@.len() == a.bind_groups@.len() + 1
    &&& forall|k: int|
        0 <= k < a.bind_groups@.len() ==> b.bind_groups@[k] == #[trigger] a.bind_groups@[k]
    &&& b.bind_groups@[t.bind_group as int].layout@ == "texture"@
    &&& b.bind_groups@[t.bind_group as int].entries@ == seq![
        BindingResource::TextureView(t.view),
        BindingResource::Sampler(t.sampler),
        BindingResource::Buffer((a.buffers@.len()) as usize),
    ]
    &&& b.buffers@.len() == a.buffers@.len() + 1
    &&& forall|k: int| 0 <= k < a.buffers@.len() ==> b.buffers@[k] == #[trigger] a.buffers@[k]
    &&& b.buffers@[a.buffers@.len() as int].bytes@ == words_le_bytes(
        seq![f32_from_int(width as int), f32_from_int(height as int)],
    )
    &&& b.config == a.config
    &&& b.render_pipelines == a.render_pipelines
    &&& b.bind_group_layouts == a.bind_group_layouts
    &&& appended(a.commands@, b.commands@, 6)
}

impl Texture {
    /// Creates a texture from decoded RGBA pixels: uploads the pixels,
    /// creates a view and a sampler, a size uniform holding the dimensions
    /// as float words, and the fragment-stage bind group. The "texture"
    /// layout must have been registered.
    pub fn from_image(ctx: &mut GraphicsContext, width: u32, height: u32, rgba: Vec<u8>) -> (t:
        Texture)
        requires
            old(ctx).has_layout("texture"@),
            rgba@.len() == 4 * width * height,
            old(ctx).views < usize::MAX,
            old(ctx).samplers < usize::MAX,
        ensures
            texture_created(t, width, height, rgba@, *old(ctx), *final(ctx)),
    {
        let ghost ctx0 = *old(ctx);
        let texture = ctx.create_texture(width, height);
        ctx.write_texture(texture, rgba);
        let view = ctx.create_texture_view(texture);
        let sampler = ctx.create_sampler();
        let mut size_words: Vec<u32> = Vec::new();
        size_words.push(f32_bits(width as i64));
        size_words.push(f32_bits(height as i64));
        proof {
            assert(size_words@ =~= seq![
                f32_from_int(width as int),
                f32_from_int(height as int),
            ]);
        }
        let size_bytes = words_to_bytes(&size_words);
        let size_buffer = ctx.create_buffer_init(
            size_bytes,
            BufferUsage { vertex: false, index: false, uniform: true, copy_dst: true },
        );
        let mut entries: Vec<BindingResource> = Vec::new();
        entries.push(BindingResource::TextureView(view));
        entries.push(BindingResource::Sampler(sampler));
        entries.push(BindingResource::Buffer(size_buffer));
        proof {
            assert(entries@ =~= seq![
                BindingResource::TextureView(view),
                BindingResource::Sampler(sampler),
                BindingResource::Buffer(size_buffer),
            ]);
        }
        let bind_group = ctx.create_bind_group(String::from_str("texture"), entries);
        proof {
            assert(ctx.commands@.take(ctx0.commands@.len() as int) =~= ctx0.commands@);
        }
        Texture { texture, view, sampler, bind_group, width, height }
    }

    /// Creates a texture by decoding encoded image bytes; fails exactly
    /// when the bytes are no decodable image.
    pub fn from_bytes(ctx: &mut GraphicsContext, bytes: &[u8]) -> (r: Result<Texture, TextureError>)
        requires
            old(ctx).has_layout("texture"@),
            old(ctx).views < usize::MAX,
            old(ctx).samplers < usize::MAX,
        ensures
            match r {
                Ok(t) => image_decode(bytes@) matches Some(d) && texture_created(
                    t,
                    d.0,
                    d.1,
                    d.2,
                    *old(ctx),
                    *final(ctx),
                ),
                Err(e) => e == TextureError::Decode && image_decode(bytes@) is None && *final(ctx)
                    == *old(ctx),
            },
    {
        match decode_image(bytes) {
            Some((width, height, rgba)) => Ok(Texture::from_image(ctx, width, height, rgba)),
            None => Err(TextureError::Decode),
        }
    }

    /// Creates the 1x1 transparent placeholder texture. Its bind group
    /// binds only the view and the sampler; there is no size uniform.
    pub fn empty(ctx: &mut GraphicsContext) -> (t: Texture)
        requires
            old(ctx).has_layout("texture"@),
            old(ctx).views < usize::MAX,
            old(ctx).samplers < usize::MAX,
        ensures
            t.width == 1 && t.height == 1,
            t.texture == old(ctx).textures@.len(),
            final(ctx).textures@.len() == old(ctx).textures@.len() + 1,
            forall|k: int|
                0 <= k < old(ctx).textures@.len() ==> final(ctx).textures@[k] == #[trigger] old(
                    ctx,
                ).textures@[k],
            final(ctx).textures@[t.texture as int].width == 1,
            final(ctx).textures@[t.texture as int].height == 1,
            final(ctx).textures@[t.texture as int].pixels@ == seq![0u8, 0u8, 0u8, 0u8],
            t.view == old(ctx).views && final(ctx).views == old(ctx).views + 1,
            t.sampler == old(ctx).samplers && final(ctx).samplers == old(ctx).samplers + 1,
            t.bind_group == old(ctx).bind_groups@.len(),
            final(ctx).bind_groups@.len() == old(ctx).bind_groups@.len() + 1,
            forall|k: int|
                0 <= k < old(ctx).bind_groups@.len() ==> final(ctx).bind_groups@[k]
                    == #[trigger] old(ctx).bind_groups@[k],
            final(ctx).bind_groups@[t.bind_group as int].layout@ == "texture"@,
            final(ctx).bind_groups@[t.bind_group as int].entries@ == seq![
                BindingResource::TextureView(t.view),
                BindingResource::Sampler(t.sampler),
            ],
            final(ctx).buffers == old(ctx).buffers,
            final(ctx).config == old(ctx).config,
            final(ctx).render_pipelines == old(ctx).render_pipelines,
            final(ctx).bind_group_layouts == old(ctx).bind_group_layouts,
            appended(old(ctx).commands@, final(ctx).commands@, 5),
    {
        let ghost ctx0 = *old(ctx);
        let texture = ctx.create_texture(1, 1);
        let mut pixels: Vec<u8> = Vec::new();
        pixels.push(0);
        pixels.push(0);
        pixels.push(0);
        pixels.push(0);
        proof {
            assert(pixels@ =~= seq![0u8, 0u8, 0u8, 0u8]);
        }
        ctx.write_texture(texture, pixels);
        let view = ctx.create_texture_view(texture);
        let sampler = ctx.create_sampler();
        let mut entries: Vec<BindingResource> = Vec::new();
        entries.push(BindingResource::TextureView(view));
        entries.push(BindingResource::Sampler(sampler));
        proof {
            assert(entries@ =~= seq![
                BindingResource::TextureView(view),
                BindingResource::Sampler(sampler),
            ]);
        }
        let bind_group = ctx.create_bind_group(String::from_str("texture"), entries);
        proof {
            assert(ctx.commands@.take(ctx0.commands@.len() as int) =~= ctx0.commands@);
        }
        Texture { texture, view, sampler, bind_group, width: 1, height: 1 }
    }
}

} // verus!
