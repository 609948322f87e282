//! Sprites: a textured quad sized to its texture's pixel dimensions.
//!
//! A sprite shares the shapes' transform contract: every transform mutation
//! rewrites the mesh's uniform buffer at once, so what the GPU draws always
//! reflects the CPU-side transform. Its vertex mirror is fixed at creation:
//! a quad whose texture coordinates span the whole texture rect.

use vstd::prelude::*;

use crate::color::Color;
use crate::fp::f32_from_int;
use crate::gpu::appended;
use crate::gpu::BufferUsage;
use crate::gpu::GraphicsContext;
use crate::math::Rect;
use crate::math::Vec2;
use crate::mesh::Mesh;
use crate::shape::baked_rect_vertices;
use crate::shape::ctx_after_uniform_write;
use crate::shape::is_baked_rect_mirror;
use crate::shape::rect_indices;
use crate::shape::same_but_position;
use crate::shape::same_mesh_handles;
use crate::texture::Texture;
use crate::transform::rotated;
use crate::transform::Transform;
use crate::vertex::mirror_bytes;
use crate::vertex::vertices_to_bytes;
use crate::vertex::ShapeVertex;
use crate::bytes::words16_le_bytes;
use crate::bytes::words16_to_bytes;

verus! {

/// A textured quad: a mesh, a fixed vertex mirror, an optional tint, a
/// non-owning texture handle, and the texture rect the quad samples.
pub struct Sprite {
    pub mesh: Mesh,
    pub vertices: Vec<ShapeVertex>,
    pub color: Option<Color>,
    pub texture: Texture,
    pub texture_rect: Rect,
}

impl Sprite {
    /// The sprite's mirror matches the GPU: vertex and index buffers hold
    /// the byte images of the quad, the uniform buffer the current model
    /// matrix.
    pub open spec fn wf(self, ctx: GraphicsContext) -> bool {
        &&& self.mesh.wf(ctx)
        &&& self.vertices@.len() == 4
        &&& self.mesh.num_elements == 6
        &&& ctx.buffers@[self.mesh.vertex_buffer as int].bytes@ == mirror_bytes(self.vertices@)
        &&& ctx.buffers@[self.mesh.index_buffer as int].bytes@ == words16_le_bytes(rect_indices())
    }

    /// The sprite's quad size, taken from its texture's pixel dimensions.
    pub open spec fn quad_size(self) -> Vec2 {
        Vec2 { x: self.texture_rect.width, y: self.texture_rect.height }
    }

    /// Creates a sprite over `texture`: its texture rect covers the whole
    /// texture, and its quad is a white rectangle of the texture's pixel
    /// size whose texture coordinates are the rect's corners.
    pub fn new(ctx: &mut GraphicsContext, texture: Texture) -> (sprite: Sprite)
        requires
            old(ctx).has_layout("transform"@),
            texture.width <= i32::MAX,
            texture.height <= i32::MAX,
        ensures
            sprite.wf(*final(ctx)),
            sprite.texture == texture,
            sprite.color is None,
            sprite.texture_rect == (Rect {
                x: 0,
                y: 0,
                width: texture.width as i32,
                height: texture.height as i32,
            }),
            sprite.mesh.transform == Transform::default_spec(),
            is_baked_rect_mirror(
                sprite.vertices@,
                sprite.quad_size(),
                Color(255, 255, 255),
                sprite.texture_rect,
            ),
            final(ctx).buffers@.len() == old(ctx).buffers@.len() + 3,
            forall|k: int|
                0 <= k < old(ctx).buffers@.len() ==> final(ctx).buffers@[k] == old(
                    ctx,
                ).buffers@[k],
            appended(old(ctx).commands@, final(ctx).commands@, 4),
            final(ctx).config == old(ctx).config,
            final(ctx).render_pipelines == old(ctx).render_pipelines,
            final(ctx).bind_group_layouts == old(ctx).bind_group_layouts,
            final(ctx).textures == old(ctx).textures,
    {
        let texture_rect = Rect {
            x: 0,
            y: 0,
            width: texture.width as i32,
            height: texture.height as i32,
        };
        let size = Vec2 { x: texture_rect.width, y: texture_rect.height };
        let vertices = baked_rect_vertices(
            size,
            crate::color::white(),
            texture_rect,
        );
        let mut indices: Vec<u16> = Vec::new();
        indices.push(0);
        indices.push(1);
        indices.push(3);
        indices.push(1);
        indices.push(2);
        indices.push(3);
        proof {
            assert(indices@ =~= rect_indices());
        }
        let vertex_bytes = vertices_to_bytes(&vertices);
        let vertex_buffer = ctx.create_buffer_init(
            vertex_bytes,
            BufferUsage { vertex: true, index: false, uniform: false, copy_dst: true },
        );
        let index_bytes = words16_to_bytes(&indices);
        let index_buffer = ctx.create_buffer_init(
            index_bytes,
            BufferUsage { vertex: false, index: true, uniform: false, copy_dst: false },
        );
        let ghost commands_before = old(ctx).commands@;
        let mesh = Mesh::new(ctx, vertex_buffer, index_buffer, 6);
        proof {
            assert(ctx.commands@.take(commands_before.len() as int) =~= commands_before);
        }
        Sprite { mesh, vertices, color: None, texture, texture_rect }
    }

    /// Replaces the texture handle. The mirror and the buffers stay as they
    /// are.
    pub fn set_texture(&mut self, texture: Texture)
        ensures
            final(self).texture == texture,
            final(self).mesh == old(self).mesh,
            final(self).vertices == old(self).vertices,
            final(self).color == old(self).color,
            final(self).texture_rect == old(self).texture_rect,
    {
        self.texture = texture;
    }

    /// Moves the sprite to `position` and rewrites the uniform buffer.
    pub fn set_position(&mut self, ctx: &mut GraphicsContext, position: Vec2)
        requires
            old(self).wf(*old(ctx)),
        ensures
            final(self).wf(*final(ctx)),
            final(self).mesh.transform.position == position,
            same_but_position(final(self).mesh.transform, old(self).mesh.transform),
            same_mesh_handles(final(self).mesh, old(self).mesh),
            final(self).vertices == old(self).vertices,
            final(self).color == old(self).color,
            final(self).texture == old(self).texture,
            final(self).texture_rect == old(self).texture_rect,
            ctx_after_uniform_write(
                old(self).mesh,
                final(self).mesh.transform,
                *old(ctx),
                *final(ctx),
            ),
    {
        self.mesh.transform.position = position;
        self.mesh.sync_transform(ctx);
    }

    pub fn position(&self) -> (p: Vec2)
        ensures
            p == self.mesh.transform.position,
    {
        self.mesh.transform.position
    }

    /// Shifts the sprite by `offset` and rewrites the uniform buffer.
    pub fn move_by(&mut self, ctx: &mut GraphicsContext, offset: Vec2)
        requires
            old(self).wf(*old(ctx)),
            i32::MIN <= old(self).mesh.transform.position.x + offset.x <= i32::MAX,
            i32::MIN <= old(self).mesh.transform.position.y + offset.y <= i32::MAX,
        ensures
            final(self).wf(*final(ctx)),
            final(self).mesh.transform.position == (Vec2 {
                x: (old(self).mesh.transform.position.x + offset.x) as i32,
                y: (old(self).mesh.transform.position.y + offset.y) as i32,
            }),
            same_but_position(final(self).mesh.transform, old(self).mesh.transform),
            same_mesh_handles(final(self).mesh, old(self).mesh),
            final(self).vertices == old(self).vertices,
            final(self).color == old(self).color,
            final(self).texture == old(self).texture,
            final(self).texture_rect == old(self).texture_rect,
            ctx_after_uniform_write(
                old(self).mesh,
                final(self).mesh.transform,
                *old(ctx),
                *final(ctx),
            ),
    {
        let x = self.mesh.transform.position.x as i64 + offset.x as i64;
        let y = self.mesh.transform.position.y as i64 + offset.y as i64;
        self.mesh.transform.position = Vec2 { x: x as i32, y: y as i32 };
        self.mesh.sync_transform(ctx);
    }

    /// Sets the rotation and rewrites the uniform buffer.
    pub fn set_rotation(&mut self, ctx: &mut GraphicsContext, rotation: i32)
        requires
            old(self).wf(*old(ctx)),
        ensures
            final(self).wf(*final(ctx)),
            final(self).mesh.transform == (Transform {
                rotation,
                ..old(self).mesh.transform
            }),
            same_mesh_handles(final(self).mesh, old(self).mesh),
            final(self).vertices == old(self).vertices,
            final(self).color == old(self).color,
            final(self).texture == old(self).texture,
            final(self).texture_rect == old(self).texture_rect,
            ctx_after_uniform_write(
                old(self).mesh,
                final(self).mesh.transform,
                *old(ctx),
                *final(ctx),
            ),
    {
        self.mesh.transform.rotation = rotation;
        self.mesh.sync_transform(ctx);
    }

    pub fn rotation(&self) -> (r: i32)
        ensures
            r == self.mesh.transform.rotation,
    {
        self.mesh.transform.rotation
    }

    /// Adds `delta` to the rotation — past 360 degrees it resets to exactly
    /// 0 — and rewrites the uniform buffer.
    pub fn rotate(&mut self, ctx: &mut GraphicsContext, delta: i32)
        requires
            old(self).wf(*old(ctx)),
            old(self).mesh.transform.rotation + delta >= i32::MIN,
        ensures
            final(self).wf(*final(ctx)),
            final(self).mesh.transform.rotation == rotated(
                old(self).mesh.transform.rotation as int,
                delta as int,
            ),
            final(self).mesh.transform.position == old(self).mesh.transform.position,
            final(self).mesh.transform.scale == old(self).mesh.transform.scale,
            final(self).mesh.transform.origin == old(self).mesh.transform.origin,
            same_mesh_handles(final(self).mesh, old(self).mesh),
            final(self).vertices == old(self).vertices,
            final(self).color == old(self).color,
            final(self).texture == old(self).texture,
            final(self).texture_rect == old(self).texture_rect,
            ctx_after_uniform_write(
                old(self).mesh,
                final(self).mesh.transform,
                *old(ctx),
                *final(ctx),
            ),
    {
        self.mesh.transform.rotate(delta);
        self.mesh.sync_transform(ctx);
    }

    /// Sets the scale and rewrites the uniform buffer.
    pub fn set_scale(&mut self, ctx: &mut GraphicsContext, scale: i32)
        requires
            old(self).wf(*old(ctx)),
        ensures
            final(self).wf(*final(ctx)),
            final(self).mesh.transform == (Transform { scale, ..old(self).mesh.transform }),
            same_mesh_handles(final(self).mesh, old(self).mesh),
            final(self).vertices == old(self).vertices,
            final(self).color == old(self).color,
            final(self).texture == old(self).texture,
            final(self).texture_rect == old(self).texture_rect,
            ctx_after_uniform_write(
                old(self).mesh,
                final(self).mesh.transform,
                *old(ctx),
                *final(ctx),
            ),
    {
        self.mesh.transform.scale = scale;
        self.mesh.sync_transform(ctx);
    }

    pub fn scale(&self) -> (s: i32)
        ensures
            s == self.mesh.transform.scale,
    {
        self.mesh.transform.scale
    }

    /// Sets the origin and rewrites the uniform buffer.
    pub fn set_origin(&mut self, ctx: &mut GraphicsContext, origin: Vec2)
        requires
            old(self).wf(*old(ctx)),
        ensures
            final(self).wf(*final(ctx)),
            final(self).mesh.transform == (Transform { origin, ..old(self).mesh.transform }),
            same_mesh_handles(final(self).mesh, old(self).mesh),
            final(self).vertices == old(self).vertices,
            final(self).color == old(self).color,
            final(self).texture == old(self).texture,
            final(self).texture_rect == old(self).texture_rect,
            ctx_after_uniform_write(
                old(self).mesh,
                final(self).mesh.transform,
                *old(ctx),
                *final(ctx),
            ),
    {
        self.mesh.transform.origin = origin;
        self.mesh.sync_transform(ctx);
    }

    pub fn origin(&self) -> (o: Vec2)
        ensures
            o == self.mesh.transform.origin,
    {
        self.mesh.transform.origin
    }
}

} // verus!
