//! Shape primitives: rectangles and circles.
//!
//! Each shape owns its geometric parameters, a CPU-side mirror of its vertex
//! records, and a [`Mesh`]. Any mutation that changes a per-vertex attribute
//! rewrites the mirror and uploads it before the next draw; any mutation of
//! the transform rewrites the mesh's uniform buffer at once.
//!
//! Position, scale and origin are baked into the rectangle's CPU vertices
//! (its mirror is recomputed and re-uploaded when they change); rotation is
//! applied on the GPU through the model matrix alone.

use vstd::prelude::*;

use crate::color::Color;
use crate::color::white;
use crate::fp::f32_bits;
use crate::fp::f32_from_int;
use crate::gpu::appended;
use crate::gpu::is_write_buffer;
use crate::gpu::BufferUsage;
use crate::gpu::GraphicsContext;
use crate::math::Rect;
use crate::math::Vec2;
use crate::mesh::Mesh;
use crate::transform::rotated;
use crate::transform::Transform;
use crate::vertex::lemma_mirror_bytes_len;
use crate::vertex::mirror_bytes;
use crate::vertex::vertices_to_bytes;
use crate::vertex::ShapeVertex;
use crate::bytes::lemma_words_le_bytes_len;
use crate::bytes::matrix_to_bytes;
use crate::bytes::words16_le_bytes;
use crate::bytes::words16_to_bytes;
use crate::bytes::words_le_bytes;

verus! {

/// The float words of the vertex position that `CircleShape::new` generates
/// for perimeter index `i` of `n`: the point at angle `-2*pi*i/n` on the
/// circle of the given radius around the local origin.
pub uninterp spec fn circle_vertex_words(radius: int, index: int, point_count: int) -> Seq<u32>;

/// The float words of the geometry-query point `CircleShape::point` returns:
/// the point at angle `2*pi*index/point_count - pi/2` on the circle of the
/// given radius around the centre `(radius, radius)`.
pub uninterp spec fn circle_point_words(radius: int, index: int, point_count: int) -> Seq<u32>;

/// Relies on `glam::Vec2::from_angle` for the direction at angle
/// `-2*pi*index/point_count`, scaled by the radius. All angle arithmetic
/// happens on values `glam` converted from the whole-number arguments, so
/// the result depends on the three arguments alone.
#[verifier::external_body]
fn circle_vertex(radius: i32, index: u32, point_count: u32) -> (w: [u32; 2])
    ensures
        w@ == circle_vertex_words(radius as int, index as int, point_count as int),
{
    let pi = glam::Vec2::NEG_X.to_angle();
    let f = glam::UVec2::new(index, point_count).as_vec2();
    let r = glam::IVec2::new(radius, 0).as_vec2().x;
    let theta = -(pi + pi) * f.x / f.y;
    let v = glam::Vec2::from_angle(theta) * r;
    bytemuck::cast(v.to_array())
}

/// Relies on `glam::Vec2::from_angle` for the direction at angle
/// `2*pi*index/point_count - pi/2`, scaled by the radius and offset by the
/// centre `(radius, radius)`. All angle arithmetic happens on values `glam`
/// converted from the whole-number arguments, so the result depends on the
/// three arguments alone.
#[verifier::external_body]
fn circle_point_query(radius: i32, index: u64, point_count: u32) -> (w: [u32; 2])
    ensures
        w@ == circle_point_words(radius as int, index as int, point_count as int),
{
    let f = glam::U64Vec2::new(index, point_count as u64).as_vec2();
    let r = glam::IVec2::new(radius, 0).as_vec2().x;
    let pi = glam::Vec2::NEG_X.to_angle();
    let angle = f.x / f.y * (pi + pi) - glam::Vec2::Y.to_angle();
    let v = glam::Vec2::new(r, r) + glam::Vec2::from_angle(angle) * r;
    bytemuck::cast(v.to_array())
}

/// The corner of a rectangle of size `size` under the fixed index mapping:
/// 0 is the local origin, 1 is below it, 2 the far corner, 3 beside it.
/// Any index past 3 falls back to the origin.
pub open spec fn rect_point_spec(size: Vec2, i: int) -> Vec2 {
    if i == 1 {
        Vec2 { x: 0, y: size.y }
    } else if i == 2 {
        size
    } else if i == 3 {
        Vec2 { x: size.x, y: 0 }
    } else {
        Vec2 { x: 0, y: 0 }
    }
}

/// The texture coordinate of rectangle corner `i` under texture rect `tr`,
/// as a pair of whole numbers.
pub open spec fn rect_uv_spec(tr: Rect, i: int) -> (int, int) {
    if i == 1 {
        (tr.x as int, tr.y + tr.height)
    } else if i == 2 {
        (tr.x + tr.width, tr.y + tr.height)
    } else if i == 3 {
        (tr.x + tr.width, tr.y as int)
    } else {
        (tr.x as int, tr.y as int)
    }
}

/// Vertex `i` of a rectangle mirror fully re-derived from the shape's state:
/// corner position, fill colour, texture-rect corner.
pub open spec fn is_baked_rect_vertex(
    v: ShapeVertex,
    size: Vec2,
    color: Color,
    tr: Rect,
    i: int,
) -> bool {
    &&& v.position@ == seq![
        f32_from_int(rect_point_spec(size, i).x as int),
        f32_from_int(rect_point_spec(size, i).y as int),
        f32_from_int(0),
    ]
    &&& v.color@ == color.normalized_spec()
    &&& v.tex_coords@ == seq![
        f32_from_int(rect_uv_spec(tr, i).0),
        f32_from_int(rect_uv_spec(tr, i).1),
    ]
}

/// A rectangle mirror in the fully re-derived state `update` establishes.
pub open spec fn is_baked_rect_mirror(
    vs: Seq<ShapeVertex>,
    size: Vec2,
    color: Color,
    tr: Rect,
) -> bool {
    vs.len() == 4 && forall|i: int| 0 <= i < 4 ==> is_baked_rect_vertex(#[trigger] vs[i], size, color, tr, i)
}

/// The texture coordinate rectangle vertices carry when the shape is first
/// created, before any mutation re-derives the mirror.
pub open spec fn initial_rect_uv(i: int) -> (int, int) {
    if i == 1 {
        (0, 36)
    } else if i == 2 {
        (33, 36)
    } else if i == 3 {
        (33, 0)
    } else {
        (0, 0)
    }
}

/// A rectangle mirror as first created: corner positions, white vertices,
/// the initial texture coordinates.
pub open spec fn is_initial_rect_mirror(vs: Seq<ShapeVertex>, size: Vec2) -> bool {
    &&& vs.len() == 4
    &&& forall|i: int|
        0 <= i < 4 ==> (#[trigger] vs[i]).position@ == seq![
            f32_from_int(rect_point_spec(size, i).x as int),
            f32_from_int(rect_point_spec(size, i).y as int),
            f32_from_int(0),
        ]
    &&& forall|i: int| 0 <= i < 4 ==> (#[trigger] vs[i]).color@ == Color(255, 255, 255).normalized_spec()
    &&& forall|i: int|
        0 <= i < 4 ==> (#[trigger] vs[i]).tex_coords@ == seq![
            f32_from_int(initial_rect_uv(i).0),
            f32_from_int(initial_rect_uv(i).1),
        ]
}

/// The index list of a rectangle: two triangles over the four corners.
pub open spec fn rect_indices() -> Seq<u16> {
    seq![0u16, 1u16, 3u16, 1u16, 2u16, 3u16]
}

/// The context after one rewrite of a mesh's uniform buffer with the model
/// matrix of transform `t`: that buffer holds the matrix image, everything
/// else is as before, and the write was recorded.
pub open spec fn ctx_after_uniform_write(
    m: Mesh,
    t: Transform,
    a: GraphicsContext,
    b: GraphicsContext,
) -> bool {
    &&& b.buffers@.len() == a.buffers@.len()
    &&& forall|k: int|
        0 <= k < a.buffers@.len() && k != m.buffer ==> b.buffers@[k] == #[trigger] a.buffers@[k]
    &&& b.buffers@[m.buffer as int].usage == a.buffers@[m.buffer as int].usage
    &&& b.buffers@[m.buffer as int].bytes@ == words_le_bytes(t.model_words())
    &&& b.same_except_buffers(a)
    &&& appended(a.commands@, b.commands@, 1)
    &&& is_write_buffer(b.commands@.last(), m.buffer as int, words_le_bytes(t.model_words()))
}

/// The context after one rewrite of a mesh's vertex buffer with the byte
/// image of mirror `vs`: that buffer holds the image, everything else is as
/// before, and the write was recorded.
pub open spec fn ctx_after_vertex_write(
    m: Mesh,
    vs: Seq<ShapeVertex>,
    a: GraphicsContext,
    b: GraphicsContext,
) -> bool {
    &&& b.buffers@.len() == a.buffers@.len()
    &&& forall|k: int|
        0 <= k < a.buffers@.len() && k != m.vertex_buffer ==> b.buffers@[k] == #[trigger] a.buffers@[k]
    &&& b.buffers@[m.vertex_buffer as int].usage == a.buffers@[m.vertex_buffer as int].usage
    &&& b.buffers@[m.vertex_buffer as int].bytes@ == mirror_bytes(vs)
    &&& b.same_except_buffers(a)
    &&& appended(a.commands@, b.commands@, 1)
    &&& is_write_buffer(b.commands@.last(), m.vertex_buffer as int, mirror_bytes(vs))
}

/// The context after a uniform rewrite followed by a vertex rewrite, the
/// order every rectangle mutator that re-bakes its mirror uses.
pub open spec fn ctx_after_uniform_and_vertex_write(
    m: Mesh,
    t: Transform,
    vs: Seq<ShapeVertex>,
    a: GraphicsContext,
    b: GraphicsContext,
) -> bool {
    &&& b.buffers@.len() == a.buffers@.len()
    &&& forall|k: int|
        0 <= k < a.buffers@.len() && k != m.buffer && k != m.vertex_buffer ==> b.buffers@[k]
            == #[trigger] a.buffers@[k]
    &&& b.buffers@[m.buffer as int].usage == a.buffers@[m.buffer as int].usage
    &&& b.buffers@[m.vertex_buffer as int].usage == a.buffers@[m.vertex_buffer as int].usage
    &&& b.buffers@[m.buffer as int].bytes@ == words_le_bytes(t.model_words())
    &&& b.buffers@[m.vertex_buffer as int].bytes@ == mirror_bytes(vs)
    &&& b.same_except_buffers(a)
    &&& appended(a.commands@, b.commands@, 2)
    &&& is_write_buffer(
        b.commands@[a.commands@.len() as int],
        m.buffer as int,
        words_le_bytes(t.model_words()),
    )
    &&& is_write_buffer(b.commands@.last(), m.vertex_buffer as int, mirror_bytes(vs))
}

/// The transform fields other than the position are the same.
pub open spec fn same_but_position(a: Transform, b: Transform) -> bool {
    a.rotation == b.rotation && a.scale == b.scale && a.origin == b.origin
}

/// The mesh's handles and element count are the same; only its transform may
/// differ.
pub open spec fn same_mesh_handles(a: Mesh, b: Mesh) -> bool {
    a.vertex_buffer == b.vertex_buffer && a.index_buffer == b.index_buffer && a.buffer == b.buffer
        && a.bind_group == b.bind_group && a.num_elements == b.num_elements
}

impl Mesh {
    /// Rewrites the uniform buffer with the model matrix of the mesh's
    /// current transform — the synchronous write every transform mutation
    /// must perform.
    pub fn sync_transform(&self, ctx: &mut GraphicsContext)
        requires
            self.handles_ok(*old(ctx)),
        ensures
            self.wf(*final(ctx)),
            ctx_after_uniform_write(*self, self.transform, *old(ctx), *final(ctx)),
    {
        let matrix = self.transform.to_model_matrix();
        let contents = matrix_to_bytes(&matrix);
        proof {
            lemma_words_le_bytes_len(matrix@);
            lemma_words_le_bytes_len(self.transform.model_words());
        }
        ctx.write_buffer(self.buffer, contents);
    }
}

/// A filled, texturable rectangle.
pub struct RectangleShape {
    pub size: Vec2,
    pub mesh: Mesh,
    pub vertices: Vec<ShapeVertex>,
    pub color: Color,
    pub texture_rect: Rect,
}

/// Builds the fully re-derived vertex mirror of a rectangle.
pub(crate) fn baked_rect_vertices(size: Vec2, color: Color, tr: Rect) -> (vs: Vec<ShapeVertex>)
    ensures
        is_baked_rect_mirror(vs@, size, color, tr),
{
    let zero = f32_bits(0);
    let sx = f32_bits(size.x as i64);
    let sy = f32_bits(size.y as i64);
    let cw = color.normalized();
    let u0 = f32_bits(tr.x as i64);
    let v0 = f32_bits(tr.y as i64);
    let u1 = f32_bits(tr.x as i64 + tr.width as i64);
    let v1 = f32_bits(tr.y as i64 + tr.height as i64);
    let mut vs: Vec<ShapeVertex> = Vec::new();
    vs.push(ShapeVertex { position: [zero, zero, zero], color: cw, tex_coords: [u0, v0] });
    vs.push(ShapeVertex { position: [zero, sy, zero], color: cw, tex_coords: [u0, v1] });
    vs.push(ShapeVertex { position: [sx, sy, zero], color: cw, tex_coords: [u1, v1] });
    vs.push(ShapeVertex { position: [sx, zero, zero], color: cw, tex_coords: [u1, v0] });
    proof {
        assert forall|i: int| 0 <= i < 4 implies is_baked_rect_vertex(
            #[trigger] vs@[i],
            size,
            color,
            tr,
            i,
        ) by {
            assert(vs@[i].position@ =~= seq![
                f32_from_int(rect_point_spec(size, i).x as int),
                f32_from_int(rect_point_spec(size, i).y as int),
                f32_from_int(0),
            ]);
            assert(vs@[i].color@ =~= color.normalized_spec());
            assert(vs@[i].tex_coords@ =~= seq![
                f32_from_int(rect_uv_spec(tr, i).0),
                f32_from_int(rect_uv_spec(tr, i).1),
            ]);
        }
    }
    vs
}

impl RectangleShape {
    /// The shape's mirror matches the GPU: the vertex buffer holds the byte
    /// image of the CPU mirror, the index buffer the two fixed triangles,
    /// the uniform buffer the current model matrix.
    pub open spec fn wf(self, ctx: GraphicsContext) -> bool {
        &&& self.mesh.wf(ctx)
        &&& self.vertices@.len() == 4
        &&& self.mesh.num_elements == 6
        &&& ctx.buffers@[self.mesh.vertex_buffer as int].bytes@ == mirror_bytes(self.vertices@)
        &&& ctx.buffers@[self.mesh.index_buffer as int].bytes@ == words16_le_bytes(rect_indices())
    }

    /// Creates a rectangle of the given size: four white vertices at its
    /// corners, two triangles, both uploaded into fresh buffers, and a mesh
    /// whose uniform buffer holds a default transform's matrix.
    pub fn new(ctx: &mut GraphicsContext, size: Vec2) -> (shape: RectangleShape)
        requires
            old(ctx).has_layout("transform"@),
        ensures
            shape.wf(*final(ctx)),
            shape.size == size,
            shape.color == Color(255, 255, 255),
            shape.texture_rect == (Rect { x: 0, y: 0, width: 0, height: 0 }),
            shape.mesh.transform == Transform::default_spec(),
            is_initial_rect_mirror(shape.vertices@, size),
            final(ctx).buffers@.len() == old(ctx).buffers@.len() + 3,
            forall|k: int|
                0 <= k < old(ctx).buffers@.len() ==> final(ctx).buffers@[k] == old(
                    ctx,
                ).buffers@[k],
            appended(old(ctx).commands@, final(ctx).commands@, 4),
            final(ctx).config == old(ctx).config,
            final(ctx).render_pipelines == old(ctx).render_pipelines,
            final(ctx).bind_group_layouts == old(ctx).bind_group_layouts,
            final(ctx).textures == old(ctx).textures,
    {
        let zero = f32_bits(0);
        let sx = f32_bits(size.x as i64);
        let sy = f32_bits(size.y as i64);
        let cw = white().normalized();
        let mut vertices: Vec<ShapeVertex> = Vec::new();
        vertices.push(
            ShapeVertex {
                position: [zero, zero, zero],
                color: cw,
                tex_coords: [zero, zero],
            },
        );
        vertices.push(
            ShapeVertex {
                position: [zero, sy, zero],
                color: cw,
                tex_coords: [zero, f32_bits(36)],
            },
        );
        vertices.push(
            ShapeVertex {
                position: [sx, sy, zero],
                color: cw,
                tex_coords: [f32_bits(33), f32_bits(36)],
            },
        );
        vertices.push(
            ShapeVertex {
                position: [sx, zero, zero],
                color: cw,
                tex_coords: [f32_bits(33), zero],
            },
        );
        proof {
            assert forall|i: int| 0 <= i < 4 implies (#[trigger] vertices@[i]).position@ == seq![
                f32_from_int(rect_point_spec(size, i).x as int),
                f32_from_int(rect_point_spec(size, i).y as int),
                f32_from_int(0),
            ] && vertices@[i].color@ == Color(255, 255, 255).normalized_spec()
                && vertices@[i].tex_coords@ == seq![
                f32_from_int(initial_rect_uv(i).0),
                f32_from_int(initial_rect_uv(i).1),
            ] by {
                assert(vertices@[i].position@ =~= seq![
                    f32_from_int(rect_point_spec(size, i).x as int),
                    f32_from_int(rect_point_spec(size, i).y as int),
                    f32_from_int(0),
                ]);
                assert(vertices@[i].color@ =~= Color(255, 255, 255).normalized_spec());
                assert(vertices@[i].tex_coords@ =~= seq![
                    f32_from_int(initial_rect_uv(i).0),
                    f32_from_int(initial_rect_uv(i).1),
                ]);
            }
        }
        let mut indices: Vec<u16> = Vec::new();
        indices.push(0);
        indices.push(1);
        indices.push(3);
        indices.push(1);
        indices.push(2);
        indices.push(3);
        proof {
            assert(indices@ =~= rect_indices());
        }
        let vertex_bytes = vertices_to_bytes(&vertices);
        let vertex_buffer = ctx.create_buffer_init(
            vertex_bytes,
            BufferUsage { vertex: true, index: false, uniform: false, copy_dst: true },
        );
        let index_bytes = words16_to_bytes(&indices);
        let index_buffer = ctx.create_buffer_init(
            index_bytes,
            BufferUsage { vertex: false, index: true, uniform: false, copy_dst: false },
        );
        let ghost commands_before = old(ctx).commands@;
        let mesh = Mesh::new(ctx, vertex_buffer, index_buffer, 6);
        proof {
            assert(ctx.commands@.take(commands_before.len() as int) =~= commands_before);
        }
        RectangleShape {
            size,
            mesh,
            vertices,
            color: white(),
            texture_rect: Rect { x: 0, y: 0, width: 0, height: 0 },
        }
    }

    /// Hands out the mesh for drawing.
    pub fn mesh(&mut self) -> (m: &mut Mesh)
        ensures
            *m == old(self).mesh,
            final(self).mesh == *final(m),
            final(self).size == old(self).size,
            final(self).vertices == old(self).vertices,
            final(self).color == old(self).color,
            final(self).texture_rect == old(self).texture_rect,
    {
        &mut self.mesh
    }

    /// The rectangle's bounds: its position and its size. The origin plays
    /// no part.
    pub fn bounds(&self) -> (b: Rect)
        ensures
            b == (Rect {
                x: self.mesh.transform.position.x,
                y: self.mesh.transform.position.y,
                width: self.size.x,
                height: self.size.y,
            }),
    {
        Rect {
            x: self.mesh.transform.position.x,
            y: self.mesh.transform.position.y,
            width: self.size.x,
            height: self.size.y,
        }
    }

    pub fn size(&self) -> (s: Vec2)
        ensures
            s == self.size,
    {
        self.size
    }

    /// Re-derives the whole CPU mirror from the shape's state and uploads it
    /// into the vertex buffer.
    fn update(&mut self, ctx: &mut GraphicsContext)
        requires
            old(self).wf(*old(ctx)),
        ensures
            final(self).wf(*final(ctx)),
            final(self).size == old(self).size,
            final(self).color == old(self).color,
            final(self).texture_rect == old(self).texture_rect,
            final(self).mesh == old(self).mesh,
            is_baked_rect_mirror(
                final(self).vertices@,
                old(self).size,
                old(self).color,
                old(self).texture_rect,
            ),
            ctx_after_vertex_write(old(self).mesh, final(self).vertices@, *old(ctx), *final(ctx)),
    {
        let vs = baked_rect_vertices(self.size, self.color, self.texture_rect);
        let contents = vertices_to_bytes(&vs);
        proof {
            lemma_mirror_bytes_len(vs@);
            lemma_mirror_bytes_len(self.vertices@);
        }
        self.vertices = vs;
        ctx.write_buffer(self.mesh.vertex_buffer, contents);
    }

    /// The corner with the given index: 0 the origin, 1 below it, 2 the far
    /// corner, 3 beside it; anything else falls back to the origin.
    pub fn point(&self, index: usize) -> (p: Vec2)
        ensures
            p == rect_point_spec(self.size, index as int),
    {
        if index == 1 {
            Vec2 { x: 0, y: self.size.y }
        } else if index == 2 {
            self.size
        } else if index == 3 {
            Vec2 { x: self.size.x, y: 0 }
        } else {
            Vec2 { x: 0, y: 0 }
        }
    }

    pub fn point_count(&self) -> (n: usize)
        ensures
            n == self.vertices@.len(),
    {
        self.vertices.len()
    }

    /// Applies the fill colour to every vertex of the mirror and uploads it.
    pub fn set_fill_color(&mut self, ctx: &mut GraphicsContext, color: Color)
        requires
            old(self).wf(*old(ctx)),
        ensures
            final(self).wf(*final(ctx)),
            final(self).color == color,
            final(self).size == old(self).size,
            final(self).texture_rect == old(self).texture_rect,
            final(self).mesh == old(self).mesh,
            is_baked_rect_mirror(
                final(self).vertices@,
                old(self).size,
                color,
                old(self).texture_rect,
            ),
            ctx_after_vertex_write(old(self).mesh, final(self).vertices@, *old(ctx), *final(ctx)),
    {
        self.color = color;
        self.update(ctx);
    }

    /// Stores the texture rect and re-derives the four texture coordinates
    /// from its corners.
    pub fn set_texture_rect(&mut self, ctx: &mut GraphicsContext, rect: Rect)
        requires
            old(self).wf(*old(ctx)),
        ensures
            final(self).wf(*final(ctx)),
            final(self).texture_rect == rect,
            final(self).size == old(self).size,
            final(self).color == old(self).color,
            final(self).mesh == old(self).mesh,
            is_baked_rect_mirror(final(self).vertices@, old(self).size, old(self).color, rect),
            ctx_after_vertex_write(old(self).mesh, final(self).vertices@, *old(ctx), *final(ctx)),
    {
        self.texture_rect = rect;
        self.update(ctx);
    }

    /// Moves the rectangle to `position`: rewrites the uniform buffer with
    /// the new model matrix, then re-bakes and re-uploads the mirror.
    pub fn set_position(&mut self, ctx: &mut GraphicsContext, position: Vec2)
        requires
            old(self).wf(*old(ctx)),
        ensures
            final(self).wf(*final(ctx)),
            final(self).mesh.transform.position == position,
            same_but_position(final(self).mesh.transform, old(self).mesh.transform),
            same_mesh_handles(final(self).mesh, old(self).mesh),
            final(self).size == old(self).size,
            final(self).color == old(self).color,
            final(self).texture_rect == old(self).texture_rect,
            is_baked_rect_mirror(
                final(self).vertices@,
                old(self).size,
                old(self).color,
                old(self).texture_rect,
            ),
            ctx_after_uniform_and_vertex_write(
                old(self).mesh,
                final(self).mesh.transform,
                final(self).vertices@,
                *old(ctx),
                *final(ctx),
            ),
    {
        let ghost ctx0 = *ctx;
        self.mesh.transform.position = position;
        self.mesh.sync_transform(ctx);
        let ghost ctx1 = *ctx;
        self.update(ctx);
        proof {
            assert(ctx.commands@.take(ctx0.commands@.len() as int) =~= ctx0.commands@);
        }
    }

    pub fn position(&self) -> (p: Vec2)
        ensures
            p == self.mesh.transform.position,
    {
        self.mesh.transform.position
    }

    /// Shifts the rectangle by `offset` and rewrites the uniform buffer.
    /// The mirror stays as it is: the offset lives in the model matrix.
    pub fn move_by(&mut self, ctx: &mut GraphicsContext, offset: Vec2)
        requires
            old(self).wf(*old(ctx)),
            i32::MIN <= old(self).mesh.transform.position.x + offset.x <= i32::MAX,
            i32::MIN <= old(self).mesh.transform.position.y + offset.y <= i32::MAX,
        ensures
            final(self).wf(*final(ctx)),
            final(self).mesh.transform.position == (Vec2 {
                x: (old(self).mesh.transform.position.x + offset.x) as i32,
                y: (old(self).mesh.transform.position.y + offset.y) as i32,
            }),
            same_but_position(final(self).mesh.transform, old(self).mesh.transform),
            same_mesh_handles(final(self).mesh, old(self).mesh),
            final(self).size == old(self).size,
            final(self).color == old(self).color,
            final(self).texture_rect == old(self).texture_rect,
            final(self).vertices == old(self).vertices,
            ctx_after_uniform_write(
                old(self).mesh,
                final(self).mesh.transform,
                *old(ctx),
                *final(ctx),
            ),
    {
        let x = self.mesh.transform.position.x as i64 + offset.x as i64;
        let y = self.mesh.transform.position.y as i64 + offset.y as i64;
        self.mesh.transform.position = Vec2 { x: x as i32, y: y as i32 };
        self.mesh.sync_transform(ctx);
    }

    /// Sets the rotation and rewrites the uniform buffer. Rotation is
    /// GPU-only: the mirror is untouched.
    pub fn set_rotation(&mut self, ctx: &mut GraphicsContext, rotation: i32)
        requires
            old(self).wf(*old(ctx)),
        ensures
            final(self).wf(*final(ctx)),
            final(self).mesh.transform == (Transform {
                rotation,
                ..old(self).mesh.transform
            }),
            same_mesh_handles(final(self).mesh, old(self).mesh),
            final(self).size == old(self).size,
            final(self).color == old(self).color,
            final(self).texture_rect == old(self).texture_rect,
            final(self).vertices == old(self).vertices,
            ctx_after_uniform_write(
                old(self).mesh,
                final(self).mesh.transform,
                *old(ctx),
                *final(ctx),
            ),
    {
        self.mesh.transform.rotation = rotation;
        self.mesh.sync_transform(ctx);
    }

    pub fn rotation(&self) -> (r: i32)
        ensures
            r == self.mesh.transform.rotation,
    {
        self.mesh.transform.rotation
    }

    /// Adds `delta` to the rotation — past 360 degrees it resets to exactly
    /// 0 — and rewrites the uniform buffer.
    pub fn rotate(&mut self, ctx: &mut GraphicsContext, delta: i32)
        requires
            old(self).wf(*old(ctx)),
            old(self).mesh.transform.rotation + delta >= i32::MIN,
        ensures
            final(self).wf(*final(ctx)),
            final(self).mesh.transform.rotation == rotated(
                old(self).mesh.transform.rotation as int,
                delta as int,
            ),
            final(self).mesh.transform.position == old(self).mesh.transform.position,
            final(self).mesh.transform.scale == old(self).mesh.transform.scale,
            final(self).mesh.transform.origin == old(self).mesh.transform.origin,
            same_mesh_handles(final(self).mesh, old(self).mesh),
            final(self).size == old(self).size,
            final(self).color == old(self).color,
            final(self).texture_rect == old(self).texture_rect,
            final(self).vertices == old(self).vertices,
            ctx_after_uniform_write(
                old(self).mesh,
                final(self).mesh.transform,
                *old(ctx),
                *final(ctx),
            ),
    {
        self.mesh.transform.rotate(delta);
        self.mesh.sync_transform(ctx);
    }

    /// Sets the scale, rewrites the uniform buffer, and re-bakes the mirror.
    pub fn set_scale(&mut self, ctx: &mut GraphicsContext, scale: i32)
        requires
            old(self).wf(*old(ctx)),
        ensures
            final(self).wf(*final(ctx)),
            final(self).mesh.transform == (Transform { scale, ..old(self).mesh.transform }),
            same_mesh_handles(final(self).mesh, old(self).mesh),
            final(self).size == old(self).size,
            final(self).color == old(self).color,
            final(self).texture_rect == old(self).texture_rect,
            is_baked_rect_mirror(
                final(self).vertices@,
                old(self).size,
                old(self).color,
                old(self).texture_rect,
            ),
            ctx_after_uniform_and_vertex_write(
                old(self).mesh,
                final(self).mesh.transform,
                final(self).vertices@,
                *old(ctx),
                *final(ctx),
            ),
    {
        let ghost ctx0 = *ctx;
        self.mesh.transform.scale = scale;
        self.mesh.sync_transform(ctx);
        self.update(ctx);
        proof {
            assert(ctx.commands@.take(ctx0.commands@.len() as int) =~= ctx0.commands@);
        }
    }

    pub fn scale(&self) -> (s: i32)
        ensures
            s == self.mesh.transform.scale,
    {
        self.mesh.transform.scale
    }

    /// Sets the origin, rewrites the uniform buffer, and re-bakes the
    /// mirror.
    pub fn set_origin(&mut self, ctx: &mut GraphicsContext, origin: Vec2)
        requires
            old(self).wf(*old(ctx)),
        ensures
            final(self).wf(*final(ctx)),
            final(self).mesh.transform == (Transform { origin, ..old(self).mesh.transform }),
            same_mesh_handles(final(self).mesh, old(self).mesh),
            final(self).size == old(self).size,
            final(self).color == old(self).color,
            final(self).texture_rect == old(self).texture_rect,
            is_baked_rect_mirror(
                final(self).vertices@,
                old(self).size,
                old(self).color,
                old(self).texture_rect,
            ),
            ctx_after_uniform_and_vertex_write(
                old(self).mesh,
                final(self).mesh.transform,
                final(self).vertices@,
                *old(ctx),
                *final(ctx),
            ),
    {
        let ghost ctx0 = *ctx;
        self.mesh.transform.origin = origin;
        self.mesh.sync_transform(ctx);
        self.update(ctx);
        proof {
            assert(ctx.commands@.take(ctx0.commands@.len() as int) =~= ctx0.commands@);
        }
    }

    pub fn origin(&self) -> (o: Vec2)
        ensures
            o == self.mesh.transform.origin,
    {
        self.mesh.transform.origin
    }
}

/// Index `k` of a circle's triangle-fan index list: each perimeter vertex
/// `i` contributes the triangle `0, i + 1, ((i + 1) % n) + 1`.
pub open spec fn circle_index_at(n: int, k: int) -> u16 {
    if k % 3 == 0 {
        0u16
    } else if k % 3 == 1 {
        (k / 3 + 1) as u16
    } else {
        ((k / 3 + 1) % n + 1) as u16
    }
}

/// The full triangle-fan index list of a circle with `n` perimeter points.
pub open spec fn circle_indices(n: int) -> Seq<u16> {
    Seq::new((3 * n) as nat, |k: int| circle_index_at(n, k))
}

/// A circle mirror as created: a white centre vertex at the local origin,
/// then one white vertex per perimeter point, all texture coordinates zero.
pub open spec fn is_circle_mirror(vs: Seq<ShapeVertex>, radius: int, n: int) -> bool {
    &&& vs.len() == n + 1
    &&& vs[0].position@ == seq![f32_from_int(0), f32_from_int(0), f32_from_int(0)]
    &&& forall|i: int|
        1 <= i <= n ==> (#[trigger] vs[i]).position@ == circle_vertex_words(radius, i - 1, n).push(
            f32_from_int(0),
        )
    &&& forall|i: int| 0 <= i <= n ==> (#[trigger] vs[i]).color@ == Color(
        255,
        255,
        255,
    ).normalized_spec()
    &&& forall|i: int| 0 <= i <= n ==> (#[trigger] vs[i]).tex_coords@ == seq![
        f32_from_int(0),
        f32_from_int(0),
    ]
}

/// A circle approximated by a triangle fan over a fixed number of perimeter
/// points. Its vertices are fixed white: the fill-colour setter is a
/// documented no-op, and there is no texture-rect support.
pub struct CircleShape {
    pub radius: i32,
    pub point_count: u8,
    pub mesh: Mesh,
    pub vertices: Vec<ShapeVertex>,
    pub color: Color,
}

impl CircleShape {
    /// The circle's mirror matches the GPU: the vertex buffer holds the byte
    /// image of the CPU mirror, the index buffer the triangle fan, the
    /// uniform buffer the current model matrix.
    pub open spec fn wf(self, ctx: GraphicsContext) -> bool {
        &&& self.mesh.wf(ctx)
        &&& self.vertices@.len() == self.point_count as int + 1
        &&& self.mesh.num_elements as int == 3 * self.point_count as int
        &&& ctx.buffers@[self.mesh.vertex_buffer as int].bytes@ == mirror_bytes(self.vertices@)
        &&& ctx.buffers@[self.mesh.index_buffer as int].bytes@ == words16_le_bytes(
            circle_indices(self.point_count as int),
        )
    }

    /// Creates a circle of the given radius, approximated by `point_count`
    /// perimeter points: a centre vertex, one vertex per point, and a
    /// triangle fan, all uploaded into fresh buffers.
    pub fn new(ctx: &mut GraphicsContext, radius: i32, point_count: u8) -> (shape: CircleShape)
        requires
            old(ctx).has_layout("transform"@),
        ensures
            shape.wf(*final(ctx)),
            shape.radius == radius,
            shape.point_count == point_count,
            shape.color == Color(255, 255, 255),
            shape.mesh.transform == Transform::default_spec(),
            is_circle_mirror(shape.vertices@, radius as int, point_count as int),
            final(ctx).buffers@.len() == old(ctx).buffers@.len() + 3,
            forall|k: int|
                0 <= k < old(ctx).buffers@.len() ==> final(ctx).buffers@[k] == old(
                    ctx,
                ).buffers@[k],
            appended(old(ctx).commands@, final(ctx).commands@, 4),
            final(ctx).config == old(ctx).config,
            final(ctx).render_pipelines == old(ctx).render_pipelines,
            final(ctx).bind_group_layouts == old(ctx).bind_group_layouts,
            final(ctx).textures == old(ctx).textures,
    {
        let zero = f32_bits(0);
        let cw = white().normalized();
        let n = point_count as usize;
        let mut vertices: Vec<ShapeVertex> = Vec::new();
        let mut indices: Vec<u16> = Vec::new();
        vertices.push(
            ShapeVertex {
                position: [zero, zero, zero],
                color: cw,
                tex_coords: [zero, zero],
            },
        );
        proof {
            assert(vertices@[0].position@ =~= seq![
                f32_from_int(0),
                f32_from_int(0),
                f32_from_int(0),
            ]);
            assert(vertices@[0].color@ =~= Color(255, 255, 255).normalized_spec());
            assert(vertices@[0].tex_coords@ =~= seq![f32_from_int(0), f32_from_int(0)]);
        }
        let mut i: usize = 0;
        while i < n
            invariant
                n == point_count as int,
                n <= 255,
                i <= n,
                zero == f32_from_int(0),
                cw@ == Color(255, 255, 255).normalized_spec(),
                vertices@.len() == i + 1,
                vertices@[0].position@ == seq![f32_from_int(0), f32_from_int(0), f32_from_int(0)],
                forall|k: int|
                    1 <= k <= i ==> (#[trigger] vertices@[k]).position@ == circle_vertex_words(
                        radius as int,
                        k - 1,
                        n as int,
                    ).push(f32_from_int(0)),
                forall|k: int|
                    0 <= k <= i ==> (#[trigger] vertices@[k]).color@ == Color(
                        255,
                        255,
                        255,
                    ).normalized_spec(),
                forall|k: int|
                    0 <= k <= i ==> (#[trigger] vertices@[k]).tex_coords@ == seq![
                        f32_from_int(0),
                        f32_from_int(0),
                    ],
                indices@.len() == 3 * i,
                forall|k: int| 0 <= k < 3 * i ==> indices@[k] == circle_index_at(n as int, k),
            decreases n - i,
        {
            let w = circle_vertex(radius, i as u32, point_count as u32);
            vertices.push(
                ShapeVertex {
                    position: [w[0], w[1], zero],
                    color: cw,
                    tex_coords: [zero, zero],
                },
            );
            proof {
                assert(vertices@.last().position@ =~= circle_vertex_words(
                    radius as int,
                    i as int,
                    n as int,
                ).push(f32_from_int(0)));
                assert(vertices@.last().color@ =~= Color(255, 255, 255).normalized_spec());
                assert(vertices@.last().tex_coords@ =~= seq![f32_from_int(0), f32_from_int(0)]);
            }
            indices.push(0);
            indices.push((i + 1) as u16);
            indices.push((((i + 1) % n) + 1) as u16);
            proof {
                let k0 = 3 * i as int;
                assert(k0 % 3 == 0 && (k0 + 1) % 3 == 1 && (k0 + 2) % 3 == 2);
                assert((k0 + 1) / 3 == i as int && (k0 + 2) / 3 == i as int);
                assert(indices@[k0] == circle_index_at(n as int, k0));
                assert(indices@[k0 + 1] == circle_index_at(n as int, k0 + 1));
                assert(indices@[k0 + 2] == circle_index_at(n as int, k0 + 2));
            }
            i += 1;
        }
        proof {
            assert(indices@ =~= circle_indices(n as int));
        }
        let vertex_bytes = vertices_to_bytes(&vertices);
        let vertex_buffer = ctx.create_buffer_init(
            vertex_bytes,
            BufferUsage { vertex: true, index: false, uniform: false, copy_dst: true },
        );
        let index_bytes = words16_to_bytes(&indices);
        let index_buffer = ctx.create_buffer_init(
            index_bytes,
            BufferUsage { vertex: false, index: true, uniform: false, copy_dst: false },
        );
        let num_elements = (indices.len()) as u32;
        let ghost commands_before = old(ctx).commands@;
        let mesh = Mesh::new(ctx, vertex_buffer, index_buffer, num_elements);
        proof {
            assert(ctx.commands@.take(commands_before.len() as int) =~= commands_before);
        }
        CircleShape { radius, point_count, mesh, vertices, color: white() }
    }

    /// The circle's fill colour is fixed white; setting it is a documented
    /// no-op. Nothing changes, on the CPU or the GPU.
    pub fn set_fill_color(&mut self, _color: Color)
        ensures
            *final(self) == *old(self),
    {
    }

    /// The circle has no texture-rect support; setting one is a no-op.
    pub fn set_texture_rect(&mut self, _rect: Rect)
        ensures
            *final(self) == *old(self),
    {
    }

    /// The geometry-query point with the given index, as a pair of float
    /// words: the point at angle `2*pi*index/point_count - pi/2`, so index 0
    /// is the top of the circle, offset by the centre `(radius, radius)`.
    pub fn point(&self, index: usize) -> (p: [u32; 2])
        ensures
            p@ == circle_point_words(self.radius as int, index as int, self.point_count as int),
    {
        circle_point_query(self.radius, index as u64, self.point_count as u32)
    }

    /// The number of vertex records, the centre vertex included.
    pub fn point_count(&self) -> (c: usize)
        ensures
            c == self.vertices@.len(),
    {
        self.vertices.len()
    }

    /// Moves the circle to `position` and rewrites the uniform buffer. The
    /// mirror never changes: circle geometry lives in the model matrix.
    pub fn set_position(&mut self, ctx: &mut GraphicsContext, position: Vec2)
        requires
            old(self).wf(*old(ctx)),
        ensures
            final(self).wf(*final(ctx)),
            final(self).mesh.transform.position == position,
            same_but_position(final(self).mesh.transform, old(self).mesh.transform),
            same_mesh_handles(final(self).mesh, old(self).mesh),
            final(self).radius == old(self).radius,
            final(self).point_count == old(self).point_count,
            final(self).color == old(self).color,
            final(self).vertices == old(self).vertices,
            ctx_after_uniform_write(
                old(self).mesh,
                final(self).mesh.transform,
                *old(ctx),
                *final(ctx),
            ),
    {
        self.mesh.transform.position = position;
        self.mesh.sync_transform(ctx);
    }

    pub fn position(&self) -> (p: Vec2)
        ensures
            p == self.mesh.transform.position,
    {
        self.mesh.transform.position
    }

    /// Shifts the circle by `offset` and rewrites the uniform buffer.
    pub fn move_by(&mut self, ctx: &mut GraphicsContext, offset: Vec2)
        requires
            old(self).wf(*old(ctx)),
            i32::MIN <= old(self).mesh.transform.position.x + offset.x <= i32::MAX,
            i32::MIN <= old(self).mesh.transform.position.y + offset.y <= i32::MAX,
        ensures
            final(self).wf(*final(ctx)),
            final(self).mesh.transform.position == (Vec2 {
                x: (old(self).mesh.transform.position.x + offset.x) as i32,
                y: (old(self).mesh.transform.position.y + offset.y) as i32,
            }),
            same_but_position(final(self).mesh.transform, old(self).mesh.transform),
            same_mesh_handles(final(self).mesh, old(self).mesh),
            final(self).radius == old(self).radius,
            final(self).point_count == old(self).point_count,
            final(self).color == old(self).color,
            final(self).vertices == old(self).vertices,
            ctx_after_uniform_write(
                old(self).mesh,
                final(self).mesh.transform,
                *old(ctx),
                *final(ctx),
            ),
    {
        let x = self.mesh.transform.position.x as i64 + offset.x as i64;
        let y = self.mesh.transform.position.y as i64 + offset.y as i64;
        self.mesh.transform.position = Vec2 { x: x as i32, y: y as i32 };
        self.mesh.sync_transform(ctx);
    }

    /// Sets the rotation and rewrites the uniform buffer.
    pub fn set_rotation(&mut self, ctx: &mut GraphicsContext, rotation: i32)
        requires
            old(self).wf(*old(ctx)),
        ensures
            final(self).wf(*final(ctx)),
            final(self).mesh.transform == (Transform {
                rotation,
                ..old(self).mesh.transform
            }),
            same_mesh_handles(final(self).mesh, old(self).mesh),
            final(self).radius == old(self).radius,
            final(self).point_count == old(self).point_count,
            final(self).color == old(self).color,
            final(self).vertices == old(self).vertices,
            ctx_after_uniform_write(
                old(self).mesh,
                final(self).mesh.transform,
                *old(ctx),
                *final(ctx),
            ),
    {
        self.mesh.transform.rotation = rotation;
        self.mesh.sync_transform(ctx);
    }

    pub fn rotation(&self) -> (r: i32)
        ensures
            r == self.mesh.transform.rotation,
    {
        self.mesh.transform.rotation
    }

    /// Adds `delta` to the rotation — past 360 degrees it resets to exactly
    /// 0 — and rewrites the uniform buffer.
    pub fn rotate(&mut self, ctx: &mut GraphicsContext, delta: i32)
        requires
            old(self).wf(*old(ctx)),
            old(self).mesh.transform.rotation + delta >= i32::MIN,
        ensures
            final(self).wf(*final(ctx)),
            final(self).mesh.transform.rotation == rotated(
                old(self).mesh.transform.rotation as int,
                delta as int,
            ),
            final(self).mesh.transform.position == old(self).mesh.transform.position,
            final(self).mesh.transform.scale == old(self).mesh.transform.scale,
            final(self).mesh.transform.origin == old(self).mesh.transform.origin,
            same_mesh_handles(final(self).mesh, old(self).mesh),
            final(self).radius == old(self).radius,
            final(self).point_count == old(self).point_count,
            final(self).color == old(self).color,
            final(self).vertices == old(self).vertices,
            ctx_after_uniform_write(
                old(self).mesh,
                final(self).mesh.transform,
                *old(ctx),
                *final(ctx),
            ),
    {
        self.mesh.transform.rotate(delta);
        self.mesh.sync_transform(ctx);
    }

    /// Sets the scale and rewrites the uniform buffer.
    pub fn set_scale(&mut self, ctx: &mut GraphicsContext, scale: i32)
        requires
            old(self).wf(*old(ctx)),
        ensures
            final(self).wf(*final(ctx)),
            final(self).mesh.transform == (Transform { scale, ..old(self).mesh.transform }),
            same_mesh_handles(final(self).mesh, old(self).mesh),
            final(self).radius == old(self).radius,
            final(self).point_count == old(self).point_count,
            final(self).color == old(self).color,
            final(self).vertices == old(self).vertices,
            ctx_after_uniform_write(
                old(self).mesh,
                final(self).mesh.transform,
                *old(ctx),
                *final(ctx),
            ),
    {
        self.mesh.transform.scale = scale;
        self.mesh.sync_transform(ctx);
    }

    pub fn scale(&self) -> (s: i32)
        ensures
            s == self.mesh.transform.scale,
    {
        self.mesh.transform.scale
    }

    /// Sets the origin and rewrites the uniform buffer.
    pub fn set_origin(&mut self, ctx: &mut GraphicsContext, origin: Vec2)
        requires
            old(self).wf(*old(ctx)),
        ensures
            final(self).wf(*final(ctx)),
            final(self).mesh.transform == (Transform { origin, ..old(self).mesh.transform }),
            same_mesh_handles(final(self).mesh, old(self).mesh),
            final(self).radius == old(self).radius,
            final(self).point_count == old(self).point_count,
            final(self).color == old(self).color,
            final(self).vertices == old(self).vertices,
            ctx_after_uniform_write(
                old(self).mesh,
                final(self).mesh.transform,
                *old(ctx),
                *final(ctx),
            ),
    {
        self.mesh.transform.origin = origin;
        self.mesh.sync_transform(ctx);
    }

    pub fn origin(&self) -> (o: Vec2)
        ensures
            o == self.mesh.transform.origin,
    {
        self.mesh.transform.origin
    }
}

} // verus!
