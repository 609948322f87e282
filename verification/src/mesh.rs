//! The GPU-resident resource bag of one drawable, and the render-pass
//! recorder that binds it for drawing.
//!
//! A mesh owns a vertex buffer, an index buffer, an element count, a uniform
//! buffer holding the current model matrix, the bind group exposing that
//! uniform buffer, and a [`Transform`]. The mesh itself is passive: the
//! owning primitive mutates `transform` and rewrites the uniform buffer.

use vstd::prelude::*;

use crate::bytes::lemma_words_le_bytes_len;
use crate::bytes::matrix_to_bytes;
use crate::bytes::words_le_bytes;
use crate::gpu::appended;
use crate::gpu::is_create_bind_group;
use crate::gpu::is_create_buffer;
use crate::gpu::BindingResource;
use crate::gpu::BufferUsage;
use crate::gpu::GraphicsContext;
use crate::transform::Transform;
use vstd::string::StringExecFns;

verus! {

/// The GPU resources of one drawable primitive.
pub struct Mesh {
    pub vertex_buffer: usize,
    pub index_buffer: usize,
    pub transform: Transform,
    pub buffer: usize,
    pub bind_group: usize,
    pub num_elements: u32,
}

impl Mesh {
    /// The mesh's handles point into the context, its three buffers are
    /// distinct, and the uniform buffer is sized for one 4x4 float matrix.
    pub open spec fn handles_ok(self, ctx: GraphicsContext) -> bool {
        &&& self.vertex_buffer < ctx.buffers@.len()
        &&& self.index_buffer < ctx.buffers@.len()
        &&& self.buffer < ctx.buffers@.len()
        &&& self.bind_group < ctx.bind_groups@.len()
        &&& self.vertex_buffer != self.index_buffer
        &&& self.vertex_buffer != self.buffer
        &&& self.index_buffer != self.buffer
        &&& ctx.buffers@[self.buffer as int].bytes@.len() == 64
    }

    /// The handles are sound and the uniform buffer holds exactly the byte
    /// image of the transform's current model matrix.
    pub open spec fn wf(self, ctx: GraphicsContext) -> bool {
        &&& self.handles_ok(ctx)
        &&& ctx.buffers@[self.buffer as int].bytes@ == words_le_bytes(self.transform.model_words())
    }

    /// Creates the uniform buffer, filled with the model matrix of a default
    /// transform, and a bind group exposing it under binding slot 0 of the
    /// registered "transform" layout. The layout must have been registered
    /// before any mesh is created.
    pub fn new(
        ctx: &mut GraphicsContext,
        vertex_buffer: usize,
        index_buffer: usize,
        num_elements: u32,
    ) -> (m: Mesh)
        requires
            old(ctx).has_layout("transform"@),
            vertex_buffer < old(ctx).buffers@.len(),
            index_buffer < old(ctx).buffers@.len(),
            vertex_buffer != index_buffer,
        ensures
            m.vertex_buffer == vertex_buffer,
            m.index_buffer == index_buffer,
            m.num_elements == num_elements,
            m.transform == Transform::default_spec(),
            m.buffer == old(ctx).buffers@.len(),
            m.bind_group == old(ctx).bind_groups@.len(),
            m.wf(*final(ctx)),
            final(ctx).buffers@.len() == old(ctx).buffers@.len() + 1,
            forall|k: int|
                0 <= k < old(ctx).buffers@.len() ==> final(ctx).buffers@[k] == old(
                    ctx,
                ).buffers@[k],
            final(ctx).buffers@[m.buffer as int].usage == (BufferUsage {
                vertex: false,
                index: false,
                uniform: true,
                copy_dst: true,
            }),
            final(ctx).buffers@[m.buffer as int].bytes@ == words_le_bytes(
                Transform::default_spec().model_words(),
            ),
            final(ctx).bind_groups@.len() == old(ctx).bind_groups@.len() + 1,
            forall|k: int|
                0 <= k < old(ctx).bind_groups@.len() ==> final(ctx).bind_groups@[k] == old(
                    ctx,
                ).bind_groups@[k],
            final(ctx).bind_groups@[m.bind_group as int].layout@ == "transform"@,
            final(ctx).bind_groups@[m.bind_group as int].entries@ == seq![
                BindingResource::Buffer(m.buffer),
            ],
            appended(old(ctx).commands@, final(ctx).commands@, 2),
            is_create_buffer(
                final(ctx).commands@[old(ctx).commands@.len() as int],
                m.buffer as int,
                BufferUsage { vertex: false, index: false, uniform: true, copy_dst: true },
                words_le_bytes(Transform::default_spec().model_words()),
            ),
            is_create_bind_group(
                final(ctx).commands@.last(),
                m.bind_group as int,
                "transform"@,
                seq![BindingResource::Buffer(m.buffer)],
            ),
            final(ctx).config == old(ctx).config,
            final(ctx).render_pipelines == old(ctx).render_pipelines,
            final(ctx).bind_group_layouts == old(ctx).bind_group_layouts,
            final(ctx).textures == old(ctx).textures,
            final(ctx).views == old(ctx).views,
            final(ctx).samplers == old(ctx).samplers,
    {
        let transform = Transform::default();
        let matrix = transform.to_model_matrix();
        let contents = matrix_to_bytes(&matrix);
        proof {
            lemma_words_le_bytes_len(matrix@);
        }
        let ghost commands_before = ctx.commands@;
        let buffer = ctx.create_buffer_init(
            contents,
            BufferUsage { vertex: false, index: false, uniform: true, copy_dst: true },
        );
        let ghost commands_mid = ctx.commands@;
        let mut entries: Vec<BindingResource> = Vec::new();
        entries.push(BindingResource::Buffer(buffer));
        let bind_group = ctx.create_bind_group(String::from_str("transform"), entries);
        proof {
            assert(entries@ =~= seq![BindingResource::Buffer(buffer)]);
            assert(ctx.commands@.take(commands_before.len() as int) =~= commands_before);
        }
        Mesh { vertex_buffer, index_buffer, transform, buffer, bind_group, num_elements }
    }
}

/// The index width of an index buffer.
#[derive(Clone, Copy, Debug, PartialEq, Eq, Structural)]
pub enum IndexFormat {
    Uint16,
    Uint32,
}

/// One operation recorded into a render pass, for the host to replay.
pub enum RenderCommand {
    SetPipeline { pipeline: String },
    SetBindGroup { slot: u32, bind_group: usize },
    SetVertexBuffer { slot: u32, buffer: usize },
    SetIndexBuffer { buffer: usize, format: IndexFormat },
    DrawIndexed { start: u32, end: u32, base_vertex: i32, instance_start: u32, instance_end: u32 },
}

/// A render pass, recorded as the exact operation sequence the host must
/// replay against the real pass.
pub struct RenderPass {
    pub commands: Vec<RenderCommand>,
}

impl RenderPass {
    pub fn new() -> (p: RenderPass)
        ensures
            p.commands@.len() == 0,
    {
        RenderPass { commands: Vec::new() }
    }

    pub fn set_pipeline(&mut self, pipeline: String)
        ensures
            appended(old(self).commands@, final(self).commands@, 1),
            match final(self).commands@.last() {
                RenderCommand::SetPipeline { pipeline: p } => p@ == pipeline@,
                _ => false,
            },
    {
        self.commands.push(RenderCommand::SetPipeline { pipeline });
        assert(self.commands@.take(old(self).commands@.len() as int) =~= old(self).commands@);
    }

    pub fn set_bind_group(&mut self, slot: u32, bind_group: usize)
        ensures
            appended(old(self).commands@, final(self).commands@, 1),
            final(self).commands@.last() == (RenderCommand::SetBindGroup { slot, bind_group }),
    {
        self.commands.push(RenderCommand::SetBindGroup { slot, bind_group });
        assert(self.commands@.take(old(self).commands@.len() as int) =~= old(self).commands@);
    }

    pub fn set_vertex_buffer(&mut self, slot: u32, buffer: usize)
        ensures
            appended(old(self).commands@, final(self).commands@, 1),
            final(self).commands@.last() == (RenderCommand::SetVertexBuffer { slot, buffer }),
    {
        self.commands.push(RenderCommand::SetVertexBuffer { slot, buffer });
        assert(self.commands@.take(old(self).commands@.len() as int) =~= old(self).commands@);
    }

    pub fn set_index_buffer(&mut self, buffer: usize, format: IndexFormat)
        ensures
            appended(old(self).commands@, final(self).commands@, 1),
            final(self).commands@.last() == (RenderCommand::SetIndexBuffer { buffer, format }),
    {
        self.commands.push(RenderCommand::SetIndexBuffer { buffer, format });
        assert(self.commands@.take(old(self).commands@.len() as int) =~= old(self).commands@);
    }

    pub fn draw_indexed(
        &mut self,
        start: u32,
        end: u32,
        base_vertex: i32,
        instance_start: u32,
        instance_end: u32,
    )
        ensures
            appended(old(self).commands@, final(self).commands@, 1),
            final(self).commands@.last() == (RenderCommand::DrawIndexed {
                start,
                end,
                base_vertex,
                instance_start,
                instance_end,
            }),
    {
        self.commands.push(
            RenderCommand::DrawIndexed { start, end, base_vertex, instance_start, instance_end },
        );
        assert(self.commands@.take(old(self).commands@.len() as int) =~= old(self).commands@);
    }

    /// Binds a mesh for drawing and issues one indexed draw over all of its
    /// elements: the transform bind group in slot 3, then the vertex buffer
    /// in slot 0, then the index buffer as 16-bit indices, then a single
    /// instance covering elements `0 .. num_elements`. Draws only; mutates
    /// nothing of the mesh.
    pub fn draw_mesh(&mut self, mesh: &Mesh)
        ensures
            final(self).commands@ == old(self).commands@ + seq![
                RenderCommand::SetBindGroup { slot: 3, bind_group: mesh.bind_group },
                RenderCommand::SetVertexBuffer { slot: 0, buffer: mesh.vertex_buffer },
                RenderCommand::SetIndexBuffer {
                    buffer: mesh.index_buffer,
                    format: IndexFormat::Uint16,
                },
                RenderCommand::DrawIndexed {
                    start: 0,
                    end: mesh.num_elements,
                    base_vertex: 0,
                    instance_start: 0,
                    instance_end: 1,
                },
            ],
    {
        self.set_bind_group(3, mesh.bind_group);
        self.set_vertex_buffer(0, mesh.vertex_buffer);
        self.set_index_buffer(mesh.index_buffer, IndexFormat::Uint16);
        self.draw_indexed(0, mesh.num_elements, 0, 0, 1);
        assert(self.commands@ =~= old(self).commands@ + seq![
            RenderCommand::SetBindGroup { slot: 3, bind_group: mesh.bind_group },
            RenderCommand::SetVertexBuffer { slot: 0, buffer: mesh.vertex_buffer },
            RenderCommand::SetIndexBuffer {
                buffer: mesh.index_buffer,
                format: IndexFormat::Uint16,
            },
            RenderCommand::DrawIndexed {
                start: 0,
                end: mesh.num_elements,
                base_vertex: 0,
                instance_start: 0,
                instance_end: 1,
            },
        ]);
    }
}

} // verus!
