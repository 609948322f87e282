use rusty::gpu::classify_surface_error;
use rusty::gpu::FrameAction;
use rusty::gpu::GpuCommand;
use rusty::gpu::SurfaceError;
use rusty::gpu::GraphicsContext;
use rusty::gpu::SurfaceConfig;
use rusty::math::Vec2;
use rusty::mesh::IndexFormat;
use rusty::mesh::RenderCommand;
use rusty::mesh::RenderPass;
use rusty::shape::RectangleShape;
use rusty::vertex::ShapeVertex;
use rusty::vertex::VertexFormat;

fn context() -> GraphicsContext {
    let mut ctx = GraphicsContext::init(SurfaceConfig { width: 800, height: 600 });
    ctx.register_bind_group_layout("transform".to_string());
    ctx
}

fn model_bytes(position: (f32, f32), rotation: f32, origin: (f32, f32)) -> Vec<u8> {
    let m = glam::Mat4::from_translation((position.0, position.1, 0.0).into())
        * glam::Mat4::from_rotation_z(rotation)
        * glam::Mat4::from_translation((-origin.0, -origin.1, 0.).into());
    m.to_cols_array().iter().flat_map(|f| f.to_bits().to_le_bytes()).collect()
}

#[test]
fn fresh_mesh_uniform_holds_the_default_matrix() {
    let mut ctx = context();
    let rect = RectangleShape::new(&mut ctx, Vec2 { x: 10, y: 10 });
    assert_eq!(ctx.buffers[rect.mesh.buffer].bytes, model_bytes((0., 0.), 0., (0., 0.)));
    assert!(ctx.buffers[rect.mesh.buffer].usage.uniform);
    assert!(ctx.buffers[rect.mesh.buffer].usage.copy_dst);
}

#[test]
fn every_transform_mutator_rewrites_the_uniform_buffer() {
    let mut ctx = context();
    let mut rect = RectangleShape::new(&mut ctx, Vec2 { x: 10, y: 10 });
    rect.set_position(&mut ctx, Vec2 { x: 7, y: 9 });
    assert_eq!(ctx.buffers[rect.mesh.buffer].bytes, model_bytes((7., 9.), 0., (0., 0.)));
    rect.set_rotation(&mut ctx, 45);
    assert_eq!(ctx.buffers[rect.mesh.buffer].bytes, model_bytes((7., 9.), 45., (0., 0.)));
    rect.set_origin(&mut ctx, Vec2 { x: 1, y: 2 });
    assert_eq!(ctx.buffers[rect.mesh.buffer].bytes, model_bytes((7., 9.), 45., (1., 2.)));
    rect.move_by(&mut ctx, Vec2 { x: 3, y: -4 });
    assert_eq!(ctx.buffers[rect.mesh.buffer].bytes, model_bytes((10., 5.), 45., (1., 2.)));
    rect.set_scale(&mut ctx, 2);
    assert_eq!(ctx.buffers[rect.mesh.buffer].bytes, model_bytes((10., 5.), 45., (1., 2.)));
}

#[test]
fn mesh_bind_group_exposes_the_uniform_buffer() {
    let mut ctx = context();
    let rect = RectangleShape::new(&mut ctx, Vec2 { x: 10, y: 10 });
    let bind_group = &ctx.bind_groups[rect.mesh.bind_group];
    assert_eq!(bind_group.layout, "transform");
    assert_eq!(bind_group.entries.len(), 1);
    assert!(matches!(
        bind_group.entries[0],
        rusty::gpu::BindingResource::Buffer(b) if b == rect.mesh.buffer
    ));
}

#[test]
fn draw_mesh_binds_and_draws_in_fixed_order() {
    let mut ctx = context();
    let mut rect = RectangleShape::new(&mut ctx, Vec2 { x: 10, y: 10 });
    let mut pass = RenderPass::new();
    let mesh = rect.mesh();
    pass.draw_mesh(mesh);
    assert_eq!(pass.commands.len(), 4);
    assert!(matches!(
        pass.commands[0],
        RenderCommand::SetBindGroup { slot: 3, bind_group } if bind_group == mesh.bind_group
    ));
    assert!(matches!(
        pass.commands[1],
        RenderCommand::SetVertexBuffer { slot: 0, buffer } if buffer == mesh.vertex_buffer
    ));
    assert!(matches!(
        pass.commands[2],
        RenderCommand::SetIndexBuffer { buffer, format: IndexFormat::Uint16 }
            if buffer == mesh.index_buffer
    ));
    assert!(matches!(
        pass.commands[3],
        RenderCommand::DrawIndexed { start: 0, end: 6, base_vertex: 0, instance_start: 0, instance_end: 1 }
    ));
}

#[test]
fn shape_creation_records_replayable_commands() {
    let mut ctx = context();
    let rect = RectangleShape::new(&mut ctx, Vec2 { x: 10, y: 10 });
    let commands = ctx.drain_commands();
    assert_eq!(commands.len(), 4);
    assert!(matches!(
        &commands[0],
        GpuCommand::CreateBuffer { buffer, usage, contents }
            if *buffer == rect.mesh.vertex_buffer && usage.vertex
                && *contents == ctx.buffers[rect.mesh.vertex_buffer].bytes
    ));
    assert!(matches!(
        &commands[1],
        GpuCommand::CreateBuffer { buffer, usage, .. }
            if *buffer == rect.mesh.index_buffer && usage.index
    ));
    assert!(matches!(
        &commands[2],
        GpuCommand::CreateBuffer { buffer, usage, .. }
            if *buffer == rect.mesh.buffer && usage.uniform
    ));
    assert!(matches!(
        &commands[3],
        GpuCommand::CreateBindGroup { bind_group, layout, .. }
            if *bind_group == rect.mesh.bind_group && layout == "transform"
    ));
    assert!(ctx.drain_commands().is_empty());
}

#[test]
fn transform_mutations_record_buffer_writes() {
    let mut ctx = context();
    let mut rect = RectangleShape::new(&mut ctx, Vec2 { x: 10, y: 10 });
    ctx.drain_commands();
    rect.set_rotation(&mut ctx, 90);
    let commands = ctx.drain_commands();
    assert_eq!(commands.len(), 1);
    assert!(matches!(
        &commands[0],
        GpuCommand::WriteBuffer { buffer, contents }
            if *buffer == rect.mesh.buffer && *contents == ctx.buffers[rect.mesh.buffer].bytes
    ));
}

#[test]
fn vertex_layout_matches_the_record() {
    let layout = ShapeVertex::desc();
    assert_eq!(layout.array_stride, 36);
    let offsets: Vec<(u64, u32)> =
        layout.attributes.iter().map(|a| (a.offset, a.shader_location)).collect();
    assert_eq!(offsets, vec![(0, 0), (12, 1), (28, 2)]);
    assert_eq!(layout.attributes[0].format, VertexFormat::Float32x3);
    assert_eq!(layout.attributes[1].format, VertexFormat::Float32x4);
    assert_eq!(layout.attributes[2].format, VertexFormat::Float32x2);
}

#[test]
fn layout_registry_finds_only_registered_names() {
    let mut ctx = GraphicsContext::init(SurfaceConfig { width: 1, height: 1 });
    assert!(ctx.lookup_bind_group_layout(&"transform".to_string()).is_none());
    ctx.register_bind_group_layout("transform".to_string());
    ctx.register_bind_group_layout("texture".to_string());
    ctx.register_bind_group_layout("transform".to_string());
    assert_eq!(ctx.bind_group_layouts.len(), 2);
    assert!(ctx.lookup_bind_group_layout(&"transform".to_string()).is_some());
    assert!(ctx.lookup_bind_group_layout(&"texture".to_string()).is_some());
    assert!(ctx.lookup_bind_group_layout(&"mouse".to_string()).is_none());
}

#[test]
fn only_out_of_memory_is_fatal() {
    assert_eq!(classify_surface_error(SurfaceError::OutOfMemory), FrameAction::Exit);
    assert_eq!(classify_surface_error(SurfaceError::Timeout), FrameAction::RetryNextFrame);
    assert_eq!(classify_surface_error(SurfaceError::Outdated), FrameAction::RetryNextFrame);
    assert_eq!(classify_surface_error(SurfaceError::Lost), FrameAction::RetryNextFrame);
}

#[test]
fn resize_updates_only_the_surface_config() {
    let mut ctx = context();
    let _rect = RectangleShape::new(&mut ctx, Vec2 { x: 10, y: 10 });
    let buffers_before = ctx.buffers.len();
    ctx.resize(1024, 768);
    assert_eq!(ctx.config, SurfaceConfig { width: 1024, height: 768 });
    assert_eq!(ctx.buffers.len(), buffers_before);
}
