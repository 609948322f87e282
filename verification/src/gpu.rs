//! The shared graphics context, modelled as plain state.
//!
//! The context owns the registries (pipeline and bind-group-layout names),
//! the surface configuration, and an image of every GPU resource created
//! through it: buffer contents, bind groups, textures. Each mutation is also
//! recorded as a [`GpuCommand`]; a host program drains the command log and
//! replays it through the real device, in program order.

use vstd::prelude::*;

verus! {

/// The surface configuration: the drawable size in pixels.
#[derive(Clone, Copy, Debug, PartialEq, Eq, Structural)]
pub struct SurfaceConfig {
    pub width: u32,
    pub height: u32,
}

/// What a buffer is used for; mirrors the usage flags a device expects.
#[derive(Clone, Copy, Debug, PartialEq, Eq, Structural)]
pub struct BufferUsage {
    pub vertex: bool,
    pub index: bool,
    pub uniform: bool,
    pub copy_dst: bool,
}

/// A GPU buffer: its usage and the bytes it currently holds.
pub struct GpuBuffer {
    pub usage: BufferUsage,
    pub bytes: Vec<u8>,
}

/// One resource bound by a bind group entry.
#[derive(Clone, Copy, Debug, PartialEq, Eq, Structural)]
pub enum BindingResource {
    Buffer(usize),
    TextureView(usize),
    Sampler(usize),
}

/// A bind group: a named layout plus the bound resources, one per binding
/// slot starting at 0.
pub struct BindGroup {
    pub layout: String,
    pub entries: Vec<BindingResource>,
}

/// A GPU texture: its pixel size and the RGBA bytes written into it.
pub struct GpuTexture {
    pub width: u32,
    pub height: u32,
    pub pixels: Vec<u8>,
}

/// One device operation, recorded for the host program to replay.
pub enum GpuCommand {
    CreateBuffer { buffer: usize, usage: BufferUsage, contents: Vec<u8> },
    WriteBuffer { buffer: usize, contents: Vec<u8> },
    CreateBindGroup { bind_group: usize, layout: String, entries: Vec<BindingResource> },
    CreateTexture { texture: usize, width: u32, height: u32 },
    WriteTexture { texture: usize, pixels: Vec<u8> },
    CreateTextureView { view: usize, texture: usize },
    CreateSampler { sampler: usize },
}

/// Why acquiring the next surface frame failed.
#[derive(Clone, Copy, Debug, PartialEq, Eq, Structural)]
pub enum SurfaceError {
    Timeout,
    Outdated,
    Lost,
    OutOfMemory,
}

/// What a frame loop does about a failed surface acquisition.
#[derive(Clone, Copy, Debug, PartialEq, Eq, Structural)]
pub enum FrameAction {
    /// The process cannot recover; it must exit.
    Exit,
    /// The failure is transient; skip this frame and retry on the next.
    RetryNextFrame,
}

/// Classifies a surface acquisition failure: running out of memory is
/// fatal, every other failure is skipped and retried next frame.
pub fn classify_surface_error(error: SurfaceError) -> (action: FrameAction)
    ensures
        action == (if error == SurfaceError::OutOfMemory {
            FrameAction::Exit
        } else {
            FrameAction::RetryNextFrame
        }),
{
    match error {
        SurfaceError::OutOfMemory => FrameAction::Exit,
        _ => FrameAction::RetryNextFrame,
    }
}

/// `new` extends `old` by exactly `n` entries.
pub open spec fn appended<T>(old: Seq<T>, new: Seq<T>, n: int) -> bool {
    new.len() == old.len() + n && new.take(old.len() as int) == old
}

pub open spec fn is_create_buffer(
    c: GpuCommand,
    buffer: int,
    usage: BufferUsage,
    contents: Seq<u8>,
) -> bool {
    match c {
        GpuCommand::CreateBuffer { buffer: b, usage: u, contents: cs } => {
            b == buffer && u == usage && cs@ == contents
        },
        _ => false,
    }
}

pub open spec fn is_write_buffer(c: GpuCommand, buffer: int, contents: Seq<u8>) -> bool {
    match c {
        GpuCommand::WriteBuffer { buffer: b, contents: cs } => b == buffer && cs@ == contents,
        _ => false,
    }
}

pub open spec fn is_create_bind_group(
    c: GpuCommand,
    bind_group: int,
    layout: Seq<char>,
    entries: Seq<BindingResource>,
) -> bool {
    match c {
        GpuCommand::CreateBindGroup { bind_group: g, layout: l, entries: es } => {
            g == bind_group && l@ == layout && es@ == entries
        },
        _ => false,
    }
}

/// Copies a list of plain values.
pub fn copy_vec<T: Copy>(src: &Vec<T>) -> (out: Vec<T>)
    ensures
        out@ == src@,
{
    let mut out: Vec<T> = Vec::new();
    let mut i: usize = 0;
    while i < src.len()
        invariant
            i <= src@.len(),
            out@ == src@.take(i as int),
        decreases src@.len() - i,
    {
        out.push(src[i]);
        assert(out@ =~= src@.take(i as int + 1));
        i += 1;
    }
    assert(src@.take(src@.len() as int) =~= src@);
    out
}

/// The process-wide graphics state: registries, surface configuration, and
/// the modelled image of every resource created through it.
pub struct GraphicsContext {
    pub config: SurfaceConfig,
    pub render_pipelines: Vec<String>,
    pub bind_group_layouts: Vec<String>,
    pub buffers: Vec<GpuBuffer>,
    pub bind_groups: Vec<BindGroup>,
    pub textures: Vec<GpuTexture>,
    pub views: usize,
    pub samplers: usize,
    pub commands: Vec<GpuCommand>,
}

impl GraphicsContext {
    /// A bind-group layout of this name has been registered.
    pub open spec fn has_layout(self, name: Seq<char>) -> bool {
        exists|i: int|
            0 <= i < self.bind_group_layouts@.len() && self.bind_group_layouts@[i]@ == name
    }

    /// A render pipeline of this name has been registered.
    pub open spec fn has_pipeline(self, name: Seq<char>) -> bool {
        exists|i: int| 0 <= i < self.render_pipelines@.len() && self.render_pipelines@[i]@ == name
    }

    /// The registries and counters other than the buffers and the command
    /// log are the same in both states.
    pub open spec fn same_except_buffers(self, other: GraphicsContext) -> bool {
        self.config == other.config && self.render_pipelines == other.render_pipelines
            && self.bind_group_layouts == other.bind_group_layouts && self.bind_groups
            == other.bind_groups && self.textures == other.textures && self.views == other.views
            && self.samplers == other.samplers
    }

    /// Establishes the context. Everything starts empty; resources exist
    /// only once created through the context.
    pub fn init(config: SurfaceConfig) -> (ctx: GraphicsContext)
        ensures
            ctx.config == config,
            ctx.render_pipelines@.len() == 0,
            ctx.bind_group_layouts@.len() == 0,
            ctx.buffers@.len() == 0,
            ctx.bind_groups@.len() == 0,
            ctx.textures@.len() == 0,
            ctx.views == 0,
            ctx.samplers == 0,
            ctx.commands@.len() == 0,
    {
        GraphicsContext {
            config,
            render_pipelines: Vec::new(),
            bind_group_layouts: Vec::new(),
            buffers: Vec::new(),
            bind_groups: Vec::new(),
            textures: Vec::new(),
            views: 0,
            samplers: 0,
            commands: Vec::new(),
        }
    }

    /// Updates the surface configuration, as on a window resize.
    pub fn resize(&mut self, width: u32, height: u32)
        ensures
            final(self).config == (SurfaceConfig { width, height }),
            final(self).render_pipelines == old(self).render_pipelines,
            final(self).bind_group_layouts == old(self).bind_group_layouts,
            final(self).buffers == old(self).buffers,
            final(self).bind_groups == old(self).bind_groups,
            final(self).textures == old(self).textures,
            final(self).views == old(self).views,
            final(self).samplers == old(self).samplers,
            final(self).commands == old(self).commands,
    {
        self.config = SurfaceConfig { width, height };
    }

    /// Registers a bind-group layout under a name. Registering a name twice
    /// leaves the registry as it was.
    pub fn register_bind_group_layout(&mut self, name: String)
        ensures
            final(self).has_layout(name@),
            forall|n: Seq<char>|
                #[trigger] final(self).has_layout(n) <==> (old(self).has_layout(n) || n == name@),
            final(self).config == old(self).config,
            final(self).render_pipelines == old(self).render_pipelines,
            final(self).buffers == old(self).buffers,
            final(self).bind_groups == old(self).bind_groups,
            final(self).textures == old(self).textures,
            final(self).views == old(self).views,
            final(self).samplers == old(self).samplers,
            final(self).commands == old(self).commands,
    {
        if self.lookup_bind_group_layout(&name).is_none() {
            self.bind_group_layouts.push(name);
            assert forall|n: Seq<char>| #[trigger]
                self.has_layout(n) implies (old(self).has_layout(n) || n == name@) by {
                let i = choose|i: int|
                    0 <= i < self.bind_group_layouts@.len() && self.bind_group_layouts@[i]@ == n;
                if i < old(self).bind_group_layouts@.len() {
                    assert(old(self).bind_group_layouts@[i]@ == n);
                }
            }
            assert forall|n: Seq<char>|
                (old(self).has_layout(n) || n == name@) implies #[trigger] self.has_layout(n) by {
                if old(self).has_layout(n) {
                    let i = choose|i: int|
                        0 <= i < old(self).bind_group_layouts@.len() && old(
                            self,
                        ).bind_group_layouts@[i]@ == n;
                    assert(self.bind_group_layouts@[i]@ == n);
                } else {
                    assert(self.bind_group_layouts@.last()@ == n);
                }
            }
        }
    }

    /// Registers a render pipeline under a name. Registering a name twice
    /// leaves the registry as it was.
    pub fn register_render_pipeline(&mut self, name: String)
        ensures
            final(self).has_pipeline(name@),
            forall|n: Seq<char>|
                #[trigger] final(self).has_pipeline(n) <==> (old(self).has_pipeline(n) || n
                    == name@),
            final(self).config == old(self).config,
            final(self).bind_group_layouts == old(self).bind_group_layouts,
            final(self).buffers == old(self).buffers,
            final(self).bind_groups == old(self).bind_groups,
            final(self).textures == old(self).textures,
            final(self).views == old(self).views,
            final(self).samplers == old(self).samplers,
            final(self).commands == old(self).commands,
    {
        let mut i: usize = 0;
        let mut found = false;
        while i < self.render_pipelines.len()
            invariant
                i <= self.render_pipelines@.len(),
                found <==> exists|k: int| 0 <= k < i && self.render_pipelines@[k]@ == name@,
            decreases self.render_pipelines@.len() - i,
        {
            if self.render_pipelines[i] == name {
                found = true;
                assert(self.render_pipelines@[i as int]@ == name@);
            }
            i += 1;
        }
        if !found {
            self.render_pipelines.push(name);
            assert forall|n: Seq<char>| #[trigger]
                self.has_pipeline(n) implies (old(self).has_pipeline(n) || n == name@) by {
                let k = choose|k: int|
                    0 <= k < self.render_pipelines@.len() && self.render_pipelines@[k]@ == n;
                if k < old(self).render_pipelines@.len() {
                    assert(old(self).render_pipelines@[k]@ == n);
                }
            }
            assert forall|n: Seq<char>|
                (old(self).has_pipeline(n) || n == name@) implies #[trigger] self.has_pipeline(
                n,
            ) by {
                if old(self).has_pipeline(n) {
                    let k = choose|k: int|
                        0 <= k < old(self).render_pipelines@.len() && old(
                            self,
                        ).render_pipelines@[k]@ == n;
                    assert(self.render_pipelines@[k]@ == n);
                } else {
                    assert(self.render_pipelines@.last()@ == n);
                }
            }
        } else {
            assert(self.has_pipeline(name@));
        }
    }

    /// Looks a bind-group layout up by name; `None` exactly when the name
    /// was never registered.
    pub fn lookup_bind_group_layout(&self, name: &String) -> (r: Option<usize>)
        ensures
            r is Some <==> self.has_layout(name@),
            match r {
                Some(i) => i < self.bind_group_layouts@.len() && self.bind_group_layouts@[
                    i as int
                ]@ == name@,
                None => true,
            },
    {
        let mut i: usize = 0;
        while i < self.bind_group_layouts.len()
            invariant
                i <= self.bind_group_layouts@.len(),
                forall|k: int| 0 <= k < i ==> self.bind_group_layouts@[k]@ != name@,
            decreases self.bind_group_layouts@.len() - i,
        {
            if self.bind_group_layouts[i] == *name {
                assert(self.bind_group_layouts@[i as int]@ == name@);
                assert(self.has_layout(name@));
                return Some(i);
            }
            i += 1;
        }
        None
    }

    /// Creates a buffer initialised with `contents`; returns its handle and
    /// records the creation for the host to replay.
    pub fn create_buffer_init(&mut self, contents: Vec<u8>, usage: BufferUsage) -> (id: usize)
        ensures
            id == old(self).buffers@.len(),
            final(self).buffers@.len() == old(self).buffers@.len() + 1,
            forall|k: int|
                0 <= k < old(self).buffers@.len() ==> final(self).buffers@[k] == old(
                    self,
                ).buffers@[k],
            final(self).buffers@[id as int].usage == usage,
            final(self).buffers@[id as int].bytes@ == contents@,
            appended(old(self).commands@, final(self).commands@, 1),
            is_create_buffer(final(self).commands@.last(), id as int, usage, contents@),
            final(self).same_except_buffers(*old(self)),
    {
        let copy = copy_vec(&contents);
        let id = self.buffers.len();
        self.buffers.push(GpuBuffer { usage, bytes: contents });
        self.commands.push(GpuCommand::CreateBuffer { buffer: id, usage, contents: copy });
        assert(self.commands@.take(old(self).commands@.len() as int) =~= old(self).commands@);
        id
    }

    /// Overwrites a buffer's contents in full, as a queue write does, and
    /// records the write for the host to replay.
    pub fn write_buffer(&mut self, id: usize, contents: Vec<u8>)
        requires
            id < old(self).buffers@.len(),
            contents@.len() == old(self).buffers@[id as int].bytes@.len(),
        ensures
            final(self).buffers@.len() == old(self).buffers@.len(),
            forall|k: int|
                0 <= k < old(self).buffers@.len() && k != id ==> final(self).buffers@[k] == old(
                    self,
                ).buffers@[k],
            final(self).buffers@[id as int].usage == old(self).buffers@[id as int].usage,
            final(self).buffers@[id as int].bytes@ == contents@,
            appended(old(self).commands@, final(self).commands@, 1),
            is_write_buffer(final(self).commands@.last(), id as int, contents@),
            final(self).same_except_buffers(*old(self)),
    {
        let copy = copy_vec(&contents);
        let slot = &mut self.buffers[id];
        slot.bytes = contents;
        self.commands.push(GpuCommand::WriteBuffer { buffer: id, contents: copy });
        assert(self.commands@.take(old(self).commands@.len() as int) =~= old(self).commands@);
    }

    /// Creates a bind group over a registered layout; returns its handle and
    /// records the creation for the host to replay.
    pub fn create_bind_group(&mut self, layout: String, entries: Vec<BindingResource>) -> (id:
        usize)
        requires
            old(self).has_layout(layout@),
        ensures
            id == old(self).bind_groups@.len(),
            final(self).bind_groups@.len() == old(self).bind_groups@.len() + 1,
            forall|k: int|
                0 <= k < old(self).bind_groups@.len() ==> final(self).bind_groups@[k] == old(
                    self,
                ).bind_groups@[k],
            final(self).bind_groups@[id as int].layout@ == layout@,
            final(self).bind_groups@[id as int].entries@ == entries@,
            appended(old(self).commands@, final(self).commands@, 1),
            is_create_bind_group(final(self).commands@.last(), id as int, layout@, entries@),
            final(self).config == old(self).config,
            final(self).render_pipelines == old(self).render_pipelines,
            final(self).bind_group_layouts == old(self).bind_group_layouts,
            final(self).buffers == old(self).buffers,
            final(self).textures == old(self).textures,
            final(self).views == old(self).views,
            final(self).samplers == old(self).samplers,
    {
        let layout_copy = layout.clone();
        let entries_copy = copy_vec(&entries);
        let id = self.bind_groups.len();
        self.bind_groups.push(BindGroup { layout, entries });
        self.commands.push(
            GpuCommand::CreateBindGroup {
                bind_group: id,
                layout: layout_copy,
                entries: entries_copy,
            },
        );
        assert(self.commands@.take(old(self).commands@.len() as int) =~= old(self).commands@);
        id
    }

    /// Creates an empty texture of the given pixel size; returns its handle
    /// and records the creation for the host to replay.
    pub fn create_texture(&mut self, width: u32, height: u32) -> (id: usize)
        ensures
            id == old(self).textures@.len(),
            final(self).textures@.len() == old(self).textures@.len() + 1,
            forall|k: int|
                0 <= k < old(self).textures@.len() ==> final(self).textures@[k] == old(
                    self,
                ).textures@[k],
            final(self).textures@[id as int].width == width,
            final(self).textures@[id as int].height == height,
            final(self).textures@[id as int].pixels@.len() == 0,
            appended(old(self).commands@, final(self).commands@, 1),
            final(self).commands@.last() == (GpuCommand::CreateTexture {
                texture: id,
                width,
                height,
            }),
            final(self).config == old(self).config,
            final(self).render_pipelines == old(self).render_pipelines,
            final(self).bind_group_layouts == old(self).bind_group_layouts,
            final(self).buffers == old(self).buffers,
            final(self).bind_groups == old(self).bind_groups,
            final(self).views == old(self).views,
            final(self).samplers == old(self).samplers,
    {
        let id = self.textures.len();
        self.textures.push(GpuTexture { width, height, pixels: Vec::new() });
        self.commands.push(GpuCommand::CreateTexture { texture: id, width, height });
        assert(self.commands@.take(old(self).commands@.len() as int) =~= old(self).commands@);
        id
    }

    /// Fills a texture with RGBA pixel bytes, four per pixel, and records
    /// the write for the host to replay.
    pub fn write_texture(&mut self, id: usize, pixels: Vec<u8>)
        requires
            id < old(self).textures@.len(),
            pixels@.len() == 4 * old(self).textures@[id as int].width * old(
                self,
            ).textures@[id as int].height,
        ensures
            final(self).textures@.len() == old(self).textures@.len(),
            forall|k: int|
                0 <= k < old(self).textures@.len() && k != id ==> final(self).textures@[k] == old(
                    self,
                ).textures@[k],
            final(self).textures@[id as int].width == old(self).textures@[id as int].width,
            final(self).textures@[id as int].height == old(self).textures@[id as int].height,
            final(self).textures@[id as int].pixels@ == pixels@,
            appended(old(self).commands@, final(self).commands@, 1),
            match final(self).commands@.last() {
                GpuCommand::WriteTexture { texture, pixels: p } => texture == id && p@ == pixels@,
                _ => false,
            },
            final(self).config == old(self).config,
            final(self).render_pipelines == old(self).render_pipelines,
            final(self).bind_group_layouts == old(self).bind_group_layouts,
            final(self).buffers == old(self).buffers,
            final(self).bind_groups == old(self).bind_groups,
            final(self).views == old(self).views,
            final(self).samplers == old(self).samplers,
    {
        let copy = copy_vec(&pixels);
        let slot = &mut self.textures[id];
        slot.pixels = pixels;
        self.commands.push(GpuCommand::WriteTexture { texture: id, pixels: copy });
        assert(self.commands@.take(old(self).commands@.len() as int) =~= old(self).commands@);
    }

    /// Creates a view onto a texture; returns its handle and records the
    /// creation for the host to replay.
    pub fn create_texture_view(&mut self, texture: usize) -> (id: usize)
        requires
            texture < old(self).textures@.len(),
            old(self).views < usize::MAX,
        ensures
            id == old(self).views,
            final(self).views == old(self).views + 1,
            appended(old(self).commands@, final(self).commands@, 1),
            final(self).commands@.last() == (GpuCommand::CreateTextureView { view: id, texture }),
            final(self).config == old(self).config,
            final(self).render_pipelines == old(self).render_pipelines,
            final(self).bind_group_layouts == old(self).bind_group_layouts,
            final(self).buffers == old(self).buffers,
            final(self).bind_groups == old(self).bind_groups,
            final(self).textures == old(self).textures,
            final(self).samplers == old(self).samplers,
    {
        let id = self.views;
        self.views = self.views + 1;
        self.commands.push(GpuCommand::CreateTextureView { view: id, texture });
        assert(self.commands@.take(old(self).commands@.len() as int) =~= old(self).commands@);
        id
    }

    /// Creates a sampler; returns its handle and records the creation for
    /// the host to replay.
    pub fn create_sampler(&mut self) -> (id: usize)
        requires
            old(self).samplers < usize::MAX,
        ensures
            id == old(self).samplers,
            final(self).samplers == old(self).samplers + 1,
            appended(old(self).commands@, final(self).commands@, 1),
            final(self).commands@.last() == (GpuCommand::CreateSampler { sampler: id }),
            final(self).config == old(self).config,
            final(self).render_pipelines == old(self).render_pipelines,
            final(self).bind_group_layouts == old(self).bind_group_layouts,
            final(self).buffers == old(self).buffers,
            final(self).bind_groups == old(self).bind_groups,
            final(self).textures == old(self).textures,
            final(self).views == old(self).views,
    {
        let id = self.samplers;
        self.samplers = self.samplers + 1;
        self.commands.push(GpuCommand::CreateSampler { sampler: id });
        assert(self.commands@.take(old(self).commands@.len() as int) =~= old(self).commands@);
        id
    }

    /// Hands the recorded commands to the host and empties the log.
    pub fn drain_commands(&mut self) -> (cmds: Vec<GpuCommand>)
        ensures
            cmds == old(self).commands,
            final(self).commands@.len() == 0,
            final(self).buffers == old(self).buffers,
            final(self).same_except_buffers(*old(self)),
    {
        let mut taken: Vec<GpuCommand> = Vec::new();
        core::mem::swap(&mut taken, &mut self.commands);
        taken
    }
}

} // verus!
