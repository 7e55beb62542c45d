//! The render pass: a scoped recorder of one pass against one target.
//!
//! Starting a pass moves the device into the pass value — the ownership
//! form of the device-wide pipeline lock, under which no second pass and
//! no resource creation can run until the pass ends.  The pass's setters
//! only record intent; a draw call validates what is bound, applies the
//! state that actually changed since the last draw, resolves the bound
//! group's entries against the active program lazily, and appends the
//! resulting [`Command`] values for the embedding to replay against the
//! native API.  The target's load operations are applied once, when the
//! pass starts.

use vstd::prelude::*;
use crate::access::AccessError;
use crate::binding::{UniformBind, UniformGroup};
use crate::buffer::{IndexBuffer, VertexBuffer};
use crate::device::{entries_within, spec_acq_entries, spec_rel_entries, Device};
use crate::device::lemma_group_release_undoes_acquire;
use crate::framebuffer::{Color, Framebuffer, LoadOp};
use crate::pipeline::{spec_index_size, PrimitiveTopology, RenderPipeline};
use crate::texture::TextureFilter;

verus! {

/// The rectangle of the target a pass draws into.
#[derive(Debug, Copy, Clone, PartialEq, Eq, Structural, Hash)]
pub struct Viewport {
    pub x: u32,
    pub y: u32,
    pub width: u32,
    pub height: u32,
}

/// One native-API action a pass asks the embedding to perform, in order.
/// Resources are named by the indices their handles carry.
#[derive(Debug, Copy, Clone, PartialEq, Eq, Structural, Hash)]
pub enum Command {
    /// Select the default framebuffer.
    BindDefaultFramebuffer,
    /// Select a custom framebuffer.
    BindFramebuffer { framebuffer: usize },
    /// Clear the color attachment.
    ClearColor { color: Color },
    /// Clear the depth attachment to the 32-bit floating point value with
    /// these bits.
    ClearDepth { depth_bits: u32 },
    /// Clear the stencil attachment.
    ClearStencil { value: u32 },
    /// Select a pipeline: its program, its vertex layout — through the
    /// embedding's per-pipeline cached vertex-array object — and its
    /// fixed-function state.
    UsePipeline { pipeline: usize },
    /// Bind a vertex buffer.
    BindVertexBuffer { buffer: usize },
    /// Bind an index buffer.
    BindIndexBuffer { buffer: usize },
    /// Set the viewport.
    SetViewport { viewport: Viewport },
    /// Set the stencil reference value.
    SetStencilReference { value: u32 },
    /// Bind one group entry's uniform buffer to a numeric block slot; the
    /// entry's binding name is in the group's record.
    BindUniformBlock { group: usize, entry: usize, binding: u32, buffer: usize },
    /// Bind one group entry's texture to a numeric unit; the entry's
    /// binding name is in the group's record.
    BindTextureUnit {
        group: usize,
        entry: usize,
        unit: u32,
        texture: usize,
        far: TextureFilter,
        near: TextureFilter,
    },
    /// Issue one indexed, possibly instanced draw over the bound buffers.
    DrawIndexed { topology: PrimitiveTopology, start: u32, end: u32, instances: u32 },
}

/// The parameters of a new render pass.
#[derive(Debug, Copy, Clone, PartialEq, Eq, Hash)]
pub struct RenderPassDescriptor {
    /// The pipeline the pass starts registered with.
    pub pipeline: RenderPipeline,
    /// The target the pass draws into.
    pub framebuffer: Framebuffer,
}

/// A refused draw call.  A missing bound resource is a fault of the
/// calling code, never silently skipped; an index range past the bound
/// index buffer is refused rather than read out of bounds.
#[derive(Debug, Copy, Clone, PartialEq, Eq, Structural, Hash)]
pub enum DrawError {
    /// No vertex buffer is bound.
    MissingVertexBuffer,
    /// No index buffer is bound.
    MissingIndexBuffer,
    /// The range's start lies past its end.
    InvalidIndexRange { start: u32, end: u32 },
    /// The range reaches past the indices the bound index buffer holds.
    IndexRangeOutOfBounds { end: u32, available: u32 },
}

/// The clear commands a target's load operations ask for, color first,
/// then depth, then stencil; keeping contents asks for nothing.
pub open spec fn clear_ops(c: LoadOp<Color>, d: LoadOp<u32>, s: LoadOp<u32>) -> Seq<Command> {
    (match c {
        LoadOp::Clear(color) => seq![Command::ClearColor { color }],
        LoadOp::Load => seq![],
    }) + (match d {
        LoadOp::Clear(depth_bits) => seq![Command::ClearDepth { depth_bits }],
        LoadOp::Load => seq![],
    }) + (match s {
        LoadOp::Clear(value) => seq![Command::ClearStencil { value }],
        LoadOp::Load => seq![],
    })
}

/// The commands that open a pass: bind the target, then apply its load
/// operations once.
pub open spec fn start_commands(d: Device, fb: Framebuffer) -> Seq<Command> {
    match fb {
        Framebuffer::Default { color_load_op, depth_load_op, stencil_load_op } => seq![
            Command::BindDefaultFramebuffer,
        ] + clear_ops(color_load_op, depth_load_op, stencil_load_op),
        Framebuffer::Custom { idx } => {
            let rec = d.framebuffers()[idx as int];
            seq![Command::BindFramebuffer { framebuffer: idx }] + clear_ops(
                rec.color_load_op,
                rec.depth_load_op,
                rec.stencil_load_op,
            )
        },
    }
}

/// A transient, scoped recorder of one render pass: the device it holds
/// exclusively, the target, the currently bound slots, the slots the
/// native API has last been told about, and the commands recorded so far.
pub struct RenderPass {
    device: Device,
    framebuffer: Framebuffer,
    pipeline: RenderPipeline,
    vertex: Option<VertexBuffer>,
    index: Option<IndexBuffer>,
    bind: Option<UniformGroup>,
    viewport: Option<Viewport>,
    stencil_reference: u32,
    applied_pipeline: Option<RenderPipeline>,
    applied_vertex: Option<VertexBuffer>,
    applied_index: Option<IndexBuffer>,
    applied_bind: Option<UniformGroup>,
    applied_viewport: Option<Viewport>,
    applied_stencil: Option<u32>,
    commands: Vec<Command>,
}

impl RenderPass {
    /// The device the pass holds.
    pub closed spec fn spec_device(&self) -> Device {
        self.device
    }

    /// The target of the pass.
    pub closed spec fn spec_framebuffer(&self) -> Framebuffer {
        self.framebuffer
    }

    /// The currently bound pipeline.
    pub closed spec fn spec_pipeline(&self) -> RenderPipeline {
        self.pipeline
    }

    /// The currently bound vertex buffer, if any.
    pub closed spec fn spec_vertex(&self) -> Option<VertexBuffer> {
        self.vertex
    }

    /// The currently bound index buffer, if any.
    pub closed spec fn spec_index(&self) -> Option<IndexBuffer> {
        self.index
    }

    /// The currently bound uniform group, if any.
    pub closed spec fn spec_bind(&self) -> Option<UniformGroup> {
        self.bind
    }

    /// The currently set viewport, if any.
    pub closed spec fn spec_viewport(&self) -> Option<Viewport> {
        self.viewport
    }

    /// The current stencil reference value.
    pub closed spec fn spec_stencil_reference(&self) -> u32 {
        self.stencil_reference
    }

    /// The pipeline the native API last selected, if any.
    pub closed spec fn spec_applied_pipeline(&self) -> Option<RenderPipeline> {
        self.applied_pipeline
    }

    /// The vertex buffer the native API last bound, if any.
    pub closed spec fn spec_applied_vertex(&self) -> Option<VertexBuffer> {
        self.applied_vertex
    }

    /// The index buffer the native API last bound, if any.
    pub closed spec fn spec_applied_index(&self) -> Option<IndexBuffer> {
        self.applied_index
    }

    /// The group the native API last resolved, if any.
    pub closed spec fn spec_applied_bind(&self) -> Option<UniformGroup> {
        self.applied_bind
    }

    /// The viewport the native API last set, if any.
    pub closed spec fn spec_applied_viewport(&self) -> Option<Viewport> {
        self.applied_viewport
    }

    /// The stencil reference the native API last set, if any.
    pub closed spec fn spec_applied_stencil(&self) -> Option<u32> {
        self.applied_stencil
    }

    /// The commands recorded so far and not yet taken.
    pub closed spec fn spec_commands(&self) -> Seq<Command> {
        self.commands@
    }

    /// The structural soundness of the pass: the device is sound, every
    /// bound slot names a resource of it, and the bound group — whose
    /// members the pass holds for read — can give those holds back.
    pub open spec fn wf(&self) -> bool {
        &&& self.spec_device().wf()
        &&& self.spec_device().valid_framebuffer(self.spec_framebuffer())
        &&& self.spec_device().valid_pipeline(self.spec_pipeline())
        &&& (self.spec_vertex() matches Some(v) ==> self.spec_device().valid_vertex_buffer(v))
        &&& (self.spec_index() matches Some(b) ==> self.spec_device().valid_index_buffer(b))
        &&& (self.spec_bind() matches Some(g) ==> self.spec_device().valid_group(g))
        &&& (self.spec_applied_pipeline() matches Some(p) ==> self.spec_device().valid_pipeline(p))
        &&& (self.spec_applied_vertex() matches Some(v) ==> self.spec_device().valid_vertex_buffer(
            v,
        ))
        &&& (self.spec_applied_index() matches Some(b) ==> self.spec_device().valid_index_buffer(
            b,
        ))
        &&& (self.spec_applied_bind() matches Some(g) ==> self.spec_device().valid_group(g))
        &&& (self.spec_bind() matches Some(g) ==> spec_rel_entries(
            self.spec_device().buffer_lock_seq(),
            self.spec_device().texture_lock_seq(),
            self.spec_device().groups()[g.id()].entries@,
        ) is Some)
    }
}

impl Device {
    /// Lock the render pipeline and start a new render pass from the
    /// given parameters.  The device moves into the pass; only one pass
    /// can exist at a time, and the device comes back when the pass ends.
    pub fn start_render_pass(self, descriptor: &RenderPassDescriptor) -> (r: RenderPass)
        requires
            self.wf(),
            self.valid_pipeline(descriptor.pipeline),
            self.valid_framebuffer(descriptor.framebuffer),
        ensures
            r.wf(),
            r.spec_device() == self,
            r.spec_framebuffer() == descriptor.framebuffer,
            r.spec_pipeline() == descriptor.pipeline,
            r.spec_vertex() is None,
            r.spec_index() is None,
            r.spec_bind() is None,
            r.spec_viewport() is None,
            r.spec_stencil_reference() == 0,
            r.spec_applied_pipeline() is None,
            r.spec_applied_vertex() is None,
            r.spec_applied_index() is None,
            r.spec_applied_bind() is None,
            r.spec_applied_viewport() is None,
            r.spec_applied_stencil() is None,
            r.spec_commands() == start_commands(self, descriptor.framebuffer),
    {
        let mut commands: Vec<Command> = Vec::new();
        let (c, d, s): (LoadOp<Color>, LoadOp<u32>, LoadOp<u32>) = match descriptor.framebuffer {
            Framebuffer::Default { color_load_op, depth_load_op, stencil_load_op } => {
                commands.push(Command::BindDefaultFramebuffer);
                (color_load_op, depth_load_op, stencil_load_op)
            },
            Framebuffer::Custom { idx } => {
                commands.push(Command::BindFramebuffer { framebuffer: idx });
                let rec = self.framebuffer_record(idx);
                (rec.color_load_op, rec.depth_load_op, rec.stencil_load_op)
            },
        };
        match c {
            LoadOp::Clear(color) => commands.push(Command::ClearColor { color }),
            LoadOp::Load => {},
        }
        match d {
            LoadOp::Clear(depth_bits) => commands.push(Command::ClearDepth { depth_bits }),
            LoadOp::Load => {},
        }
        match s {
            LoadOp::Clear(value) => commands.push(Command::ClearStencil { value }),
            LoadOp::Load => {},
        }
        proof {
            assert(commands@ =~= start_commands(self, descriptor.framebuffer));
        }
        RenderPass {
            device: self,
            framebuffer: descriptor.framebuffer,
            pipeline: descriptor.pipeline,
            vertex: None,
            index: None,
            bind: None,
            viewport: None,
            stencil_reference: 0,
            applied_pipeline: None,
            applied_vertex: None,
            applied_index: None,
            applied_bind: None,
            applied_viewport: None,
            applied_stencil: None,
            commands,
        }
    }

}

/// What a pass operation leaves alone: helper stating that everything but
/// the named concerns is as it was.
pub open spec fn pass_core_unchanged(a: &RenderPass, b: &RenderPass) -> bool {
    &&& a.spec_framebuffer() == b.spec_framebuffer()
    &&& a.spec_commands() == b.spec_commands()
    &&& a.spec_applied_pipeline() == b.spec_applied_pipeline()
    &&& a.spec_applied_vertex() == b.spec_applied_vertex()
    &&& a.spec_applied_index() == b.spec_applied_index()
    &&& a.spec_applied_bind() == b.spec_applied_bind()
    &&& a.spec_applied_viewport() == b.spec_applied_viewport()
    &&& a.spec_applied_stencil() == b.spec_applied_stencil()
}

/// Whether the bound slots of two passes agree.
pub open spec fn pass_slots_unchanged(a: &RenderPass, b: &RenderPass) -> bool {
    &&& a.spec_pipeline() == b.spec_pipeline()
    &&& a.spec_vertex() == b.spec_vertex()
    &&& a.spec_index() == b.spec_index()
    &&& a.spec_bind() == b.spec_bind()
    &&& a.spec_viewport() == b.spec_viewport()
    &&& a.spec_stencil_reference() == b.spec_stencil_reference()
}

impl RenderPass {
    /// Register a pipeline for the next draw.  Pure state; nothing is
    /// applied until a draw call runs.
    pub fn set_pipeline(&mut self, pipeline: &RenderPipeline)
        requires
            old(self).wf(),
            old(self).spec_device().valid_pipeline(*pipeline),
        ensures
            final(self).wf(),
            final(self).spec_device() == old(self).spec_device(),
            final(self).spec_pipeline() == *pipeline,
            final(self).spec_vertex() == old(self).spec_vertex(),
            final(self).spec_index() == old(self).spec_index(),
            final(self).spec_bind() == old(self).spec_bind(),
            final(self).spec_viewport() == old(self).spec_viewport(),
            final(self).spec_stencil_reference() == old(self).spec_stencil_reference(),
            pass_core_unchanged(final(self), old(self)),
    {
        self.pipeline = *pipeline;
    }

    /// Register a vertex buffer for the next draw.  Pure state; nothing
    /// is applied until a draw call runs.
    pub fn set_vertex_buffer(&mut self, buffer: &VertexBuffer)
        requires
            old(self).wf(),
            old(self).spec_device().valid_vertex_buffer(*buffer),
        ensures
            final(self).wf(),
            final(self).spec_device() == old(self).spec_device(),
            final(self).spec_vertex() == Some(*buffer),
            final(self).spec_pipeline() == old(self).spec_pipeline(),
            final(self).spec_index() == old(self).spec_index(),
            final(self).spec_bind() == old(self).spec_bind(),
            final(self).spec_viewport() == old(self).spec_viewport(),
            final(self).spec_stencil_reference() == old(self).spec_stencil_reference(),
            pass_core_unchanged(final(self), old(self)),
    {
        self.vertex = Some(*buffer);
    }

    /// Register an index buffer for the next draw.  Pure state; nothing
    /// is applied until a draw call runs.
    pub fn set_index_buffer(&mut self, buffer: &IndexBuffer)
        requires
            old(self).wf(),
            old(self).spec_device().valid_index_buffer(*buffer),
        ensures
            final(self).wf(),
            final(self).spec_device() == old(self).spec_device(),
            final(self).spec_index() == Some(*buffer),
            final(self).spec_pipeline() == old(self).spec_pipeline(),
            final(self).spec_vertex() == old(self).spec_vertex(),
            final(self).spec_bind() == old(self).spec_bind(),
            final(self).spec_viewport() == old(self).spec_viewport(),
            final(self).spec_stencil_reference() == old(self).spec_stencil_reference(),
            pass_core_unchanged(final(self), old(self)),
    {
        self.index = Some(*buffer);
    }

    /// Register a viewport for the next draw.  Pure state; nothing is
    /// applied until a draw call runs.
    pub fn set_viewport(&mut self, viewport: Viewport)
        requires
            old(self).wf(),
        ensures
            final(self).wf(),
            final(self).spec_device() == old(self).spec_device(),
            final(self).spec_viewport() == Some(viewport),
            final(self).spec_pipeline() == old(self).spec_pipeline(),
            final(self).spec_vertex() == old(self).spec_vertex(),
            final(self).spec_index() == old(self).spec_index(),
            final(self).spec_bind() == old(self).spec_bind(),
            final(self).spec_stencil_reference() == old(self).spec_stencil_reference(),
            pass_core_unchanged(final(self), old(self)),
    {
        self.viewport = Some(viewport);
    }

    /// Register a stencil reference value for the next draw.  Pure state;
    /// nothing is applied until a draw call runs.
    pub fn set_stencil_reference(&mut self, value: u32)
        requires
            old(self).wf(),
        ensures
            final(self).wf(),
            final(self).spec_device() == old(self).spec_device(),
            final(self).spec_stencil_reference() == value,
            final(self).spec_pipeline() == old(self).spec_pipeline(),
            final(self).spec_vertex() == old(self).spec_vertex(),
            final(self).spec_index() == old(self).spec_index(),
            final(self).spec_bind() == old(self).spec_bind(),
            final(self).spec_viewport() == old(self).spec_viewport(),
            pass_core_unchanged(final(self), old(self)),
    {
        self.stencil_reference = value;
    }

    /// Bind a uniform group for the next draw, holding every member
    /// resource for read for the rest of the pass; a previously bound
    /// group gives its holds back first.  The fan-out refuses when a
    /// member is held by a writer — a mapped buffer — and leaves the pass
    /// with no group bound; that is a fault of the calling code, not a
    /// condition to recover from.
    pub fn set_bind_group(&mut self, group: &UniformGroup) -> (r: Result<(), AccessError>)
        requires
            old(self).wf(),
            old(self).spec_device().valid_group(*group),
        ensures
            final(self).wf(),
            ({
                let base_bl = match old(self).spec_bind() {
                    Some(p) => spec_rel_entries(
                        old(self).spec_device().buffer_lock_seq(),
                        old(self).spec_device().texture_lock_seq(),
                        old(self).spec_device().groups()[p.id()].entries@,
                    ).unwrap().0,
                    None => old(self).spec_device().buffer_lock_seq(),
                };
                let base_tl = match old(self).spec_bind() {
                    Some(p) => spec_rel_entries(
                        old(self).spec_device().buffer_lock_seq(),
                        old(self).spec_device().texture_lock_seq(),
                        old(self).spec_device().groups()[p.id()].entries@,
                    ).unwrap().1,
                    None => old(self).spec_device().texture_lock_seq(),
                };
                let entries = old(self).spec_device().groups()[group.id()].entries@;
                &&& (r is Ok <==> spec_acq_entries(base_bl, base_tl, entries) is Some)
                &&& (r is Ok ==> {
                    &&& final(self).spec_bind() == Some(*group)
                    &&& final(self).spec_device().buffer_lock_seq() == spec_acq_entries(
                        base_bl,
                        base_tl,
                        entries,
                    ).unwrap().0
                    &&& final(self).spec_device().texture_lock_seq() == spec_acq_entries(
                        base_bl,
                        base_tl,
                        entries,
                    ).unwrap().1
                })
                &&& (r is Err ==> final(self).spec_bind() is None)
            }),
            final(self).spec_device().buffers() == old(self).spec_device().buffers(),
            final(self).spec_device().buffer_contents() == old(
                self,
            ).spec_device().buffer_contents(),
            final(self).spec_device().textures() == old(self).spec_device().textures(),
            final(self).spec_device().info_unchanged(&old(self).spec_device()),
            final(self).spec_device().shaders_unchanged(&old(self).spec_device()),
            final(self).spec_device().pipelines_unchanged(&old(self).spec_device()),
            final(self).spec_device().groups_unchanged(&old(self).spec_device()),
            final(self).spec_device().framebuffers_unchanged(&old(self).spec_device()),
            final(self).spec_pipeline() == old(self).spec_pipeline(),
            final(self).spec_vertex() == old(self).spec_vertex(),
            final(self).spec_index() == old(self).spec_index(),
            final(self).spec_viewport() == old(self).spec_viewport(),
            final(self).spec_stencil_reference() == old(self).spec_stencil_reference(),
            pass_core_unchanged(final(self), old(self)),
    {
        match self.bind {
            Some(prev) => {
                self.device.group_release_read(&prev);
                self.bind = None;
            },
            None => {},
        }
        let ghost base_bl = self.device.buffer_lock_seq();
        let ghost base_tl = self.device.texture_lock_seq();
        match self.device.group_acquire_read(group) {
            Ok(()) => {
                self.bind = Some(*group);
                proof {
                    let entries = self.device.groups()[group.id()].entries@;
                    assert(entries_within(
                        base_bl.len() as int,
                        base_tl.len() as int,
                        entries,
                    )) by {
                        assert(self.device.valid_entries(entries));
                        assert forall|i: int|
                            0 <= i < entries.len() implies match (#[trigger] entries[i]).kind {
                            UniformBind::Buffer { buffer } => 0 <= buffer.id() < base_bl.len(),
                            UniformBind::Texture { texture, .. } => 0 <= texture.id()
                                < base_tl.len(),
                        } by {
                            assert(self.device.valid_entry(entries[i]));
                        }
                    }
                    lemma_group_release_undoes_acquire(base_bl, base_tl, entries);
                }
                Ok(())
            },
            Err(e) => Err(e),
        }
    }
}

/// Whether a list of names holds one with the given text.
pub open spec fn contains_name(names: Seq<String>, s: Seq<char>) -> bool {
    exists|j: int| 0 <= j < names.len() && names[j]@ == s
}

/// Whether the program declares the name as an active uniform or block.
fn name_is_active(names: &Vec<String>, name: &String) -> (r: bool)
    ensures
        r == contains_name(names@, name@),
{
    let n = names.len();
    let mut j: usize = 0;
    while j < n
        invariant
            0 <= j <= n,
            n == names@.len(),
            forall|k: int| 0 <= k < j ==> names@[k]@ != name@,
        decreases n - j,
    {
        if names[j] == *name {
            return true;
        }
        j += 1;
    }
    false
}

impl Device {
    /// The commands that resolve a group's entries against a pipeline's
    /// program, from entry `i` on, with `ubo` block slots and `tex`
    /// texture units already handed out: each entry whose binding name the
    /// program declares active takes the next slot of its kind, in entry
    /// order; an entry whose name is not active is passed over silently —
    /// a shader need not use every declared binding.
    pub open spec fn resolve_cmds(
        &self,
        g: UniformGroup,
        p: RenderPipeline,
        i: int,
        ubo: int,
        tex: int,
    ) -> Seq<Command>
        decreases self.groups()[g.id()].entries@.len() - i,
    {
        let entries = self.groups()[g.id()].entries@;
        if i < 0 || i >= entries.len() {
            seq![]
        } else {
            match entries[i].kind {
                UniformBind::Buffer { buffer } => if contains_name(
                    self.pipelines()[p.id()].active_uniform_blocks@,
                    entries[i].binding@,
                ) {
                    seq![
                        Command::BindUniformBlock {
                            group: g.id() as usize,
                            entry: i as usize,
                            binding: ubo as u32,
                            buffer: buffer.id() as usize,
                        },
                    ] + self.resolve_cmds(g, p, i + 1, ubo + 1, tex)
                } else {
                    self.resolve_cmds(g, p, i + 1, ubo, tex)
                },
                UniformBind::Texture { texture, far, near } => if contains_name(
                    self.pipelines()[p.id()].active_uniforms@,
                    entries[i].binding@,
                ) {
                    seq![
                        Command::BindTextureUnit {
                            group: g.id() as usize,
                            entry: i as usize,
                            unit: tex as u32,
                            texture: texture.id() as usize,
                            far,
                            near,
                        },
                    ] + self.resolve_cmds(g, p, i + 1, ubo, tex + 1)
                } else {
                    self.resolve_cmds(g, p, i + 1, ubo, tex)
                },
            }
        }
    }
}

impl RenderPass {
    /// The pipeline-selection command the next draw submits, where the
    /// pipeline changed.
    pub open spec fn seg_pipeline(&self) -> Seq<Command> {
        if self.spec_applied_pipeline() != Some(self.spec_pipeline()) {
            seq![Command::UsePipeline { pipeline: self.spec_pipeline().id() as usize }]
        } else {
            seq![]
        }
    }

    /// The vertex-buffer command the next draw submits, where it changed.
    pub open spec fn seg_vertex(&self) -> Seq<Command> {
        match self.spec_vertex() {
            Some(v) => if self.spec_applied_vertex() != Some(v) {
                seq![Command::BindVertexBuffer { buffer: v.id() as usize }]
            } else {
                seq![]
            },
            None => seq![],
        }
    }

    /// The index-buffer command the next draw submits, where it changed.
    pub open spec fn seg_index(&self) -> Seq<Command> {
        match self.spec_index() {
            Some(b) => if self.spec_applied_index() != Some(b) {
                seq![Command::BindIndexBuffer { buffer: b.id() as usize }]
            } else {
                seq![]
            },
            None => seq![],
        }
    }

    /// The group-resolution commands the next draw submits, where the
    /// bound group changed.
    pub open spec fn seg_bind(&self) -> Seq<Command> {
        match self.spec_bind() {
            Some(g) => if self.spec_applied_bind() != Some(g) {
                self.spec_device().resolve_cmds(g, self.spec_pipeline(), 0, 0, 0)
            } else {
                seq![]
            },
            None => seq![],
        }
    }

    /// The viewport command the next draw submits, where it changed.
    pub open spec fn seg_viewport(&self) -> Seq<Command> {
        match self.spec_viewport() {
            Some(vp) => if self.spec_applied_viewport() != Some(vp) {
                seq![Command::SetViewport { viewport: vp }]
            } else {
                seq![]
            },
            None => seq![],
        }
    }

    /// The stencil-reference command the next draw submits, where it
    /// changed.
    pub open spec fn seg_stencil(&self) -> Seq<Command> {
        if self.spec_applied_stencil() != Some(self.spec_stencil_reference()) {
            seq![Command::SetStencilReference { value: self.spec_stencil_reference() }]
        } else {
            seq![]
        }
    }

    /// The state commands the next draw will submit before it draws: of
    /// pipeline, vertex buffer, index buffer, bound group, viewport and
    /// stencil reference, exactly those that differ from what the native
    /// API last saw, in that order.
    pub open spec fn pending_setup(&self) -> Seq<Command> {
        self.seg_pipeline() + self.seg_vertex() + self.seg_index() + self.seg_bind()
            + self.seg_viewport() + self.seg_stencil()
    }

    /// The fault a draw call raises, if any: a missing vertex or index
    /// buffer first, then a back-to-front range, then a range past what
    /// the bound index buffer holds under the pipeline's index width.
    pub open spec fn draw_fault(&self, start: u32, end: u32) -> Option<DrawError> {
        if self.spec_vertex() is None {
            Some(DrawError::MissingVertexBuffer)
        } else if self.spec_index() is None {
            Some(DrawError::MissingIndexBuffer)
        } else if start > end {
            Some(DrawError::InvalidIndexRange { start, end })
        } else {
            let b = self.spec_index().unwrap();
            let isz = spec_index_size(
                self.spec_device().pipelines()[self.spec_pipeline().id()].primitive_state.index_format,
            );
            let available = self.spec_device().buffers()[b.id()].size as int / isz;
            if end > available {
                Some(DrawError::IndexRangeOutOfBounds { end, available: available as u32 })
            } else {
                None
            }
        }
    }

    /// Issue one indexed, possibly instanced draw over the half-open
    /// index range, using the currently bound pipeline, vertex buffer,
    /// index buffer and — if one is bound — uniform group.  A missing
    /// vertex or index buffer is a fault, never a silently skipped draw,
    /// and a range past the bound index buffer is refused rather than
    /// read out of bounds.  The minimal state transitions of
    /// [`RenderPass::pending_setup`] are applied first.
    #[verifier::rlimit(100)]
    pub fn draw_indexed(&mut self, start: u32, end: u32, instances: u32) -> (r: Result<
        (),
        DrawError,
    >)
        requires
            old(self).wf(),
        ensures
            final(self).wf(),
            final(self).spec_device() == old(self).spec_device(),
            final(self).spec_framebuffer() == old(self).spec_framebuffer(),
            pass_slots_unchanged(final(self), old(self)),
            match old(self).draw_fault(start, end) {
                Some(f) => r == Err::<(), DrawError>(f) && *final(self) == *old(self),
                None => {
                    &&& r is Ok
                    &&& final(self).spec_commands() == old(self).spec_commands() + old(
                        self,
                    ).pending_setup() + seq![
                        Command::DrawIndexed {
                            topology: old(self).spec_device().pipelines()[old(
                                self,
                            ).spec_pipeline().id()].primitive_state.topology,
                            start,
                            end,
                            instances,
                        },
                    ]
                    &&& final(self).spec_applied_pipeline() == Some(old(self).spec_pipeline())
                    &&& final(self).spec_applied_vertex() == old(self).spec_vertex()
                    &&& final(self).spec_applied_index() == old(self).spec_index()
                    &&& final(self).spec_applied_bind() == (if old(self).spec_bind() is Some {
                        old(self).spec_bind()
                    } else {
                        old(self).spec_applied_bind()
                    })
                    &&& final(self).spec_applied_viewport() == (if old(
                        self,
                    ).spec_viewport() is Some {
                        old(self).spec_viewport()
                    } else {
                        old(self).spec_applied_viewport()
                    })
                    &&& final(self).spec_applied_stencil() == Some(
                        old(self).spec_stencil_reference(),
                    )
                },
            },
    {
        let vb = match self.vertex {
            Some(v) => v,
            None => {
                return Err(DrawError::MissingVertexBuffer);
            },
        };
        let ib = match self.index {
            Some(b) => b,
            None => {
                return Err(DrawError::MissingIndexBuffer);
            },
        };
        if start > end {
            return Err(DrawError::InvalidIndexRange { start, end });
        }
        let p = self.pipeline;
        let index_format = self.device.pipeline_record(&p).primitive_state.index_format;
        let topology = self.device.pipeline_record(&p).primitive_state.topology;
        let index_size: u32 = match index_format {
            crate::pipeline::IndexFormat::Uint16 => 2,
            crate::pipeline::IndexFormat::Uint32 => 4,
        };
        let available = self.device.index_buffer_meta(&ib).size / index_size;
        if end > available {
            return Err(DrawError::IndexRangeOutOfBounds { end, available });
        }
        self.emit_draw(vb, ib, p, topology, start, end, instances);
        Ok(())
    }

    /// Apply the pending minimal state transitions and record the draw.
    #[verifier::rlimit(100)]
    fn emit_draw(
        &mut self,
        vb: VertexBuffer,
        ib: IndexBuffer,
        p: RenderPipeline,
        topology: PrimitiveTopology,
        start: u32,
        end: u32,
        instances: u32,
    )
        requires
            old(self).wf(),
            old(self).spec_vertex() == Some(vb),
            old(self).spec_index() == Some(ib),
            p == old(self).spec_pipeline(),
            topology == old(self).spec_device().pipelines()[p.id()].primitive_state.topology,
        ensures
            final(self).wf(),
            final(self).spec_device() == old(self).spec_device(),
            final(self).spec_framebuffer() == old(self).spec_framebuffer(),
            pass_slots_unchanged(final(self), old(self)),
            final(self).spec_commands() == old(self).spec_commands() + old(self).pending_setup()
                + seq![Command::DrawIndexed { topology, start, end, instances }],
            final(self).spec_applied_pipeline() == Some(old(self).spec_pipeline()),
            final(self).spec_applied_vertex() == old(self).spec_vertex(),
            final(self).spec_applied_index() == old(self).spec_index(),
            final(self).spec_applied_bind() == (if old(self).spec_bind() is Some {
                old(self).spec_bind()
            } else {
                old(self).spec_applied_bind()
            }),
            final(self).spec_applied_viewport() == (if old(self).spec_viewport() is Some {
                old(self).spec_viewport()
            } else {
                old(self).spec_applied_viewport()
            }),
            final(self).spec_applied_stencil() == Some(old(self).spec_stencil_reference()),
    {
        let mut out: Vec<Command> = Vec::new();

        // Pipeline selection, where it changed.
        let pipeline_changed = match self.applied_pipeline {
            Some(ap) => ap.index() != p.index(),
            None => true,
        };
        proof {
            match self.applied_pipeline {
                Some(ap) => {
                    RenderPipeline::lemma_handle_identity(ap, p);
                },
                None => {},
            }
        }
        if pipeline_changed {
            out.push(Command::UsePipeline { pipeline: p.index() });
        }
        proof {
            assert(out@ =~= self.seg_pipeline());
        }
        let ghost c1 = out@;

        // Vertex buffer, where it changed.
        let vertex_changed = match self.applied_vertex {
            Some(av) => av.index() != vb.index(),
            None => true,
        };
        proof {
            match self.applied_vertex {
                Some(av) => {
                    VertexBuffer::lemma_handle_identity(av, vb);
                },
                None => {},
            }
        }
        if vertex_changed {
            out.push(Command::BindVertexBuffer { buffer: vb.index() });
        }
        proof {
            assert(out@ =~= c1 + self.seg_vertex());
        }
        let ghost c2 = out@;

        // Index buffer, where it changed.
        let index_changed = match self.applied_index {
            Some(ai) => ai.index() != ib.index(),
            None => true,
        };
        proof {
            match self.applied_index {
                Some(ai) => {
                    IndexBuffer::lemma_handle_identity(ai, ib);
                },
                None => {},
            }
        }
        if index_changed {
            out.push(Command::BindIndexBuffer { buffer: ib.index() });
        }
        proof {
            assert(out@ =~= c2 + self.seg_index());
        }
        let ghost c3 = out@;

        // Group resolution, where the bound group changed.
        match self.bind {
            Some(g) => {
                let bind_changed = match self.applied_bind {
                    Some(ag) => ag.index() != g.index(),
                    None => true,
                };
                proof {
                    match self.applied_bind {
                        Some(ag) => {
                            UniformGroup::lemma_handle_identity(ag, g);
                        },
                        None => {},
                    }
                }
                if bind_changed {
                    let mut resolved = self.resolve_group(g, p);
                    out.append(&mut resolved);
                }
            },
            None => {},
        }
        proof {
            assert(out@ =~= c3 + self.seg_bind());
        }
        let ghost c4 = out@;

        // Viewport, where it changed.
        match self.viewport {
            Some(vp) => {
                let viewport_changed = match self.applied_viewport {
                    Some(av) => av != vp,
                    None => true,
                };
                if viewport_changed {
                    out.push(Command::SetViewport { viewport: vp });
                }
            },
            None => {},
        }
        proof {
            assert(out@ =~= c4 + self.seg_viewport());
        }
        let ghost c5 = out@;

        // Stencil reference, where it changed.
        let stencil_changed = match self.applied_stencil {
            Some(av) => av != self.stencil_reference,
            None => true,
        };
        if stencil_changed {
            out.push(Command::SetStencilReference { value: self.stencil_reference });
        }
        proof {
            assert(out@ =~= c5 + self.seg_stencil());
            assert(out@ =~= self.pending_setup());
        }

        out.push(Command::DrawIndexed { topology, start, end, instances });
        self.commands.append(&mut out);
        self.applied_pipeline = Some(p);
        self.applied_vertex = Some(vb);
        self.applied_index = Some(ib);
        match self.bind {
            Some(g) => {
                self.applied_bind = Some(g);
            },
            None => {},
        }
        match self.viewport {
            Some(vp) => {
                self.applied_viewport = Some(vp);
            },
            None => {},
        }
        self.applied_stencil = Some(self.stencil_reference);
        proof {
            assert(self.commands@ =~= old(self).spec_commands() + old(self).pending_setup()
                + seq![Command::DrawIndexed { topology, start, end, instances }]);
        }
    }

    /// Resolve the bound group's entries against the current pipeline's
    /// program into binding commands.
    fn resolve_group(&self, g: UniformGroup, p: RenderPipeline) -> (out: Vec<Command>)
        requires
            self.wf(),
            self.spec_device().valid_group(g),
            self.spec_device().valid_pipeline(p),
        ensures
            out@ == self.spec_device().resolve_cmds(g, p, 0, 0, 0),
    {
        let mut out: Vec<Command> = Vec::new();
        let gidx = g.index();
        let n = self.device.group_record(&g).entries.len();
        let mut alloc = crate::binding::Allocator::new();
        let mut i: usize = 0;
        proof {
            let entries = self.device.groups()[g.id()].entries@;
            assert(crate::device::group_counts_ok(self.device.limits(), entries));
        }
        while i < n
            invariant
                0 <= i <= n,
                self.wf(),
                self.spec_device().valid_group(g),
                self.spec_device().valid_pipeline(p),
                gidx == g.id(),
                n == self.spec_device().groups()[g.id()].entries@.len(),
                alloc.spec_ubo() >= 0,
                alloc.spec_texture() >= 0,
                alloc.spec_ubo() + crate::device::count_buf_from(
                    self.spec_device().groups()[g.id()].entries@,
                    i as int,
                ) <= self.spec_device().limits().max_uniform_block_bindings,
                alloc.spec_texture() + crate::device::count_tex_from(
                    self.spec_device().groups()[g.id()].entries@,
                    i as int,
                ) <= self.spec_device().limits().max_textures,
                self.spec_device().resolve_cmds(g, p, 0, 0, 0) == out@
                    + self.spec_device().resolve_cmds(
                    g,
                    p,
                    i as int,
                    alloc.spec_ubo(),
                    alloc.spec_texture(),
                ),
            decreases n - i,
        {
            let ghost d = self.spec_device();
            let ghost pre_ubo = alloc.spec_ubo();
            let ghost pre_tex = alloc.spec_texture();
            let ghost pre_out = out@;
            let entry_kind = self.device.group_record(&g).entries[i].kind;
            match entry_kind {
                UniformBind::Buffer { buffer } => {
                    let active = {
                        let grec = self.device.group_record(&g);
                        let prec = self.device.pipeline_record(&p);
                        name_is_active(&prec.active_uniform_blocks, &grec.entries[i].binding)
                    };
                    if active {
                        let slot = alloc.next_ubo_binding();
                        let cmd = Command::BindUniformBlock {
                            group: gidx,
                            entry: i,
                            binding: slot,
                            buffer: buffer.index(),
                        };
                        out.push(cmd);
                        proof {
                            assert(d.resolve_cmds(g, p, i as int, pre_ubo, pre_tex) == seq![cmd]
                                + d.resolve_cmds(g, p, i + 1, pre_ubo + 1, pre_tex));
                            assert(pre_out + (seq![cmd] + d.resolve_cmds(
                                g,
                                p,
                                i + 1,
                                pre_ubo + 1,
                                pre_tex,
                            )) =~= out@ + d.resolve_cmds(g, p, i + 1, pre_ubo + 1, pre_tex));
                        }
                    }
                },
                UniformBind::Texture { texture, far, near } => {
                    let active = {
                        let grec = self.device.group_record(&g);
                        let prec = self.device.pipeline_record(&p);
                        name_is_active(&prec.active_uniforms, &grec.entries[i].binding)
                    };
                    if active {
                        let unit = alloc.next_texture();
                        let cmd = Command::BindTextureUnit {
                            group: gidx,
                            entry: i,
                            unit,
                            texture: texture.index(),
                            far,
                            near,
                        };
                        out.push(cmd);
                        proof {
                            assert(d.resolve_cmds(g, p, i as int, pre_ubo, pre_tex) == seq![cmd]
                                + d.resolve_cmds(g, p, i + 1, pre_ubo, pre_tex + 1));
                            assert(pre_out + (seq![cmd] + d.resolve_cmds(
                                g,
                                p,
                                i + 1,
                                pre_ubo,
                                pre_tex + 1,
                            )) =~= out@ + d.resolve_cmds(g, p, i + 1, pre_ubo, pre_tex + 1));
                        }
                    }
                },
            }
            i += 1;
        }
        proof {
            assert(self.spec_device().resolve_cmds(g, p, 0, 0, 0) =~= out@);
        }
        out
    }

    /// Hand the recorded commands to the embedding and start recording
    /// afresh; everything else stays as it is.
    pub fn take_commands(&mut self) -> (r: Vec<Command>)
        requires
            old(self).wf(),
        ensures
            final(self).wf(),
            r@ == old(self).spec_commands(),
            final(self).spec_commands() == Seq::<Command>::empty(),
            final(self).spec_device() == old(self).spec_device(),
            final(self).spec_framebuffer() == old(self).spec_framebuffer(),
            pass_slots_unchanged(final(self), old(self)),
            final(self).spec_applied_pipeline() == old(self).spec_applied_pipeline(),
            final(self).spec_applied_vertex() == old(self).spec_applied_vertex(),
            final(self).spec_applied_index() == old(self).spec_applied_index(),
            final(self).spec_applied_bind() == old(self).spec_applied_bind(),
            final(self).spec_applied_viewport() == old(self).spec_applied_viewport(),
            final(self).spec_applied_stencil() == old(self).spec_applied_stencil(),
    {
        let mut taken: Vec<Command> = Vec::new();
        core::mem::swap(&mut taken, &mut self.commands);
        taken
    }

    /// End the pass: give back the read holds of the bound group, if one
    /// is bound, and hand the device and the remaining commands back.
    /// The device-wide lock releases with the pass value itself.
    pub fn end(self) -> (r: (Device, Vec<Command>))
        requires
            self.wf(),
        ensures
            r.0.wf(),
            r.1@ == self.spec_commands(),
            r.0.buffers() == self.spec_device().buffers(),
            r.0.buffer_contents() == self.spec_device().buffer_contents(),
            r.0.textures() == self.spec_device().textures(),
            r.0.info_unchanged(&self.spec_device()),
            r.0.shaders_unchanged(&self.spec_device()),
            r.0.pipelines_unchanged(&self.spec_device()),
            r.0.groups_unchanged(&self.spec_device()),
            r.0.framebuffers_unchanged(&self.spec_device()),
            match self.spec_bind() {
                Some(g) => {
                    &&& r.0.buffer_lock_seq() == spec_rel_entries(
                        self.spec_device().buffer_lock_seq(),
                        self.spec_device().texture_lock_seq(),
                        self.spec_device().groups()[g.id()].entries@,
                    ).unwrap().0
                    &&& r.0.texture_lock_seq() == spec_rel_entries(
                        self.spec_device().buffer_lock_seq(),
                        self.spec_device().texture_lock_seq(),
                        self.spec_device().groups()[g.id()].entries@,
                    ).unwrap().1
                },
                None => r.0 == self.spec_device(),
            },
    {
        let RenderPass { mut device, bind, commands, .. } = self;
        match bind {
            Some(g) => {
                device.group_release_read(&g);
            },
            None => {},
        }
        (device, commands)
    }
}

/// One registered topology variant of a multi-topology pass.
#[derive(Debug, Copy, Clone, PartialEq, Eq, Hash)]
pub struct TopologyVariant {
    /// The topology the variant was built for.
    pub topology: PrimitiveTopology,
    /// The pipeline built for it.
    pub pipeline: RenderPipeline,
}

/// A dispatch with a topology no variant was built for.  The supported
/// list names every registered topology, in registration order.
#[derive(Debug, Clone, PartialEq, Eq)]
pub struct DispatchError {
    /// The topology asked for.
    pub requested: PrimitiveTopology,
    /// The topologies that variants were built for.
    pub supported: Vec<PrimitiveTopology>,
}

/// The pre-built pipeline variants of a pass that draws under more than
/// one topology: dispatching selects the variant whose topology matches
/// exactly, and an unregistered topology is refused with the list of
/// supported ones.
pub struct PipelineVariants {
    variants: Vec<TopologyVariant>,
}

impl PipelineVariants {
    /// The registered variants, in registration order.
    pub closed spec fn spec_variants(&self) -> Seq<TopologyVariant> {
        self.variants@
    }

    /// The registered topologies, in registration order.
    pub open spec fn spec_topologies(&self) -> Seq<PrimitiveTopology> {
        self.spec_variants().map_values(|v: TopologyVariant| v.topology)
    }

    /// The pipeline of the first variant registered for the topology, if
    /// any.
    pub open spec fn spec_select_from(&self, t: PrimitiveTopology, i: int) -> Option<
        RenderPipeline,
    >
        decreases self.spec_variants().len() - i,
    {
        if i < 0 || i >= self.spec_variants().len() {
            None
        } else if self.spec_variants()[i].topology == t {
            Some(self.spec_variants()[i].pipeline)
        } else {
            self.spec_select_from(t, i + 1)
        }
    }

    /// An empty set of variants.
    pub fn new() -> (r: Self)
        ensures
            r.spec_variants() == Seq::<TopologyVariant>::empty(),
    {
        PipelineVariants { variants: Vec::new() }
    }

    /// Register the pipeline built for a topology.
    pub fn register(&mut self, topology: PrimitiveTopology, pipeline: RenderPipeline)
        ensures
            final(self).spec_variants() == old(self).spec_variants().push(
                TopologyVariant { topology, pipeline },
            ),
    {
        self.variants.push(TopologyVariant { topology, pipeline });
    }

    /// Select the pipeline built for the given topology.  An exact match
    /// is required; a topology no variant was built for is refused with
    /// the list of supported topologies.
    pub fn select(&self, topology: PrimitiveTopology) -> (r: Result<RenderPipeline, DispatchError>)
        ensures
            match self.spec_select_from(topology, 0) {
                Some(p) => r == Ok::<RenderPipeline, DispatchError>(p),
                None => r matches Err(e) && e.requested == topology && e.supported@
                    == self.spec_topologies(),
            },
    {
        let n = self.variants.len();
        let mut i: usize = 0;
        while i < n
            invariant
                0 <= i <= n,
                n == self.spec_variants().len(),
                self.spec_select_from(topology, 0) == self.spec_select_from(topology, i as int),
            decreases n - i,
        {
            let v = self.variants[i];
            if v.topology == topology {
                return Ok(v.pipeline);
            }
            i += 1;
        }
        let mut supported: Vec<PrimitiveTopology> = Vec::new();
        let mut j: usize = 0;
        while j < n
            invariant
                0 <= j <= n,
                n == self.spec_variants().len(),
                supported@ == self.spec_topologies().take(j as int),
            decreases n - j,
        {
            supported.push(self.variants[j].topology);
            proof {
                assert(supported@ =~= self.spec_topologies().take(j + 1));
            }
            j += 1;
        }
        proof {
            assert(supported@ =~= self.spec_topologies());
        }
        Err(DispatchError { requested: topology, supported })
    }
}

} // verus!
