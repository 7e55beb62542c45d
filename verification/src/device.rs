//! The device: the top-level factory and coordinator.
//!
//! The device owns the capability snapshot and every resource record —
//! buffers with their contents, textures, shaders, pipelines, uniform
//! groups and framebuffers — each addressed by the cheap handle types the
//! creation functions return.  The native objects mirroring these records
//! live in the embedding program, keyed by the same indices.
//!
//! The stateful native API has one current binding per slot, so everything
//! that mutates global pipeline state must be serialised.  Here that
//! exclusion is ownership: starting a render pass moves the device into the
//! pass value, and nothing else can touch it until the pass ends and hands
//! it back.

use vstd::prelude::*;
use crate::access::AccessLock;
use crate::access::AccessError;
use crate::binding::{GroupRecord, UniformBind, UniformGroup, UniformGroupDescriptor};
use crate::binding::{UniformGroupEntry, UniformGroupError};
use crate::buffer::{BufferDescriptor, BufferError, BufferKind, BufferLoadOp, BufferMeta};
use crate::buffer::{IndexBuffer, UniformBuffer, VertexBuffer};
use crate::framebuffer::{DefaultFramebufferDescriptor, Framebuffer, FramebufferAttachment};
use crate::framebuffer::FramebufferDescriptor;
use crate::framebuffer::{FramebufferError, FramebufferRecord, LoadOp};
use crate::info::{collect_fault, collect_ok, limits_value, ContextProbe, Information, Limits};
use crate::info::UnsupportedContext;
use crate::pipeline::{LinkOutcome, PipelineRecord, RenderPipeline, RenderPipelineDescriptor};
use crate::pipeline::RenderPipelineError;
use crate::shader::{CompileOutcome, FragmentShader, ShaderError, ShaderMeta, ShaderSource};
use crate::shader::{ShaderStage, VertexShader};
use crate::texture::{texture_create_fault, Texture, TextureDescriptor, TextureError};
use crate::texture::{TextureExtent, TextureFormat, TextureMeta};
use crate::version::version_parse_spec;
use crate::version::Profile;

verus! {

/// The depth value a custom framebuffer without a depth-stencil attachment
/// clears to: the bit pattern of positive infinity.
pub const DEPTH_CLEAR_INFINITY_BITS: u32 = 0x7F800000;

/// The stencil value a custom framebuffer without a depth-stencil
/// attachment clears to.
pub const STENCIL_CLEAR_DEFAULT: u32 = 0xFF;

/// The top-level factory and coordinator: the capability snapshot and
/// every resource record, addressed by the indices the handles carry.
pub struct Device {
    information: Information,
    buffer_meta: Vec<BufferMeta>,
    buffer_locks: Vec<AccessLock>,
    buffer_data: Vec<Vec<u8>>,
    texture_meta: Vec<TextureMeta>,
    texture_locks: Vec<AccessLock>,
    shader_meta: Vec<ShaderMeta>,
    shader_sources: Vec<ShaderSource>,
    pipeline_recs: Vec<PipelineRecord>,
    group_recs: Vec<GroupRecord>,
    framebuffer_recs: Vec<FramebufferRecord>,
}

/// A live mutable mapping of the first bytes of a uniform buffer.  While
/// one exists, its buffer holds the write lock; unmapping writes the bytes
/// back and releases it.
pub struct BufferMapping {
    idx: usize,
    len: u32,
    bytes: Vec<u8>,
}

impl BufferMapping {
    /// The identity of the mapped buffer.
    pub closed spec fn spec_buffer(&self) -> int {
        self.idx as int
    }

    /// How many bytes are mapped.
    pub closed spec fn spec_len(&self) -> int {
        self.len as int
    }

    /// The staged bytes of the mapping.
    pub closed spec fn spec_bytes(&self) -> Seq<u8> {
        self.bytes@
    }

    /// The staged bytes, for reading.
    pub fn bytes(&self) -> (r: &Vec<u8>)
        ensures
            r@ == self.spec_bytes(),
    {
        &self.bytes
    }

    /// The staged bytes, for writing.  Unmapping expects their length
    /// unchanged.
    pub fn bytes_mut(&mut self) -> (r: &mut Vec<u8>)
        ensures
            r@ == old(self).spec_bytes(),
            final(self).spec_bytes() == final(r)@,
            final(self).spec_buffer() == old(self).spec_buffer(),
            final(self).spec_len() == old(self).spec_len(),
    {
        &mut self.bytes
    }
}

impl Device {
    /// The capability snapshot of the context.
    pub closed spec fn spec_information(&self) -> Information {
        self.information
    }

    /// The limits of the context, for short.
    pub open spec fn limits(&self) -> Limits {
        self.spec_information().limits
    }

    /// The metadata of every buffer, in creation order.
    pub closed spec fn buffers(&self) -> Seq<BufferMeta> {
        self.buffer_meta@
    }

    /// The access lock of every buffer.
    pub closed spec fn buffer_lock_seq(&self) -> Seq<AccessLock> {
        self.buffer_locks@
    }

    /// The contents of every buffer.
    pub closed spec fn buffer_contents(&self) -> Seq<Seq<u8>> {
        self.buffer_data@.map_values(|v: Vec<u8>| v@)
    }

    /// The metadata of every texture, in creation order.
    pub closed spec fn textures(&self) -> Seq<TextureMeta> {
        self.texture_meta@
    }

    /// The access lock of every texture.
    pub closed spec fn texture_lock_seq(&self) -> Seq<AccessLock> {
        self.texture_locks@
    }

    /// The metadata of every shader, in creation order.
    pub closed spec fn shaders(&self) -> Seq<ShaderMeta> {
        self.shader_meta@
    }

    /// The source of every shader, in creation order.
    pub closed spec fn shader_source_seq(&self) -> Seq<ShaderSource> {
        self.shader_sources@
    }

    /// The record of every pipeline, in creation order.
    pub closed spec fn pipelines(&self) -> Seq<PipelineRecord> {
        self.pipeline_recs@
    }

    /// The record of every uniform group, in creation order.
    pub closed spec fn groups(&self) -> Seq<GroupRecord> {
        self.group_recs@
    }

    /// The record of every custom framebuffer, in creation order.
    pub closed spec fn framebuffers(&self) -> Seq<FramebufferRecord> {
        self.framebuffer_recs@
    }

    /// Whether a vertex buffer handle names a vertex buffer of this
    /// device.
    pub open spec fn valid_vertex_buffer(&self, h: VertexBuffer) -> bool {
        0 <= h.id() < self.buffers().len() && self.buffers()[h.id()].kind == BufferKind::Vertex
    }

    /// Whether an index buffer handle names an index buffer of this
    /// device.
    pub open spec fn valid_index_buffer(&self, h: IndexBuffer) -> bool {
        0 <= h.id() < self.buffers().len() && self.buffers()[h.id()].kind == BufferKind::Index
    }

    /// Whether a uniform buffer handle names a uniform buffer of this
    /// device.
    pub open spec fn valid_uniform_buffer(&self, h: UniformBuffer) -> bool {
        0 <= h.id() < self.buffers().len() && self.buffers()[h.id()].kind == BufferKind::Uniform
    }

    /// Whether a texture handle names a texture of this device.
    pub open spec fn valid_texture(&self, h: Texture) -> bool {
        0 <= h.id() < self.textures().len()
    }

    /// Whether a vertex shader handle names a vertex shader of this
    /// device.
    pub open spec fn valid_vertex_shader(&self, h: VertexShader) -> bool {
        0 <= h.id() < self.shaders().len() && self.shaders()[h.id()].stage == ShaderStage::Vertex
    }

    /// Whether a fragment shader handle names a fragment shader of this
    /// device.
    pub open spec fn valid_fragment_shader(&self, h: FragmentShader) -> bool {
        0 <= h.id() < self.shaders().len() && self.shaders()[h.id()].stage == ShaderStage::Fragment
    }

    /// Whether a pipeline handle names a pipeline of this device.
    pub open spec fn valid_pipeline(&self, h: RenderPipeline) -> bool {
        0 <= h.id() < self.pipelines().len()
    }

    /// Whether a group handle names a uniform group of this device.
    pub open spec fn valid_group(&self, h: UniformGroup) -> bool {
        0 <= h.id() < self.groups().len()
    }

    /// Whether a framebuffer names the default target or a custom target
    /// of this device.
    pub open spec fn valid_framebuffer(&self, f: Framebuffer) -> bool {
        match f {
            Framebuffer::Default { .. } => true,
            Framebuffer::Custom { idx } => idx < self.framebuffers().len(),
        }
    }

    /// Whether one group entry names resources of this device.
    pub open spec fn valid_entry(&self, e: UniformGroupEntry) -> bool {
        match e.kind {
            UniformBind::Buffer { buffer } => self.valid_uniform_buffer(buffer),
            UniformBind::Texture { texture, .. } => self.valid_texture(texture),
        }
    }

    /// Whether every entry of a sequence names resources of this device.
    pub open spec fn valid_entries(&self, entries: Seq<UniformGroupEntry>) -> bool {
        forall|i: int| 0 <= i < entries.len() ==> self.valid_entry(#[trigger] entries[i])
    }

    /// The structural soundness of the device: the parallel record
    /// sequences agree in length, every buffer holds exactly as many bytes
    /// as its fixed size says, and every record that names another
    /// resource names one that exists.
    pub open spec fn wf(&self) -> bool {
        &&& self.buffer_lock_seq().len() == self.buffers().len()
        &&& self.buffer_contents().len() == self.buffers().len()
        &&& forall|i: int|
            0 <= i < self.buffers().len() ==> (#[trigger] self.buffer_contents()[i]).len()
                == self.buffers()[i].size
        &&& self.texture_lock_seq().len() == self.textures().len()
        &&& self.shader_source_seq().len() == self.shaders().len()
        &&& forall|g: int|
            0 <= g < self.groups().len() ==> self.valid_entries(
                (#[trigger] self.groups()[g]).entries@,
            )
        &&& forall|g: int|
            0 <= g < self.groups().len() ==> group_counts_ok(
                self.limits(),
                (#[trigger] self.groups()[g]).entries@,
            )
        &&& forall|p: int|
            0 <= p < self.pipelines().len() ==> {
                &&& self.valid_vertex_shader((#[trigger] self.pipelines()[p]).vertex_shader)
                &&& (self.pipelines()[p].fragment_shader matches Some(f)
                    ==> self.valid_fragment_shader(f))
            }
        &&& forall|f: int|
            0 <= f < self.framebuffers().len() ==> {
                &&& forall|a: int|
                    0 <= a < (#[trigger] self.framebuffers()[f]).color_attachments@.len()
                        ==> self.valid_texture(
                        #[trigger] self.framebuffers()[f].color_attachments@[a],
                    )
                &&& (self.framebuffers()[f].depth_stencil matches Some(t)
                    ==> self.valid_texture(t))
            }
    }

    /// Whether two devices hold the same information snapshot.
    pub open spec fn info_unchanged(&self, o: &Device) -> bool {
        self.spec_information() == o.spec_information()
    }

    /// Whether two devices hold the same buffers, locks and contents
    /// included.
    pub open spec fn buffers_unchanged(&self, o: &Device) -> bool {
        &&& self.buffers() == o.buffers()
        &&& self.buffer_lock_seq() == o.buffer_lock_seq()
        &&& self.buffer_contents() == o.buffer_contents()
    }

    /// Whether two devices hold the same textures, locks included.
    pub open spec fn textures_unchanged(&self, o: &Device) -> bool {
        &&& self.textures() == o.textures()
        &&& self.texture_lock_seq() == o.texture_lock_seq()
    }

    /// Whether two devices hold the same shaders.
    pub open spec fn shaders_unchanged(&self, o: &Device) -> bool {
        &&& self.shaders() == o.shaders()
        &&& self.shader_source_seq() == o.shader_source_seq()
    }

    /// Whether two devices hold the same pipelines.
    pub open spec fn pipelines_unchanged(&self, o: &Device) -> bool {
        self.pipelines() == o.pipelines()
    }

    /// Whether two devices hold the same uniform groups.
    pub open spec fn groups_unchanged(&self, o: &Device) -> bool {
        self.groups() == o.groups()
    }

    /// Whether two devices hold the same framebuffers.
    pub open spec fn framebuffers_unchanged(&self, o: &Device) -> bool {
        self.framebuffers() == o.framebuffers()
    }

    /// Creates a new device from a probe of a context obtained externally
    /// to the device itself.  The context must satisfy the library's
    /// version and limit requirements; the new device starts with no
    /// resources.
    pub fn new_from_context(probe: &ContextProbe) -> (r: Result<Device, UnsupportedContext>)
        ensures
            r is Ok <==> collect_ok(*probe),
            r matches Ok(d) ==> {
                &&& d.wf()
                &&& version_parse_spec(probe.version@) matches Ok((p, rel, vendor)) && {
                    &&& d.spec_information().version.profile == p
                    &&& d.spec_information().version.release == rel
                    &&& d.spec_information().version.vendor@ == vendor
                }
                &&& d.spec_information().capabilities.buffer_mapping == (
                d.spec_information().version.profile != Profile::Web)
                &&& d.spec_information().limits == limits_value(probe.limits)
                &&& d.buffers().len() == 0
                &&& d.textures().len() == 0
                &&& d.shaders().len() == 0
                &&& d.pipelines().len() == 0
                &&& d.groups().len() == 0
                &&& d.framebuffers().len() == 0
            },
            r matches Err(e) ==> collect_fault(*probe, e),
    {
        let information = match Information::collect(probe) {
            Ok(i) => i,
            Err(e) => {
                return Err(e);
            },
        };
        Ok(
            Device {
                information,
                buffer_meta: Vec::new(),
                buffer_locks: Vec::new(),
                buffer_data: Vec::new(),
                texture_meta: Vec::new(),
                texture_locks: Vec::new(),
                shader_meta: Vec::new(),
                shader_sources: Vec::new(),
                pipeline_recs: Vec::new(),
                group_recs: Vec::new(),
                framebuffer_recs: Vec::new(),
            },
        )
    }

    /// Information on the current context.
    pub fn information(&self) -> (r: &Information)
        ensures
            *r == self.spec_information(),
    {
        &self.information
    }
}

/// What a successful buffer creation leaves behind: one more buffer of the
/// given kind, size and profile, holding exactly the given bytes under a
/// free lock, with everything else as it was.
pub open spec fn buffer_created(
    old_d: Device,
    new_d: Device,
    kind: BufferKind,
    descriptor: BufferDescriptor,
    data: Seq<u8>,
    id: int,
) -> bool {
    &&& id == old_d.buffers().len()
    &&& new_d.buffers() == old_d.buffers().push(
        BufferMeta { kind, profile: descriptor.profile, size: descriptor.size },
    )
    &&& new_d.buffer_lock_seq() == old_d.buffer_lock_seq().push(AccessLock::spec_free())
    &&& new_d.buffer_contents() == old_d.buffer_contents().push(data)
    &&& new_d.info_unchanged(&old_d)
    &&& new_d.textures_unchanged(&old_d)
    &&& new_d.shaders_unchanged(&old_d)
    &&& new_d.pipelines_unchanged(&old_d)
    &&& new_d.groups_unchanged(&old_d)
    &&& new_d.framebuffers_unchanged(&old_d)
}

/// The fault creating a buffer raises, if any: data that cannot be counted
/// in the native API's 32 bits, or data whose length is not the declared
/// size — never truncated, never padded.
pub open spec fn buffer_create_fault(descriptor: BufferDescriptor, data: Seq<u8>) -> Option<
    BufferError,
> {
    if data.len() > u32::MAX {
        Some(BufferError::LengthOverflow { actual: data.len() as usize })
    } else if data.len() != descriptor.size {
        Some(BufferError::SizeMismatch { declared: descriptor.size, actual: data.len() as usize })
    } else {
        None
    }
}

/// How many buffer entries a group holds from index `i` on.
pub open spec fn count_buf_from(entries: Seq<UniformGroupEntry>, i: int) -> nat
    decreases entries.len() - i,
{
    if i < 0 || i >= entries.len() {
        0
    } else {
        (match entries[i].kind {
            UniformBind::Buffer { .. } => 1nat,
            UniformBind::Texture { .. } => 0nat,
        }) + count_buf_from(entries, i + 1)
    }
}

/// How many texture entries a group holds from index `i` on.
pub open spec fn count_tex_from(entries: Seq<UniformGroupEntry>, i: int) -> nat
    decreases entries.len() - i,
{
    if i < 0 || i >= entries.len() {
        0
    } else {
        (match entries[i].kind {
            UniformBind::Buffer { .. } => 0nat,
            UniformBind::Texture { .. } => 1nat,
        }) + count_tex_from(entries, i + 1)
    }
}

/// Whether a group's entry counts respect the context's binding limits,
/// as group creation enforces.
pub open spec fn group_counts_ok(l: Limits, entries: Seq<UniformGroupEntry>) -> bool {
    &&& count_buf_from(entries, 0) <= l.max_uniform_block_bindings
    &&& count_tex_from(entries, 0) <= l.max_textures
}

/// Growing the device by one record preserves its soundness: what an old
/// record named, it still names, because every existing record and every
/// existing index is kept as it was.
proof fn lemma_wf_after_buffer_push(old_d: Device, new_d: Device, m: BufferMeta, data: Seq<u8>)
    requires
        old_d.wf(),
        new_d.buffers() == old_d.buffers().push(m),
        new_d.buffer_lock_seq() == old_d.buffer_lock_seq().push(AccessLock::spec_free()),
        new_d.buffer_contents() == old_d.buffer_contents().push(data),
        data.len() == m.size,
        new_d.info_unchanged(&old_d),
        new_d.textures_unchanged(&old_d),
        new_d.shaders_unchanged(&old_d),
        new_d.pipelines_unchanged(&old_d),
        new_d.groups_unchanged(&old_d),
        new_d.framebuffers_unchanged(&old_d),
    ensures
        new_d.wf(),
{
    assert forall|i: int|
        0 <= i < new_d.buffers().len() implies (#[trigger] new_d.buffer_contents()[i]).len()
        == new_d.buffers()[i].size by {
        if i < old_d.buffers().len() {
            assert(old_d.buffer_contents()[i].len() == old_d.buffers()[i].size);
        }
    }
    assert forall|g: int|
        0 <= g < new_d.groups().len() implies new_d.valid_entries(
        (#[trigger] new_d.groups()[g]).entries@,
    ) by {
        assert(old_d.valid_entries(old_d.groups()[g].entries@));
        let entries = new_d.groups()[g].entries@;
        assert forall|i: int| 0 <= i < entries.len() implies new_d.valid_entry(
            #[trigger] entries[i],
        ) by {
            assert(old_d.valid_entry(entries[i]));
            match entries[i].kind {
                UniformBind::Buffer { buffer } => {
                    assert(old_d.buffers().push(m)[buffer.id()] == old_d.buffers()[buffer.id()]);
                },
                UniformBind::Texture { .. } => {},
            }
        }
    }
    assert forall|g: int|
        0 <= g < new_d.groups().len() implies group_counts_ok(
        new_d.limits(),
        (#[trigger] new_d.groups()[g]).entries@,
    ) by {
        assert(group_counts_ok(old_d.limits(), old_d.groups()[g].entries@));
    }
}

impl Device {
    /// The shared trunk of the buffer creation functions: validates the
    /// data against the descriptor and records the new buffer.
    fn create_buffer_common(
        &mut self,
        kind: BufferKind,
        descriptor: &BufferDescriptor,
        data: &[u8],
    ) -> (r: Result<usize, BufferError>)
        requires
            old(self).wf(),
        ensures
            final(self).wf(),
            match buffer_create_fault(*descriptor, data@) {
                Some(f) => r matches Err(e) && e == f && *final(self) == *old(self),
                None => r matches Ok(id) && buffer_created(
                    *old(self),
                    *final(self),
                    kind,
                    *descriptor,
                    data@,
                    id as int,
                ),
            },
    {
        if data.len() > u32::MAX as usize {
            return Err(BufferError::LengthOverflow { actual: data.len() });
        }
        if data.len() as u32 != descriptor.size {
            return Err(
                BufferError::SizeMismatch { declared: descriptor.size, actual: data.len() },
            );
        }
        let id = self.buffer_meta.len();
        let mut contents: Vec<u8> = Vec::new();
        let mut i: usize = 0;
        while i < data.len()
            invariant
                0 <= i <= data@.len(),
                contents@ == data@.take(i as int),
            decreases data@.len() - i,
        {
            contents.push(data[i]);
            i += 1;
        }
        proof {
            assert(contents@ =~= data@);
        }
        self.buffer_meta.push(
            BufferMeta { kind, profile: descriptor.profile, size: descriptor.size },
        );
        self.buffer_locks.push(AccessLock::new());
        self.buffer_data.push(contents);
        proof {
            assert(self.buffer_contents() =~= old(self).buffer_contents().push(data@));
            lemma_wf_after_buffer_push(
                *old(self),
                *self,
                BufferMeta { kind, profile: descriptor.profile, size: descriptor.size },
                data@,
            );
        }
        Ok(id)
    }

    /// Tries to create a new vertex buffer with the given data, uploaded
    /// verbatim.
    pub fn create_vertex_buffer_with_data(
        &mut self,
        descriptor: &BufferDescriptor,
        data: &[u8],
    ) -> (r: Result<VertexBuffer, BufferError>)
        requires
            old(self).wf(),
        ensures
            final(self).wf(),
            match buffer_create_fault(*descriptor, data@) {
                Some(f) => r matches Err(e) && e == f && *final(self) == *old(self),
                None => r matches Ok(h) && buffer_created(
                    *old(self),
                    *final(self),
                    BufferKind::Vertex,
                    *descriptor,
                    data@,
                    h.id(),
                ),
            },
    {
        match self.create_buffer_common(BufferKind::Vertex, descriptor, data) {
            Ok(idx) => Ok(VertexBuffer::from_index(idx)),
            Err(e) => Err(e),
        }
    }

    /// Tries to create a new index buffer with the given data, uploaded
    /// verbatim.
    pub fn create_index_buffer_with_data(
        &mut self,
        descriptor: &BufferDescriptor,
        data: &[u8],
    ) -> (r: Result<IndexBuffer, BufferError>)
        requires
            old(self).wf(),
        ensures
            final(self).wf(),
            match buffer_create_fault(*descriptor, data@) {
                Some(f) => r matches Err(e) && e == f && *final(self) == *old(self),
                None => r matches Ok(h) && buffer_created(
                    *old(self),
                    *final(self),
                    BufferKind::Index,
                    *descriptor,
                    data@,
                    h.id(),
                ),
            },
    {
        match self.create_buffer_common(BufferKind::Index, descriptor, data) {
            Ok(idx) => Ok(IndexBuffer::from_index(idx)),
            Err(e) => Err(e),
        }
    }

    /// Tries to create a new uniform buffer with the given data, uploaded
    /// verbatim.  The uniform-block size limit is not checked here: it
    /// binds at group creation, not at buffer creation.
    pub fn create_uniform_buffer_with_data(
        &mut self,
        descriptor: &BufferDescriptor,
        data: &[u8],
    ) -> (r: Result<UniformBuffer, BufferError>)
        requires
            old(self).wf(),
        ensures
            final(self).wf(),
            match buffer_create_fault(*descriptor, data@) {
                Some(f) => r matches Err(e) && e == f && *final(self) == *old(self),
                None => r matches Ok(h) && buffer_created(
                    *old(self),
                    *final(self),
                    BufferKind::Uniform,
                    *descriptor,
                    data@,
                    h.id(),
                ),
            },
    {
        match self.create_buffer_common(BufferKind::Uniform, descriptor, data) {
            Ok(idx) => Ok(UniformBuffer::from_index(idx)),
            Err(e) => Err(e),
        }
    }

    /// Tries to create a new zero-initialized vertex buffer.  Costs a
    /// host-side scratch allocation as large as the buffer.
    pub fn create_vertex_buffer(&mut self, descriptor: &BufferDescriptor) -> (r: Result<
        VertexBuffer,
        BufferError,
    >)
        requires
            old(self).wf(),
        ensures
            final(self).wf(),
            r matches Ok(h) && buffer_created(
                *old(self),
                *final(self),
                BufferKind::Vertex,
                *descriptor,
                Seq::new(descriptor.size as nat, |i: int| 0u8),
                h.id(),
            ),
    {
        let init = zero_bytes(descriptor.size);
        self.create_vertex_buffer_with_data(descriptor, init.as_slice())
    }

    /// Tries to create a new zero-initialized index buffer.  Costs a
    /// host-side scratch allocation as large as the buffer.
    pub fn create_index_buffer(&mut self, descriptor: &BufferDescriptor) -> (r: Result<
        IndexBuffer,
        BufferError,
    >)
        requires
            old(self).wf(),
        ensures
            final(self).wf(),
            r matches Ok(h) && buffer_created(
                *old(self),
                *final(self),
                BufferKind::Index,
                *descriptor,
                Seq::new(descriptor.size as nat, |i: int| 0u8),
                h.id(),
            ),
    {
        let init = zero_bytes(descriptor.size);
        self.create_index_buffer_with_data(descriptor, init.as_slice())
    }

    /// Tries to create a new zero-initialized uniform buffer.  Costs a
    /// host-side scratch allocation as large as the buffer.
    pub fn create_uniform_buffer(&mut self, descriptor: &BufferDescriptor) -> (r: Result<
        UniformBuffer,
        BufferError,
    >)
        requires
            old(self).wf(),
        ensures
            final(self).wf(),
            r matches Ok(h) && buffer_created(
                *old(self),
                *final(self),
                BufferKind::Uniform,
                *descriptor,
                Seq::new(descriptor.size as nat, |i: int| 0u8),
                h.id(),
            ),
    {
        let init = zero_bytes(descriptor.size);
        self.create_uniform_buffer_with_data(descriptor, init.as_slice())
    }
}

/// What a successful texture creation leaves behind: one more texture of
/// the given format and extent under a free lock, with everything else as
/// it was.
pub open spec fn texture_created(old_d: Device, new_d: Device, meta: TextureMeta, id: int) -> bool {
    &&& id == old_d.textures().len()
    &&& new_d.textures() == old_d.textures().push(meta)
    &&& new_d.texture_lock_seq() == old_d.texture_lock_seq().push(AccessLock::spec_free())
    &&& new_d.info_unchanged(&old_d)
    &&& new_d.buffers_unchanged(&old_d)
    &&& new_d.shaders_unchanged(&old_d)
    &&& new_d.pipelines_unchanged(&old_d)
    &&& new_d.groups_unchanged(&old_d)
    &&& new_d.framebuffers_unchanged(&old_d)
}

proof fn lemma_wf_after_texture_push(old_d: Device, new_d: Device, meta: TextureMeta)
    requires
        old_d.wf(),
        new_d.textures() == old_d.textures().push(meta),
        new_d.texture_lock_seq() == old_d.texture_lock_seq().push(AccessLock::spec_free()),
        new_d.info_unchanged(&old_d),
        new_d.buffers_unchanged(&old_d),
        new_d.shaders_unchanged(&old_d),
        new_d.pipelines_unchanged(&old_d),
        new_d.groups_unchanged(&old_d),
        new_d.framebuffers_unchanged(&old_d),
    ensures
        new_d.wf(),
{
    assert forall|g: int|
        0 <= g < new_d.groups().len() implies new_d.valid_entries(
        (#[trigger] new_d.groups()[g]).entries@,
    ) by {
        assert(old_d.valid_entries(old_d.groups()[g].entries@));
        let entries = new_d.groups()[g].entries@;
        assert forall|i: int| 0 <= i < entries.len() implies new_d.valid_entry(
            #[trigger] entries[i],
        ) by {
            assert(old_d.valid_entry(entries[i]));
        }
    }
    assert forall|g: int|
        0 <= g < new_d.groups().len() implies group_counts_ok(
        new_d.limits(),
        (#[trigger] new_d.groups()[g]).entries@,
    ) by {
        assert(group_counts_ok(old_d.limits(), old_d.groups()[g].entries@));
    }
    assert forall|f: int|
        0 <= f < new_d.framebuffers().len() implies {
        &&& forall|a: int|
            0 <= a < (#[trigger] new_d.framebuffers()[f]).color_attachments@.len()
                ==> new_d.valid_texture(#[trigger] new_d.framebuffers()[f].color_attachments@[a])
        &&& (new_d.framebuffers()[f].depth_stencil matches Some(t) ==> new_d.valid_texture(t))
    } by {
        assert(forall|a: int|
            0 <= a < (#[trigger] old_d.framebuffers()[f]).color_attachments@.len()
                ==> old_d.valid_texture(#[trigger] old_d.framebuffers()[f].color_attachments@[a]));
        assert(old_d.framebuffers()[f].depth_stencil matches Some(t)
            ==> old_d.valid_texture(t));
    }
}

impl Device {
    /// Internal trunk of the texture creation functions, validating both
    /// user-initialized and default-initialized textures.
    fn create_texture_generic(
        &mut self,
        descriptor: &TextureDescriptor,
        data_len: Option<usize>,
    ) -> (r: Result<Texture, TextureError>)
        requires
            old(self).wf(),
        ensures
            final(self).wf(),
            match texture_create_fault(
                old(self).limits(),
                *descriptor,
                match data_len {
                    Some(n) => Some(n as int),
                    None => None,
                },
            ) {
                Some(f) => r matches Err(e) && e == f && *final(self) == *old(self),
                None => r matches Ok(h) && texture_created(
                    *old(self),
                    *final(self),
                    TextureMeta { format: descriptor.format, extent: descriptor.extent },
                    h.id(),
                ),
            },
    {
        match descriptor.mip {
            crate::texture::Mipmap::Off => {},
            _ => {
                return Err(TextureError::UnsupportedMipmaps);
            },
        }

        let (w, h, d): (u32, u32, u32) = match descriptor.extent {
            TextureExtent::D1 { length } => (length, 1, 1),
            TextureExtent::D2 { width, height } => (width, height, 1),
            TextureExtent::D2Array { width, height, layers } => (width, height, layers),
            TextureExtent::D3 { width, height, depth } => (width, height, depth),
        };
        let (mw, mh, md): (u32, u32, u32) = match descriptor.extent {
            TextureExtent::D1 { .. } => (self.information.limits.max_texture_size, 1, 1),
            TextureExtent::D2 { .. } => (
                self.information.limits.max_texture_size,
                self.information.limits.max_texture_size,
                1,
            ),
            TextureExtent::D2Array { .. } => (
                self.information.limits.max_texture_size,
                self.information.limits.max_texture_size,
                self.information.limits.max_texture_layers,
            ),
            TextureExtent::D3 { .. } => (
                self.information.limits.max_texture_size_3d,
                self.information.limits.max_texture_size_3d,
                self.information.limits.max_texture_size_3d,
            ),
        };

        if w > mw {
            return Err(TextureError::OversizedWidth { width: w, max: mw });
        }
        if h > mh {
            return Err(TextureError::OversizedHeight { height: h, max: mh });
        }
        if d > md {
            return Err(TextureError::OversizedDepth { depth: d, max: md });
        }

        if let Some(n) = data_len {
            let bpp = crate::texture::bytes_per_pixel(descriptor.format);
            proof {
                assert(bpp as int * w as int <= 0x10_0000_0000) by (nonlinear_arith)
                    requires
                        bpp <= 16,
                        w <= 0xFFFF_FFFFu32,
                ;
            }
            let p1: u128 = bpp as u128 * w as u128;
            proof {
                assert(p1 as int * h as int <= 0x10_0000_0000_0000_0000) by (nonlinear_arith)
                    requires
                        p1 <= 0x10_0000_0000u128,
                        h <= 0xFFFF_FFFFu32,
                ;
            }
            let p2: u128 = p1 * h as u128;
            proof {
                assert(p2 as int * d as int <= 0x1000_0000_0000_0000_0000_0000_0000) by (nonlinear_arith)
                    requires
                        p2 <= 0x10_0000_0000_0000_0000u128,
                        d <= 0xFFFF_FFFFu32,
                ;
            }
            let required: u128 = p2 * d as u128;
            if (n as u128) < required {
                return Err(TextureError::ShortInitialData { provided: n, required });
            }
        }

        if w > i32::MAX as u32 {
            return Err(TextureError::InvalidBounds { value: w });
        }
        if h > i32::MAX as u32 {
            return Err(TextureError::InvalidBounds { value: h });
        }
        if d > i32::MAX as u32 {
            return Err(TextureError::InvalidBounds { value: d });
        }

        let id = self.texture_meta.len();
        self.texture_meta.push(
            TextureMeta { format: descriptor.format, extent: descriptor.extent },
        );
        self.texture_locks.push(AccessLock::new());
        proof {
            lemma_wf_after_texture_push(
                *old(self),
                *self,
                TextureMeta { format: descriptor.format, extent: descriptor.extent },
            );
        }
        Ok(Texture::from_index(id))
    }

    /// Create a new texture from the given data, which must hold at least
    /// the bytes the texture's format and extent require.
    pub fn create_texture_with_data(
        &mut self,
        descriptor: &TextureDescriptor,
        data: &[u8],
    ) -> (r: Result<Texture, TextureError>)
        requires
            old(self).wf(),
        ensures
            final(self).wf(),
            match texture_create_fault(old(self).limits(), *descriptor, Some(data@.len() as int)) {
                Some(f) => r matches Err(e) && e == f && *final(self) == *old(self),
                None => r matches Ok(h) && texture_created(
                    *old(self),
                    *final(self),
                    TextureMeta { format: descriptor.format, extent: descriptor.extent },
                    h.id(),
                ),
            },
    {
        self.create_texture_generic(descriptor, Some(data.len()))
    }

    /// Create a new, default initialized texture.
    pub fn create_texture(&mut self, descriptor: &TextureDescriptor) -> (r: Result<
        Texture,
        TextureError,
    >)
        requires
            old(self).wf(),
        ensures
            final(self).wf(),
            match texture_create_fault(old(self).limits(), *descriptor, None) {
                Some(f) => r matches Err(e) && e == f && *final(self) == *old(self),
                None => r matches Ok(h) && texture_created(
                    *old(self),
                    *final(self),
                    TextureMeta { format: descriptor.format, extent: descriptor.extent },
                    h.id(),
                ),
            },
    {
        self.create_texture_generic(descriptor, None)
    }
}

/// What a successful shader creation leaves behind: one more shader of the
/// given stage and source, with everything else as it was.
pub open spec fn shader_created(
    old_d: Device,
    new_d: Device,
    stage: ShaderStage,
    source: ShaderSource,
    id: int,
) -> bool {
    &&& id == old_d.shaders().len()
    &&& new_d.shaders() == old_d.shaders().push(ShaderMeta { stage })
    &&& new_d.shader_source_seq() == old_d.shader_source_seq().push(source)
    &&& new_d.info_unchanged(&old_d)
    &&& new_d.buffers_unchanged(&old_d)
    &&& new_d.textures_unchanged(&old_d)
    &&& new_d.pipelines_unchanged(&old_d)
    &&& new_d.groups_unchanged(&old_d)
    &&& new_d.framebuffers_unchanged(&old_d)
}

proof fn lemma_wf_after_shader_push(old_d: Device, new_d: Device, stage: ShaderStage, source: ShaderSource)
    requires
        old_d.wf(),
        new_d.shaders() == old_d.shaders().push(ShaderMeta { stage }),
        new_d.shader_source_seq() == old_d.shader_source_seq().push(source),
        new_d.info_unchanged(&old_d),
        new_d.buffers_unchanged(&old_d),
        new_d.textures_unchanged(&old_d),
        new_d.pipelines_unchanged(&old_d),
        new_d.groups_unchanged(&old_d),
        new_d.framebuffers_unchanged(&old_d),
    ensures
        new_d.wf(),
{
    assert forall|g: int|
        0 <= g < new_d.groups().len() implies new_d.valid_entries(
        (#[trigger] new_d.groups()[g]).entries@,
    ) by {
        assert(old_d.valid_entries(old_d.groups()[g].entries@));
        let entries = new_d.groups()[g].entries@;
        assert forall|i: int| 0 <= i < entries.len() implies new_d.valid_entry(
            #[trigger] entries[i],
        ) by {
            assert(old_d.valid_entry(entries[i]));
        }
    }
    assert forall|g: int|
        0 <= g < new_d.groups().len() implies group_counts_ok(
        new_d.limits(),
        (#[trigger] new_d.groups()[g]).entries@,
    ) by {
        assert(group_counts_ok(old_d.limits(), old_d.groups()[g].entries@));
    }
    assert forall|p: int|
        0 <= p < new_d.pipelines().len() implies {
        &&& new_d.valid_vertex_shader((#[trigger] new_d.pipelines()[p]).vertex_shader)
        &&& (new_d.pipelines()[p].fragment_shader matches Some(f)
            ==> new_d.valid_fragment_shader(f))
    } by {
        assert(old_d.valid_vertex_shader(old_d.pipelines()[p].vertex_shader));
        assert(old_d.pipelines()[p].fragment_shader matches Some(f)
            ==> old_d.valid_fragment_shader(f));
        let vs = new_d.pipelines()[p].vertex_shader;
        assert(old_d.shaders().push(ShaderMeta { stage })[vs.id()] == old_d.shaders()[vs.id()]);
        match new_d.pipelines()[p].fragment_shader {
            Some(f) => {
                assert(old_d.shaders().push(ShaderMeta { stage })[f.id()]
                    == old_d.shaders()[f.id()]);
            },
            None => {},
        }
    }
}

impl Device {
    /// Tries to create a new vertex shader from the given source; the
    /// native compiler's verdict is handed in by the embedding.
    pub fn create_vertex_shader(&mut self, source: ShaderSource, outcome: CompileOutcome) -> (r:
        Result<VertexShader, ShaderError>)
        requires
            old(self).wf(),
        ensures
            final(self).wf(),
            outcome matches CompileOutcome::Failure { log } ==> r == Err::<
                VertexShader,
                ShaderError,
            >(ShaderError::CompilationFailed { what: log }) && *final(self) == *old(self),
            outcome is Success ==> (r matches Ok(h) && shader_created(
                *old(self),
                *final(self),
                ShaderStage::Vertex,
                source,
                h.id(),
            )),
    {
        match outcome {
            CompileOutcome::Failure { log } => Err(ShaderError::CompilationFailed { what: log }),
            CompileOutcome::Success => {
                let id = self.shader_meta.len();
                self.shader_meta.push(ShaderMeta { stage: ShaderStage::Vertex });
                proof {
                    let src = source;
                    assert(src == source);
                }
                let ghost src = source;
                self.shader_sources.push(source);
                proof {
                    lemma_wf_after_shader_push(*old(self), *self, ShaderStage::Vertex, src);
                }
                Ok(VertexShader::from_index(id))
            },
        }
    }

    /// Tries to create a new fragment shader from the given source; the
    /// native compiler's verdict is handed in by the embedding.
    pub fn create_fragment_shader(&mut self, source: ShaderSource, outcome: CompileOutcome) -> (r:
        Result<FragmentShader, ShaderError>)
        requires
            old(self).wf(),
        ensures
            final(self).wf(),
            outcome matches CompileOutcome::Failure { log } ==> r == Err::<
                FragmentShader,
                ShaderError,
            >(ShaderError::CompilationFailed { what: log }) && *final(self) == *old(self),
            outcome is Success ==> (r matches Ok(h) && shader_created(
                *old(self),
                *final(self),
                ShaderStage::Fragment,
                source,
                h.id(),
            )),
    {
        match outcome {
            CompileOutcome::Failure { log } => Err(ShaderError::CompilationFailed { what: log }),
            CompileOutcome::Success => {
                let id = self.shader_meta.len();
                self.shader_meta.push(ShaderMeta { stage: ShaderStage::Fragment });
                let ghost src = source;
                self.shader_sources.push(source);
                proof {
                    lemma_wf_after_shader_push(*old(self), *self, ShaderStage::Fragment, src);
                }
                Ok(FragmentShader::from_index(id))
            },
        }
    }
}

/// What a successful pipeline creation leaves behind: one more pipeline
/// record carrying the descriptor's state and the linked program's active
/// names, with everything else as it was.
pub open spec fn pipeline_created(old_d: Device, new_d: Device, rec: PipelineRecord, id: int) -> bool {
    &&& id == old_d.pipelines().len()
    &&& new_d.pipelines() == old_d.pipelines().push(rec)
    &&& new_d.info_unchanged(&old_d)
    &&& new_d.buffers_unchanged(&old_d)
    &&& new_d.textures_unchanged(&old_d)
    &&& new_d.shaders_unchanged(&old_d)
    &&& new_d.groups_unchanged(&old_d)
    &&& new_d.framebuffers_unchanged(&old_d)
}

proof fn lemma_wf_after_pipeline_push(old_d: Device, new_d: Device, rec: PipelineRecord)
    requires
        old_d.wf(),
        new_d.pipelines() == old_d.pipelines().push(rec),
        old_d.valid_vertex_shader(rec.vertex_shader),
        rec.fragment_shader matches Some(f) ==> old_d.valid_fragment_shader(f),
        new_d.info_unchanged(&old_d),
        new_d.buffers_unchanged(&old_d),
        new_d.textures_unchanged(&old_d),
        new_d.shaders_unchanged(&old_d),
        new_d.groups_unchanged(&old_d),
        new_d.framebuffers_unchanged(&old_d),
    ensures
        new_d.wf(),
{
    assert forall|g: int|
        0 <= g < new_d.groups().len() implies new_d.valid_entries(
        (#[trigger] new_d.groups()[g]).entries@,
    ) by {
        assert(old_d.valid_entries(old_d.groups()[g].entries@));
        let entries = new_d.groups()[g].entries@;
        assert forall|i: int| 0 <= i < entries.len() implies new_d.valid_entry(
            #[trigger] entries[i],
        ) by {
            assert(old_d.valid_entry(entries[i]));
        }
    }
    assert forall|g: int|
        0 <= g < new_d.groups().len() implies group_counts_ok(
        new_d.limits(),
        (#[trigger] new_d.groups()[g]).entries@,
    ) by {
        assert(group_counts_ok(old_d.limits(), old_d.groups()[g].entries@));
    }
    assert forall|p: int|
        0 <= p < new_d.pipelines().len() implies {
        &&& new_d.valid_vertex_shader((#[trigger] new_d.pipelines()[p]).vertex_shader)
        &&& (new_d.pipelines()[p].fragment_shader matches Some(f)
            ==> new_d.valid_fragment_shader(f))
    } by {
        if p < old_d.pipelines().len() {
            assert(new_d.pipelines()[p] == old_d.pipelines()[p]);
            assert(old_d.valid_vertex_shader(old_d.pipelines()[p].vertex_shader));
            assert(old_d.pipelines()[p].fragment_shader matches Some(f)
                ==> old_d.valid_fragment_shader(f));
        } else {
            assert(new_d.pipelines()[p] == rec);
        }
    }
}

impl Device {
    /// Tries to create a new render pipeline from the given description;
    /// the native linker's verdict, active names included, is handed in by
    /// the embedding.  A non-empty log on success is diagnostics only.
    pub fn create_render_pipeline(
        &mut self,
        descriptor: RenderPipelineDescriptor,
        outcome: LinkOutcome,
    ) -> (r: Result<RenderPipeline, RenderPipelineError>)
        requires
            old(self).wf(),
            old(self).valid_vertex_shader(descriptor.vertex.shader),
            descriptor.fragment matches Some(f) ==> old(self).valid_fragment_shader(f.shader),
        ensures
            final(self).wf(),
            outcome matches LinkOutcome::Failed { log } ==> r == Err::<
                RenderPipeline,
                RenderPipelineError,
            >(RenderPipelineError::ProgramLinkFailed { what: log }) && *final(self) == *old(self),
            outcome matches LinkOutcome::Linked { log, active_uniforms, active_uniform_blocks }
                ==> (r matches Ok(h) && pipeline_created(
                *old(self),
                *final(self),
                PipelineRecord {
                    vertex_shader: descriptor.vertex.shader,
                    fragment_shader: match descriptor.fragment {
                        Some(f) => Some(f.shader),
                        None => None,
                    },
                    vertex_layout: descriptor.vertex.buffer,
                    primitive_state: descriptor.primitive_state,
                    fragment_targets: match descriptor.fragment {
                        Some(f) => Some(f.targets),
                        None => None,
                    },
                    depth_stencil: descriptor.depth_stencil,
                    active_uniforms,
                    active_uniform_blocks,
                },
                h.id(),
            )),
    {
        match outcome {
            LinkOutcome::Failed { log } => Err(
                RenderPipelineError::ProgramLinkFailed { what: log },
            ),
            LinkOutcome::Linked { log: _log, active_uniforms, active_uniform_blocks } => {
                let id = self.pipeline_recs.len();
                let fragment_shader = match &descriptor.fragment {
                    Some(f) => Some(f.shader),
                    None => None,
                };
                let fragment_targets = match &descriptor.fragment {
                    Some(f) => Some(f.targets),
                    None => None,
                };
                let rec = PipelineRecord {
                    vertex_shader: descriptor.vertex.shader,
                    fragment_shader,
                    vertex_layout: descriptor.vertex.buffer,
                    primitive_state: descriptor.primitive_state,
                    fragment_targets,
                    depth_stencil: descriptor.depth_stencil,
                    active_uniforms,
                    active_uniform_blocks,
                };
                let ghost grec = rec;
                self.pipeline_recs.push(rec);
                proof {
                    lemma_wf_after_pipeline_push(*old(self), *self, grec);
                }
                Ok(RenderPipeline::from_index(id))
            },
        }
    }

    /// Get a handle to the default framebuffer, used to render to the
    /// screen and managed wholly by the native API.
    pub fn default_framebuffer(&self, descriptor: &DefaultFramebufferDescriptor) -> (r:
        Framebuffer)
        ensures
            r == (Framebuffer::Default {
                color_load_op: descriptor.color_load_op,
                depth_load_op: descriptor.depth_load_op,
                stencil_load_op: descriptor.stencil_load_op,
            }),
    {
        Framebuffer::Default {
            color_load_op: descriptor.color_load_op,
            depth_load_op: descriptor.depth_load_op,
            stencil_load_op: descriptor.stencil_load_op,
        }
    }
}

/// The fault an attachment's extent raises under the given limits, if
/// any.  The sizes are checked only where the context exposes both the
/// width and the height query.
pub open spec fn fb_extent_fault(l: Limits, w: int, h: int) -> Option<FramebufferError> {
    match (l.max_framebuffer_attachment_width, l.max_framebuffer_attachment_height) {
        (Some(mw), Some(mh)) => if w > mw {
            Some(FramebufferError::OversizedWidth { width: w as u32, max: mw })
        } else if h > mh {
            Some(FramebufferError::OversizedHeight { height: h as u32, max: mh })
        } else {
            None
        },
        _ => None,
    }
}

/// The fault binding a texture as an attachment raises, if any: one- and
/// three-dimensional textures cannot attach, and a flat or layered
/// two-dimensional texture must fit the attachment size limits.
pub open spec fn fb_attachment_fault(l: Limits, meta: TextureMeta, index: int) -> Option<
    FramebufferError,
> {
    match meta.extent {
        TextureExtent::D1 { .. } => Some(
            FramebufferError::IncompatibleExtent { index: index as usize },
        ),
        TextureExtent::D3 { .. } => Some(
            FramebufferError::IncompatibleExtent { index: index as usize },
        ),
        TextureExtent::D2 { width, height } => fb_extent_fault(l, width as int, height as int),
        TextureExtent::D2Array { width, height, .. } => fb_extent_fault(
            l,
            width as int,
            height as int,
        ),
    }
}

impl Device {
    /// The first fault among the color attachments from index `i` on:
    /// attachments past the context's count limit are refused, and each
    /// attachment must bind.
    pub open spec fn fb_color_fault(&self, atts: Seq<FramebufferAttachment>, i: int) -> Option<
        FramebufferError,
    >
        decreases atts.len() - i,
    {
        if i < 0 || i >= atts.len() {
            None
        } else if i >= self.limits().max_framebuffer_color_attachments {
            Some(
                FramebufferError::TooManyColorAttachments {
                    count: atts.len() as usize,
                    max: self.limits().max_framebuffer_color_attachments,
                },
            )
        } else {
            match fb_attachment_fault(
                self.limits(),
                self.textures()[atts[i].attachment.id()],
                i,
            ) {
                Some(f) => Some(f),
                None => self.fb_color_fault(atts, i + 1),
            }
        }
    }

    /// The fault creating a framebuffer raises, if any, in the order the
    /// checks run: the color attachments in order, the depth-stencil
    /// attachment's format, its extent, and finally that the framebuffer
    /// has an attachment at all.
    pub open spec fn fb_fault(&self, desc: FramebufferDescriptor) -> Option<FramebufferError> {
        match self.fb_color_fault(desc.color_attachments@, 0) {
            Some(f) => Some(f),
            None => match desc.depth_stencil_attachment {
                Some(att) => {
                    let meta = self.textures()[att.attachment.id()];
                    if meta.format != TextureFormat::Depth24Stencil8 {
                        Some(
                            FramebufferError::IncompatibleDepthStencilFormat {
                                format: meta.format,
                            },
                        )
                    } else {
                        match fb_attachment_fault(
                            self.limits(),
                            meta,
                            desc.color_attachments@.len() as int,
                        ) {
                            Some(f) => Some(f),
                            None => None,
                        }
                    }
                },
                None => if desc.color_attachments@.len() == 0 {
                    Some(FramebufferError::NoAttachments)
                } else {
                    None
                },
            },
        }
    }
}

/// What a successful framebuffer creation leaves behind: one more
/// framebuffer record holding the descriptor's attachments and derived
/// load operations, with everything else as it was.
pub open spec fn framebuffer_created(
    old_d: Device,
    new_d: Device,
    desc: FramebufferDescriptor,
    id: int,
) -> bool {
    &&& id == old_d.framebuffers().len()
    &&& new_d.framebuffers().len() == old_d.framebuffers().len() + 1
    &&& new_d.framebuffers().take(id) == old_d.framebuffers()
    &&& {
        let rec = new_d.framebuffers()[id];
        &&& rec.color_attachments@ == desc.color_attachments@.map_values(
            |a: FramebufferAttachment| a.attachment,
        )
        &&& rec.depth_stencil == (match desc.depth_stencil_attachment {
            Some(a) => Some(a.attachment),
            None => None::<Texture>,
        })
        &&& rec.color_load_op == (if desc.color_attachments@.len() > 0 {
            desc.color_attachments@[0].load_op
        } else {
            LoadOp::<crate::framebuffer::Color>::Load
        })
        &&& rec.depth_load_op == (match desc.depth_stencil_attachment {
            Some(a) => a.depth_load_op,
            None => LoadOp::<u32>::Clear(DEPTH_CLEAR_INFINITY_BITS),
        })
        &&& rec.stencil_load_op == (match desc.depth_stencil_attachment {
            Some(a) => a.stencil_load_op,
            None => LoadOp::<u32>::Clear(STENCIL_CLEAR_DEFAULT),
        })
    }
    &&& new_d.info_unchanged(&old_d)
    &&& new_d.buffers_unchanged(&old_d)
    &&& new_d.textures_unchanged(&old_d)
    &&& new_d.shaders_unchanged(&old_d)
    &&& new_d.pipelines_unchanged(&old_d)
    &&& new_d.groups_unchanged(&old_d)
}

impl Device {
    /// Tries to create a new framebuffer.  A framebuffer created here only
    /// serves off-screen rendering; to render to the screen, use
    /// [`Device::default_framebuffer`] instead.
    pub fn create_framebuffer(&mut self, descriptor: FramebufferDescriptor) -> (r: Result<
        Framebuffer,
        FramebufferError,
    >)
        requires
            old(self).wf(),
            forall|i: int|
                0 <= i < descriptor.color_attachments@.len() ==> old(self).valid_texture(
                    (#[trigger] descriptor.color_attachments@[i]).attachment,
                ),
            descriptor.depth_stencil_attachment matches Some(a) ==> old(self).valid_texture(
                a.attachment,
            ),
        ensures
            final(self).wf(),
            match old(self).fb_fault(descriptor) {
                Some(f) => r matches Err(e) && e == f && *final(self) == *old(self),
                None => r matches Ok(fb) && fb matches Framebuffer::Custom { idx }
                    && framebuffer_created(*old(self), *final(self), descriptor, idx as int),
            },
    {
        let natts = descriptor.color_attachments.len();
        let mut attachments: Vec<Texture> = Vec::new();
        let mut i: usize = 0;
        while i < natts
            invariant
                0 <= i <= natts,
                natts == descriptor.color_attachments@.len(),
                *self == *old(self),
                self.wf(),
                forall|k: int|
                    0 <= k < natts ==> self.valid_texture(
                        (#[trigger] descriptor.color_attachments@[k]).attachment,
                    ),
                attachments@ == descriptor.color_attachments@.take(i as int).map_values(
                    |a: FramebufferAttachment| a.attachment,
                ),
                self.fb_color_fault(descriptor.color_attachments@, i as int) == self.fb_color_fault(
                    descriptor.color_attachments@,
                    0,
                ),
                i <= self.limits().max_framebuffer_color_attachments,
            decreases natts - i,
        {
            if i >= self.information.limits.max_framebuffer_color_attachments as usize {
                return Err(
                    FramebufferError::TooManyColorAttachments {
                        count: natts,
                        max: self.information.limits.max_framebuffer_color_attachments,
                    },
                );
            }
            let att = descriptor.color_attachments[i].attachment;
            match self.check_attachment(att, i) {
                Some(e) => {
                    proof {
                        assert(self.fb_color_fault(descriptor.color_attachments@, i as int)
                            == Some(e));
                    }
                    return Err(e);
                },
                None => {},
            }
            attachments.push(att);
            proof {
                assert(attachments@ =~= descriptor.color_attachments@.take(
                    i + 1,
                ).map_values(|a: FramebufferAttachment| a.attachment));
                assert(self.fb_color_fault(descriptor.color_attachments@, i as int)
                    == self.fb_color_fault(descriptor.color_attachments@, i + 1));
            }
            i += 1;
        }
        proof {
            assert(descriptor.color_attachments@.take(natts as int)
                =~= descriptor.color_attachments@);
        }

        let (depth_stencil, depth_load_op, stencil_load_op) = match &descriptor
            .depth_stencil_attachment {
            Some(att) => {
                let meta = self.texture_meta[att.attachment.index()];
                match meta.format {
                    TextureFormat::Depth24Stencil8 => {},
                    _ => {
                        return Err(
                            FramebufferError::IncompatibleDepthStencilFormat {
                                format: meta.format,
                            },
                        );
                    },
                }
                match self.check_attachment(att.attachment, natts) {
                    Some(e) => {
                        return Err(e);
                    },
                    None => {},
                }
                (Some(att.attachment), att.depth_load_op, att.stencil_load_op)
            },
            None => {
                if natts == 0 {
                    return Err(FramebufferError::NoAttachments);
                }
                (
                    None,
                    LoadOp::Clear(DEPTH_CLEAR_INFINITY_BITS),
                    LoadOp::Clear(STENCIL_CLEAR_DEFAULT),
                )
            },
        };

        let color_load_op = if descriptor.color_attachments.len() > 0 {
            descriptor.color_attachments[0].load_op
        } else {
            LoadOp::Load
        };

        let id = self.framebuffer_recs.len();
        self.framebuffer_recs.push(
            FramebufferRecord {
                color_attachments: attachments,
                depth_stencil,
                color_load_op,
                depth_load_op,
                stencil_load_op,
            },
        );
        proof {
            assert(self.framebuffers().take(id as int) =~= old(self).framebuffers());
            let new_d = *self;
            let old_d = *old(self);
            assert forall|g: int|
                0 <= g < new_d.groups().len() implies new_d.valid_entries(
                (#[trigger] new_d.groups()[g]).entries@,
            ) by {
                assert(old_d.valid_entries(old_d.groups()[g].entries@));
                let entries = new_d.groups()[g].entries@;
                assert forall|k: int| 0 <= k < entries.len() implies new_d.valid_entry(
                    #[trigger] entries[k],
                ) by {
                    assert(old_d.valid_entry(entries[k]));
                }
            }
            assert forall|g: int|
                0 <= g < new_d.groups().len() implies group_counts_ok(
                new_d.limits(),
                (#[trigger] new_d.groups()[g]).entries@,
            ) by {
                assert(group_counts_ok(old_d.limits(), old_d.groups()[g].entries@));
            }
            assert forall|f: int|
                0 <= f < new_d.framebuffers().len() implies {
                &&& forall|a: int|
                    0 <= a < (#[trigger] new_d.framebuffers()[f]).color_attachments@.len()
                        ==> new_d.valid_texture(
                        #[trigger] new_d.framebuffers()[f].color_attachments@[a],
                    )
                &&& (new_d.framebuffers()[f].depth_stencil matches Some(t)
                    ==> new_d.valid_texture(t))
            } by {
                if f < old_d.framebuffers().len() {
                    assert(new_d.framebuffers()[f] == old_d.framebuffers()[f]);
                    assert(forall|a: int|
                        0 <= a < (#[trigger] old_d.framebuffers()[f]).color_attachments@.len()
                            ==> old_d.valid_texture(
                            #[trigger] old_d.framebuffers()[f].color_attachments@[a],
                        ));
                    assert(old_d.framebuffers()[f].depth_stencil matches Some(t)
                        ==> old_d.valid_texture(t));
                } else {
                    assert forall|a: int|
                        0 <= a < (#[trigger] new_d.framebuffers()[f]).color_attachments@.len()
                            implies new_d.valid_texture(
                        new_d.framebuffers()[f].color_attachments@[a],
                    ) by {
                        assert(new_d.framebuffers()[f].color_attachments@[a]
                            == descriptor.color_attachments@.map_values(
                            |x: FramebufferAttachment| x.attachment,
                        )[a]);
                    }
                }
            }
        }
        Ok(Framebuffer::Custom { idx: id })
    }

    /// Checks one attachment's shape against the limits, as the fault
    /// specification states it.
    fn check_attachment(&self, att: Texture, index: usize) -> (r: Option<FramebufferError>)
        requires
            self.wf(),
            self.valid_texture(att),
        ensures
            r == fb_attachment_fault(self.limits(), self.textures()[att.id()], index as int),
    {
        let meta = self.texture_meta[att.index()];
        match meta.extent {
            TextureExtent::D1 { .. } => Some(
                FramebufferError::IncompatibleExtent { index },
            ),
            TextureExtent::D3 { .. } => Some(
                FramebufferError::IncompatibleExtent { index },
            ),
            TextureExtent::D2 { width, height } => self.check_extent(width, height),
            TextureExtent::D2Array { width, height, .. } => self.check_extent(width, height),
        }
    }

    /// Checks a flat extent against the attachment size limits, where the
    /// context exposes them.
    fn check_extent(&self, width: u32, height: u32) -> (r: Option<FramebufferError>)
        ensures
            r == fb_extent_fault(self.limits(), width as int, height as int),
    {
        match (
            self.information.limits.max_framebuffer_attachment_width,
            self.information.limits.max_framebuffer_attachment_height,
        ) {
            (Some(mw), Some(mh)) => {
                if width > mw {
                    Some(FramebufferError::OversizedWidth { width, max: mw })
                } else if height > mh {
                    Some(FramebufferError::OversizedHeight { height, max: mh })
                } else {
                    None
                }
            },
            _ => None,
        }
    }
}

/// Soundness only watches the records' shape: changing lock states, or
/// rewriting a buffer's bytes without changing how many there are, keeps
/// the device sound.
proof fn lemma_wf_same_shape(old_d: Device, new_d: Device)
    requires
        old_d.wf(),
        new_d.info_unchanged(&old_d),
        new_d.buffers() == old_d.buffers(),
        new_d.buffer_contents().len() == old_d.buffer_contents().len(),
        forall|i: int|
            0 <= i < old_d.buffer_contents().len() ==> (#[trigger] new_d.buffer_contents()[
                i
            ]).len() == old_d.buffer_contents()[i].len(),
        new_d.buffer_lock_seq().len() == old_d.buffer_lock_seq().len(),
        new_d.textures() == old_d.textures(),
        new_d.texture_lock_seq().len() == old_d.texture_lock_seq().len(),
        new_d.shaders() == old_d.shaders(),
        new_d.shader_source_seq() == old_d.shader_source_seq(),
        new_d.pipelines() == old_d.pipelines(),
        new_d.groups() == old_d.groups(),
        new_d.framebuffers() == old_d.framebuffers(),
    ensures
        new_d.wf(),
{
    assert forall|g: int|
        0 <= g < new_d.groups().len() implies new_d.valid_entries(
        (#[trigger] new_d.groups()[g]).entries@,
    ) by {
        assert(old_d.valid_entries(old_d.groups()[g].entries@));
        let entries = new_d.groups()[g].entries@;
        assert forall|i: int| 0 <= i < entries.len() implies new_d.valid_entry(
            #[trigger] entries[i],
        ) by {
            assert(old_d.valid_entry(entries[i]));
        }
    }
    assert forall|g: int|
        0 <= g < new_d.groups().len() implies group_counts_ok(
        new_d.limits(),
        (#[trigger] new_d.groups()[g]).entries@,
    ) by {
        assert(group_counts_ok(old_d.limits(), old_d.groups()[g].entries@));
    }
    assert forall|p: int|
        0 <= p < new_d.pipelines().len() implies {
        &&& new_d.valid_vertex_shader((#[trigger] new_d.pipelines()[p]).vertex_shader)
        &&& (new_d.pipelines()[p].fragment_shader matches Some(f)
            ==> new_d.valid_fragment_shader(f))
    } by {
        assert(old_d.valid_vertex_shader(old_d.pipelines()[p].vertex_shader));
        assert(old_d.pipelines()[p].fragment_shader matches Some(f)
            ==> old_d.valid_fragment_shader(f));
    }
    assert forall|f: int|
        0 <= f < new_d.framebuffers().len() implies {
        &&& forall|a: int|
            0 <= a < (#[trigger] new_d.framebuffers()[f]).color_attachments@.len()
                ==> new_d.valid_texture(#[trigger] new_d.framebuffers()[f].color_attachments@[a])
        &&& (new_d.framebuffers()[f].depth_stencil matches Some(t) ==> new_d.valid_texture(t))
    } by {
        assert(forall|a: int|
            0 <= a < (#[trigger] old_d.framebuffers()[f]).color_attachments@.len()
                ==> old_d.valid_texture(#[trigger] old_d.framebuffers()[f].color_attachments@[a]));
        assert(old_d.framebuffers()[f].depth_stencil matches Some(t)
            ==> old_d.valid_texture(t));
    }
}

impl Device {
    /// Map the first `length` bytes of a uniform buffer for writing.
    /// Succeeds exactly when the buffer's lock admits the writer: an
    /// outstanding reader — a pass holding the buffer through a bound
    /// group — or an earlier mapping refuses it.  With
    /// [`BufferLoadOp::Load`] the staged bytes start as the buffer's
    /// current contents; with [`BufferLoadOp::DontCare`] they start
    /// zeroed.  On a context without direct buffer mapping the embedding
    /// backs this with a staging copy uploaded on unmap; that changes
    /// cost, not meaning.
    pub fn try_map_mut(&mut self, buffer: &UniformBuffer, length: u32, load: BufferLoadOp) -> (r:
        Result<BufferMapping, AccessError>)
        requires
            old(self).wf(),
            old(self).valid_uniform_buffer(*buffer),
            length <= old(self).buffers()[buffer.id()].size,
        ensures
            final(self).wf(),
            r is Ok <==> old(self).buffer_lock_seq()[buffer.id()].can_write(),
            r matches Err(e) ==> *final(self) == *old(self) && e == (if old(
                self,
            ).buffer_lock_seq()[buffer.id()].writer() {
                AccessError::WriteHeld
            } else {
                AccessError::ReadersHeld
            }),
            r matches Ok(m) ==> {
                &&& final(self).buffer_lock_seq() == old(self).buffer_lock_seq().update(
                    buffer.id(),
                    old(self).buffer_lock_seq()[buffer.id()].spec_acquire_write(),
                )
                &&& final(self).buffers() == old(self).buffers()
                &&& final(self).buffer_contents() == old(self).buffer_contents()
                &&& final(self).info_unchanged(old(self))
                &&& final(self).textures_unchanged(old(self))
                &&& final(self).shaders_unchanged(old(self))
                &&& final(self).pipelines_unchanged(old(self))
                &&& final(self).groups_unchanged(old(self))
                &&& final(self).framebuffers_unchanged(old(self))
                &&& m.spec_buffer() == buffer.id()
                &&& m.spec_len() == length
                &&& m.spec_bytes() == (match load {
                    BufferLoadOp::Load => old(self).buffer_contents()[buffer.id()].take(
                        length as int,
                    ),
                    BufferLoadOp::DontCare => Seq::new(length as nat, |i: int| 0u8),
                })
            },
    {
        let idx = buffer.index();
        let mut l = self.buffer_locks[idx];
        match l.acquire_write() {
            Err(e) => {
                return Err(e);
            },
            Ok(()) => {},
        }
        self.buffer_locks[idx] = l;
        proof {
            assert(self.buffer_lock_seq() =~= old(self).buffer_lock_seq().update(
                buffer.id(),
                old(self).buffer_lock_seq()[buffer.id()].spec_acquire_write(),
            ));
        }
        let bytes: Vec<u8> = match load {
            BufferLoadOp::DontCare => zero_bytes(length),
            BufferLoadOp::Load => {
                proof {
                    assert(self.buffer_contents()[idx as int] == self.buffer_data@[idx as int]@);
                }
                let mut v: Vec<u8> = Vec::new();
                let mut j: usize = 0;
                let n = length as usize;
                while j < n
                    invariant
                        0 <= j <= n,
                        n <= self.buffer_data@[idx as int]@.len(),
                        idx < self.buffer_data@.len(),
                        v@ == self.buffer_data@[idx as int]@.take(j as int),
                    decreases n - j,
                {
                    let b = self.buffer_data[idx][j];
                    v.push(b);
                    proof {
                        assert(v@ =~= self.buffer_data@[idx as int]@.take(j + 1));
                    }
                    j += 1;
                }
                proof {
                    assert(v@ =~= self.buffer_contents()[idx as int].take(length as int));
                }
                v
            },
        };
        proof {
            lemma_wf_same_shape(*old(self), *self);
        }
        Ok(BufferMapping { idx, len: length, bytes })
    }

    /// Write a mapping's bytes back into its buffer and give back the
    /// write hold.  The staged bytes must still be as long as the mapped
    /// region; the bytes past it keep their prior contents.
    pub fn unmap(&mut self, mapping: BufferMapping)
        requires
            old(self).wf(),
            0 <= mapping.spec_buffer() < old(self).buffers().len(),
            old(self).buffers()[mapping.spec_buffer()].kind == BufferKind::Uniform,
            old(self).buffer_lock_seq()[mapping.spec_buffer()].writer(),
            mapping.spec_len() <= old(self).buffers()[mapping.spec_buffer()].size,
            mapping.spec_bytes().len() == mapping.spec_len(),
        ensures
            final(self).wf(),
            final(self).buffer_lock_seq() == old(self).buffer_lock_seq().update(
                mapping.spec_buffer(),
                old(self).buffer_lock_seq()[mapping.spec_buffer()].spec_release_write(),
            ),
            final(self).buffer_contents() == old(self).buffer_contents().update(
                mapping.spec_buffer(),
                mapping.spec_bytes() + old(self).buffer_contents()[mapping.spec_buffer()].skip(
                    mapping.spec_len(),
                ),
            ),
            final(self).buffers() == old(self).buffers(),
            final(self).info_unchanged(old(self)),
            final(self).textures_unchanged(old(self)),
            final(self).shaders_unchanged(old(self)),
            final(self).pipelines_unchanged(old(self)),
            final(self).groups_unchanged(old(self)),
            final(self).framebuffers_unchanged(old(self)),
    {
        let BufferMapping { idx, len, mut bytes } = mapping;
        let size = self.buffer_meta[idx].size as usize;
        proof {
            assert(self.buffer_contents()[idx as int] == self.buffer_data@[idx as int]@);
            assert(bytes@ =~= mapping.spec_bytes() + self.buffer_data@[idx as int]@.subrange(
                len as int,
                len as int,
            ));
        }
        let mut j: usize = len as usize;
        while j < size
            invariant
                len as usize <= j <= size,
                idx < self.buffer_data@.len(),
                size == self.buffer_data@[idx as int]@.len(),
                *self == *old(self),
                bytes@ == mapping.spec_bytes() + self.buffer_data@[idx as int]@.subrange(
                    len as int,
                    j as int,
                ),
            decreases size - j,
        {
            let b = self.buffer_data[idx][j];
            bytes.push(b);
            proof {
                assert(bytes@ =~= mapping.spec_bytes() + self.buffer_data@[idx as int]@.subrange(
                    len as int,
                    j + 1,
                ));
            }
            j += 1;
        }
        self.buffer_data[idx] = bytes;
        let mut l = self.buffer_locks[idx];
        let released = l.release_write();
        proof {
            assert(released is Ok);
        }
        self.buffer_locks[idx] = l;
        proof {
            assert(self.buffer_lock_seq() =~= old(self).buffer_lock_seq().update(
                mapping.spec_buffer(),
                old(self).buffer_lock_seq()[mapping.spec_buffer()].spec_release_write(),
            ));
            assert(self.buffer_contents() =~= old(self).buffer_contents().update(
                mapping.spec_buffer(),
                mapping.spec_bytes() + old(self).buffer_contents()[mapping.spec_buffer()].skip(
                    mapping.spec_len(),
                ),
            ));
            lemma_wf_same_shape(*old(self), *self);
        }
    }
}

impl Device {
    /// The first fault among a group's entries from index `i` on, with
    /// `nbuf` buffer entries and `ntex` texture entries already counted:
    /// an entry's uniform buffer must fit one binding, and after every
    /// entry the running buffer and texture counts are re-checked against
    /// the context's limits — so a group over a limit fails at the first
    /// entry past it, not at the end.
    pub open spec fn group_fault_from(
        &self,
        entries: Seq<UniformGroupEntry>,
        i: int,
        nbuf: int,
        ntex: int,
    ) -> Option<UniformGroupError>
        decreases entries.len() - i,
    {
        if i < 0 || i >= entries.len() {
            None
        } else {
            match entries[i].kind {
                UniformBind::Buffer { buffer } => {
                    let len = self.buffers()[buffer.id()].size;
                    if len > self.limits().max_uniform_block_size {
                        Some(
                            UniformGroupError::OversizedUniformBuffer {
                                index: i as usize,
                                len,
                                max: self.limits().max_uniform_block_size,
                            },
                        )
                    } else if nbuf + 1 > self.limits().max_uniform_block_bindings {
                        Some(
                            UniformGroupError::TooManyBufferBindings {
                                index: i as usize,
                                max: self.limits().max_uniform_block_bindings,
                            },
                        )
                    } else if ntex > self.limits().max_textures {
                        Some(
                            UniformGroupError::TooManyTextureBindings {
                                index: i as usize,
                                max: self.limits().max_textures,
                            },
                        )
                    } else {
                        self.group_fault_from(entries, i + 1, nbuf + 1, ntex)
                    }
                },
                UniformBind::Texture { .. } => {
                    if nbuf > self.limits().max_uniform_block_bindings {
                        Some(
                            UniformGroupError::TooManyBufferBindings {
                                index: i as usize,
                                max: self.limits().max_uniform_block_bindings,
                            },
                        )
                    } else if ntex + 1 > self.limits().max_textures {
                        Some(
                            UniformGroupError::TooManyTextureBindings {
                                index: i as usize,
                                max: self.limits().max_textures,
                            },
                        )
                    } else {
                        self.group_fault_from(entries, i + 1, nbuf, ntex + 1)
                    }
                },
            }
        }
    }

    /// The fault creating a uniform group raises, if any.
    pub open spec fn group_fault(&self, entries: Seq<UniformGroupEntry>) -> Option<
        UniformGroupError,
    > {
        self.group_fault_from(entries, 0, 0, 0)
    }
}

/// A group that validates keeps its entry counts within the limits the
/// checks compare against.
proof fn lemma_group_fault_none_counts(
    d: Device,
    entries: Seq<UniformGroupEntry>,
    i: int,
    nbuf: int,
    ntex: int,
)
    requires
        0 <= i <= entries.len(),
        d.group_fault_from(entries, i, nbuf, ntex) is None,
    ensures
        nbuf + count_buf_from(entries, i) <= d.limits().max_uniform_block_bindings
            || count_buf_from(entries, i) == 0,
        ntex + count_tex_from(entries, i) <= d.limits().max_textures || count_tex_from(entries, i)
            == 0,
    decreases entries.len() - i,
{
    if i < entries.len() {
        match entries[i].kind {
            UniformBind::Buffer { .. } => {
                lemma_group_fault_none_counts(d, entries, i + 1, nbuf + 1, ntex);
            },
            UniformBind::Texture { .. } => {
                lemma_group_fault_none_counts(d, entries, i + 1, nbuf, ntex + 1);
            },
        }
    }
}

/// What a successful group creation leaves behind: one more group record
/// holding the descriptor's entries by shared reference, with everything
/// else as it was.
pub open spec fn group_created(
    old_d: Device,
    new_d: Device,
    entries: Seq<UniformGroupEntry>,
    id: int,
) -> bool {
    &&& id == old_d.groups().len()
    &&& new_d.groups().len() == old_d.groups().len() + 1
    &&& new_d.groups().take(id) == old_d.groups()
    &&& new_d.groups()[id].entries@ == entries
    &&& new_d.info_unchanged(&old_d)
    &&& new_d.buffers_unchanged(&old_d)
    &&& new_d.textures_unchanged(&old_d)
    &&& new_d.shaders_unchanged(&old_d)
    &&& new_d.pipelines_unchanged(&old_d)
    &&& new_d.framebuffers_unchanged(&old_d)
}

impl Device {
    /// Creates a new uniform bind group from the given description.  The
    /// resources are captured by handle, not copied; which numeric slot
    /// each entry lands in is decided at draw time, not here.
    pub fn create_uniform_bind_group(&mut self, descriptor: UniformGroupDescriptor) -> (r: Result<
        UniformGroup,
        UniformGroupError,
    >)
        requires
            old(self).wf(),
            old(self).valid_entries(descriptor.entries@),
        ensures
            final(self).wf(),
            match old(self).group_fault(descriptor.entries@) {
                Some(f) => r matches Err(e) && e == f && *final(self) == *old(self),
                None => r matches Ok(g) && group_created(
                    *old(self),
                    *final(self),
                    descriptor.entries@,
                    g.id(),
                ),
            },
    {
        let n = descriptor.entries.len();
        let mut nbuf: u64 = 0;
        let mut ntex: u64 = 0;
        let mut i: usize = 0;
        while i < n
            invariant
                0 <= i <= n,
                n == descriptor.entries@.len(),
                *self == *old(self),
                self.wf(),
                self.valid_entries(descriptor.entries@),
                nbuf + ntex == i,
                self.group_fault_from(descriptor.entries@, i as int, nbuf as int, ntex as int)
                    == self.group_fault(descriptor.entries@),
            decreases n - i,
        {
            let entry_kind = descriptor.entries[i].kind;
            match entry_kind {
                UniformBind::Buffer { buffer } => {
                    let len = self.buffer_meta[buffer.index()].size;
                    if len > self.information.limits.max_uniform_block_size {
                        return Err(
                            UniformGroupError::OversizedUniformBuffer {
                                index: i,
                                len,
                                max: self.information.limits.max_uniform_block_size,
                            },
                        );
                    }
                    nbuf = nbuf + 1;
                    if nbuf > self.information.limits.max_uniform_block_bindings as u64 {
                        return Err(
                            UniformGroupError::TooManyBufferBindings {
                                index: i,
                                max: self.information.limits.max_uniform_block_bindings,
                            },
                        );
                    }
                    if ntex > self.information.limits.max_textures as u64 {
                        return Err(
                            UniformGroupError::TooManyTextureBindings {
                                index: i,
                                max: self.information.limits.max_textures,
                            },
                        );
                    }
                },
                UniformBind::Texture { .. } => {
                    ntex = ntex + 1;
                    if nbuf > self.information.limits.max_uniform_block_bindings as u64 {
                        return Err(
                            UniformGroupError::TooManyBufferBindings {
                                index: i,
                                max: self.information.limits.max_uniform_block_bindings,
                            },
                        );
                    }
                    if ntex > self.information.limits.max_textures as u64 {
                        return Err(
                            UniformGroupError::TooManyTextureBindings {
                                index: i,
                                max: self.information.limits.max_textures,
                            },
                        );
                    }
                },
            }
            i += 1;
        }
        let id = self.group_recs.len();
        let ghost entries = descriptor.entries@;
        self.group_recs.push(GroupRecord { entries: descriptor.entries });
        proof {
            assert(self.groups().take(id as int) =~= old(self).groups());
            let new_d = *self;
            let old_d = *old(self);
            lemma_group_fault_none_counts(old_d, entries, 0, 0, 0);
            assert forall|g: int|
                0 <= g < new_d.groups().len() implies group_counts_ok(
                new_d.limits(),
                (#[trigger] new_d.groups()[g]).entries@,
            ) by {
                if g < old_d.groups().len() {
                    assert(group_counts_ok(old_d.limits(), old_d.groups()[g].entries@));
                } else {
                    assert(new_d.groups()[g].entries@ == entries);
                }
            }
            assert forall|g: int|
                0 <= g < new_d.groups().len() implies new_d.valid_entries(
                (#[trigger] new_d.groups()[g]).entries@,
            ) by {
                if g < old_d.groups().len() {
                    assert(old_d.valid_entries(old_d.groups()[g].entries@));
                    let es = new_d.groups()[g].entries@;
                    assert forall|k: int| 0 <= k < es.len() implies new_d.valid_entry(
                        #[trigger] es[k],
                    ) by {
                        assert(old_d.valid_entry(es[k]));
                    }
                } else {
                    assert(new_d.groups()[g].entries@ == entries);
                    assert(old_d.valid_entries(entries));
                    let es = new_d.groups()[g].entries@;
                    assert forall|k: int| 0 <= k < es.len() implies new_d.valid_entry(
                        #[trigger] es[k],
                    ) by {
                        assert(old_d.valid_entry(es[k]));
                    }
                }
            }
        }
        Ok(UniformGroup::from_index(id))
    }
}

/// One step of the read fan-out: the entry's resource gains a read hold,
/// or the step refuses because its lock does.
pub open spec fn spec_acq_entry(
    bl: Seq<AccessLock>,
    tl: Seq<AccessLock>,
    e: UniformGroupEntry,
) -> Option<(Seq<AccessLock>, Seq<AccessLock>)> {
    match e.kind {
        UniformBind::Buffer { buffer } => {
            let l = bl[buffer.id()];
            if l.can_read() {
                Some((bl.update(buffer.id(), l.spec_acquire_read()), tl))
            } else {
                None
            }
        },
        UniformBind::Texture { texture, .. } => {
            let l = tl[texture.id()];
            if l.can_read() {
                Some((bl, tl.update(texture.id(), l.spec_acquire_read())))
            } else {
                None
            }
        },
    }
}

/// The read fan-out over a group's entries, in list order: every member
/// resource gains one read hold per occurrence, or the whole fan-out
/// refuses at the first member whose lock does.
pub open spec fn spec_acq_entries(
    bl: Seq<AccessLock>,
    tl: Seq<AccessLock>,
    entries: Seq<UniformGroupEntry>,
) -> Option<(Seq<AccessLock>, Seq<AccessLock>)>
    decreases entries.len(),
{
    if entries.len() == 0 {
        Some((bl, tl))
    } else {
        match spec_acq_entries(bl, tl, entries.drop_last()) {
            Some(p) => spec_acq_entry(p.0, p.1, entries.last()),
            None => None,
        }
    }
}

/// One step of the read release: the entry's resource gives back a read
/// hold, or the step refuses because none is outstanding.
pub open spec fn spec_rel_entry(
    bl: Seq<AccessLock>,
    tl: Seq<AccessLock>,
    e: UniformGroupEntry,
) -> Option<(Seq<AccessLock>, Seq<AccessLock>)> {
    match e.kind {
        UniformBind::Buffer { buffer } => {
            let l = bl[buffer.id()];
            if l.readers() > 0 {
                Some((bl.update(buffer.id(), l.spec_release_read()), tl))
            } else {
                None
            }
        },
        UniformBind::Texture { texture, .. } => {
            let l = tl[texture.id()];
            if l.readers() > 0 {
                Some((bl, tl.update(texture.id(), l.spec_release_read())))
            } else {
                None
            }
        },
    }
}

/// The read release over a group's entries, walked from the last entry to
/// the first — the exact inverse of the fan-out's order.
pub open spec fn spec_rel_entries(
    bl: Seq<AccessLock>,
    tl: Seq<AccessLock>,
    entries: Seq<UniformGroupEntry>,
) -> Option<(Seq<AccessLock>, Seq<AccessLock>)>
    decreases entries.len(),
{
    if entries.len() == 0 {
        Some((bl, tl))
    } else {
        match spec_rel_entry(bl, tl, entries.last()) {
            Some(p) => spec_rel_entries(p.0, p.1, entries.drop_last()),
            None => None,
        }
    }
}

/// Whether every entry's resource index lies within the given lock
/// tables.
pub open spec fn entries_within(bl_len: int, tl_len: int, entries: Seq<UniformGroupEntry>) -> bool {
    forall|i: int|
        0 <= i < entries.len() ==> match (#[trigger] entries[i]).kind {
            UniformBind::Buffer { buffer } => 0 <= buffer.id() < bl_len,
            UniformBind::Texture { texture, .. } => 0 <= texture.id() < tl_len,
        }
}

/// A successful fan-out changes lock states, never how many locks there
/// are.
pub proof fn lemma_acq_preserves_len(
    bl: Seq<AccessLock>,
    tl: Seq<AccessLock>,
    entries: Seq<UniformGroupEntry>,
)
    requires
        entries_within(bl.len() as int, tl.len() as int, entries),
        spec_acq_entries(bl, tl, entries) is Some,
    ensures
        spec_acq_entries(bl, tl, entries).unwrap().0.len() == bl.len(),
        spec_acq_entries(bl, tl, entries).unwrap().1.len() == tl.len(),
    decreases entries.len(),
{
    if entries.len() > 0 {
        let dl = entries.drop_last();
        assert(entries_within(bl.len() as int, tl.len() as int, dl)) by {
            assert(forall|i: int| 0 <= i < dl.len() ==> dl[i] == entries[i]);
        }
        lemma_acq_preserves_len(bl, tl, dl);
        match spec_acq_entries(bl, tl, dl) {
            Some(mid) => {
                assert(spec_acq_entries(bl, tl, entries) == spec_acq_entry(
                    mid.0,
                    mid.1,
                    entries.last(),
                ));
                match spec_acq_entry(mid.0, mid.1, entries.last()) {
                    Some(done) => {
                        match entries.last().kind {
                            UniformBind::Buffer { buffer } => {
                                assert(entries.last() == entries[entries.len() - 1]);
                                assert(0 <= buffer.id() < mid.0.len());
                                assert(done.0.len() == mid.0.len());
                                assert(done.1.len() == mid.1.len());
                            },
                            UniformBind::Texture { texture, .. } => {
                                assert(entries.last() == entries[entries.len() - 1]);
                                assert(0 <= texture.id() < mid.1.len());
                                assert(done.0.len() == mid.0.len());
                                assert(done.1.len() == mid.1.len());
                            },
                        }
                    },
                    None => {
                        assert(false);
                    },
                }
            },
            None => {
                assert(false);
            },
        }
    }
}

/// Releasing a group's read holds undoes acquiring them exactly: after a
/// fan-out that succeeded, the release over the same entries succeeds and
/// restores every lock to what it was.
pub proof fn lemma_group_release_undoes_acquire(
    bl: Seq<AccessLock>,
    tl: Seq<AccessLock>,
    entries: Seq<UniformGroupEntry>,
)
    requires
        entries_within(bl.len() as int, tl.len() as int, entries),
        spec_acq_entries(bl, tl, entries) is Some,
    ensures
        spec_rel_entries(
            spec_acq_entries(bl, tl, entries).unwrap().0,
            spec_acq_entries(bl, tl, entries).unwrap().1,
            entries,
        ) == Some((bl, tl)),
    decreases entries.len(),
{
    if entries.len() > 0 {
        let dl = entries.drop_last();
        let e = entries.last();
        assert(entries_within(bl.len() as int, tl.len() as int, dl)) by {
            assert(forall|i: int| 0 <= i < dl.len() ==> dl[i] == entries[i]);
        }
        lemma_acq_preserves_len(bl, tl, dl);
        let mid = spec_acq_entries(bl, tl, dl).unwrap();
        assert(e == entries[entries.len() - 1]);
        let done = spec_acq_entry(mid.0, mid.1, e).unwrap();
        match e.kind {
            UniformBind::Buffer { buffer } => {
                let l = mid.0[buffer.id()];
                crate::access::lemma_acquire_read_properties(l);
                assert(done.0[buffer.id()] == l.spec_acquire_read());
                assert(spec_rel_entry(done.0, done.1, e) == Some(
                    (done.0.update(buffer.id(), l), done.1),
                ));
                assert(done.0.update(buffer.id(), l) =~= mid.0);
            },
            UniformBind::Texture { texture, .. } => {
                let l = mid.1[texture.id()];
                crate::access::lemma_acquire_read_properties(l);
                assert(done.1[texture.id()] == l.spec_acquire_read());
                assert(spec_rel_entry(done.0, done.1, e) == Some(
                    (done.0, done.1.update(texture.id(), l)),
                ));
                assert(done.1.update(texture.id(), l) =~= mid.1);
            },
        }
        lemma_group_release_undoes_acquire(bl, tl, dl);
    }
}

impl Device {
    /// Take a read hold on every resource of a group, in entry order.
    /// Succeeds exactly when every member's lock admits a reader; a
    /// member held by a writer — a mapped buffer — refuses the whole
    /// fan-out, which then stops where it failed.  Partial failure is a
    /// prior logic fault, not a condition to recover from.
    pub fn group_acquire_read(&mut self, group: &UniformGroup) -> (r: Result<(), AccessError>)
        requires
            old(self).wf(),
            old(self).valid_group(*group),
        ensures
            final(self).wf(),
            final(self).valid_group(*group),
            r is Ok <==> spec_acq_entries(
                old(self).buffer_lock_seq(),
                old(self).texture_lock_seq(),
                old(self).groups()[group.id()].entries@,
            ) is Some,
            r is Ok ==> {
                &&& final(self).buffer_lock_seq() == spec_acq_entries(
                    old(self).buffer_lock_seq(),
                    old(self).texture_lock_seq(),
                    old(self).groups()[group.id()].entries@,
                ).unwrap().0
                &&& final(self).texture_lock_seq() == spec_acq_entries(
                    old(self).buffer_lock_seq(),
                    old(self).texture_lock_seq(),
                    old(self).groups()[group.id()].entries@,
                ).unwrap().1
            },
            final(self).buffers() == old(self).buffers(),
            final(self).buffer_contents() == old(self).buffer_contents(),
            final(self).buffer_lock_seq().len() == old(self).buffer_lock_seq().len(),
            final(self).textures() == old(self).textures(),
            final(self).texture_lock_seq().len() == old(self).texture_lock_seq().len(),
            final(self).info_unchanged(old(self)),
            final(self).shaders_unchanged(old(self)),
            final(self).pipelines_unchanged(old(self)),
            final(self).groups_unchanged(old(self)),
            final(self).framebuffers_unchanged(old(self)),
    {
        let gidx = group.index();
        let n = self.group_recs[gidx].entries.len();
        let ghost entries = self.group_recs@[gidx as int].entries@;
        let mut i: usize = 0;
        while i < n
            invariant
                0 <= i <= n,
                old(self).wf(),
                self.wf(),
                self.valid_group(*group),
                gidx == group.id(),
                n == entries.len(),
                entries == self.groups()[group.id()].entries@,
                spec_acq_entries(
                    old(self).buffer_lock_seq(),
                    old(self).texture_lock_seq(),
                    entries.take(i as int),
                ) == Some((self.buffer_lock_seq(), self.texture_lock_seq())),
                self.buffers() == old(self).buffers(),
                self.buffer_contents() == old(self).buffer_contents(),
                self.textures() == old(self).textures(),
                self.info_unchanged(old(self)),
                self.shaders_unchanged(old(self)),
                self.pipelines_unchanged(old(self)),
                self.groups_unchanged(old(self)),
                self.framebuffers_unchanged(old(self)),
            decreases n - i,
        {
            let entry_kind = self.group_recs[gidx].entries[i].kind;
            proof {
                assert(entries.take(i + 1).drop_last() =~= entries.take(i as int));
                assert(entries.take(i + 1).last() == entries[i as int]);
                assert(self.valid_entry(entries[i as int]));
            }
            match entry_kind {
                UniformBind::Buffer { buffer } => {
                    let bidx = buffer.index();
                    let mut l = self.buffer_locks[bidx];
                    match l.acquire_read() {
                        Err(e) => {
                            proof {
                                assert(spec_acq_entries(
                                    old(self).buffer_lock_seq(),
                                    old(self).texture_lock_seq(),
                                    entries.take(i + 1),
                                ) is None);
                                lemma_acq_prefix_none(
                                    old(self).buffer_lock_seq(),
                                    old(self).texture_lock_seq(),
                                    entries,
                                    i + 1,
                                );
                            }
                            return Err(e);
                        },
                        Ok(()) => {},
                    }
                    self.buffer_locks[bidx] = l;
                    proof {
                        assert(self.buffer_lock_seq() =~= old_locks_updated_b(
                            *old(self),
                            entries,
                            i as int,
                            buffer.id(),
                        ));
                    }
                },
                UniformBind::Texture { texture, .. } => {
                    let tidx = texture.index();
                    let mut l = self.texture_locks[tidx];
                    match l.acquire_read() {
                        Err(e) => {
                            proof {
                                assert(spec_acq_entries(
                                    old(self).buffer_lock_seq(),
                                    old(self).texture_lock_seq(),
                                    entries.take(i + 1),
                                ) is None);
                                lemma_acq_prefix_none(
                                    old(self).buffer_lock_seq(),
                                    old(self).texture_lock_seq(),
                                    entries,
                                    i + 1,
                                );
                            }
                            return Err(e);
                        },
                        Ok(()) => {},
                    }
                    self.texture_locks[tidx] = l;
                    proof {
                        assert(self.texture_lock_seq() =~= old_locks_updated_t(
                            *old(self),
                            entries,
                            i as int,
                            texture.id(),
                        ));
                    }
                },
            }
            proof {
                lemma_wf_same_shape(*old(self), *self);
            }
            i += 1;
        }
        proof {
            assert(entries.take(n as int) =~= entries);
        }
        Ok(())
    }
}

/// The buffer locks after the fan-out's first `i` steps and one more
/// acquisition at buffer `b`.
spec fn old_locks_updated_b(d: Device, entries: Seq<UniformGroupEntry>, i: int, b: int) -> Seq<
    AccessLock,
> {
    let mid = spec_acq_entries(d.buffer_lock_seq(), d.texture_lock_seq(), entries.take(i)).unwrap();
    mid.0.update(b, mid.0[b].spec_acquire_read())
}

/// The texture locks after the fan-out's first `i` steps and one more
/// acquisition at texture `t`.
spec fn old_locks_updated_t(d: Device, entries: Seq<UniformGroupEntry>, i: int, t: int) -> Seq<
    AccessLock,
> {
    let mid = spec_acq_entries(d.buffer_lock_seq(), d.texture_lock_seq(), entries.take(i)).unwrap();
    mid.1.update(t, mid.1[t].spec_acquire_read())
}

/// A fan-out that refuses on a prefix refuses on the whole list.
proof fn lemma_acq_prefix_none(
    bl: Seq<AccessLock>,
    tl: Seq<AccessLock>,
    entries: Seq<UniformGroupEntry>,
    k: int,
)
    requires
        0 <= k <= entries.len(),
        spec_acq_entries(bl, tl, entries.take(k)) is None,
    ensures
        spec_acq_entries(bl, tl, entries) is None,
    decreases entries.len() - k,
{
    if k < entries.len() {
        assert(entries.take(k + 1).drop_last() =~= entries.take(k));
        lemma_acq_prefix_none(bl, tl, entries, k + 1);
    } else {
        assert(entries.take(k) =~= entries);
    }
}

impl Device {
    /// Give back the read holds a group's fan-out took, walking the
    /// entries in reverse order.  The holds must all be outstanding, as
    /// they are after a successful fan-out.
    pub(crate) fn group_release_read(&mut self, group: &UniformGroup)
        requires
            old(self).wf(),
            old(self).valid_group(*group),
            spec_rel_entries(
                old(self).buffer_lock_seq(),
                old(self).texture_lock_seq(),
                old(self).groups()[group.id()].entries@,
            ) is Some,
        ensures
            final(self).wf(),
            final(self).valid_group(*group),
            final(self).buffer_lock_seq() == spec_rel_entries(
                old(self).buffer_lock_seq(),
                old(self).texture_lock_seq(),
                old(self).groups()[group.id()].entries@,
            ).unwrap().0,
            final(self).texture_lock_seq() == spec_rel_entries(
                old(self).buffer_lock_seq(),
                old(self).texture_lock_seq(),
                old(self).groups()[group.id()].entries@,
            ).unwrap().1,
            final(self).buffers() == old(self).buffers(),
            final(self).buffer_contents() == old(self).buffer_contents(),
            final(self).textures() == old(self).textures(),
            final(self).info_unchanged(old(self)),
            final(self).shaders_unchanged(old(self)),
            final(self).pipelines_unchanged(old(self)),
            final(self).groups_unchanged(old(self)),
            final(self).framebuffers_unchanged(old(self)),
    {
        let gidx = group.index();
        let n = self.group_recs[gidx].entries.len();
        let ghost entries = self.group_recs@[gidx as int].entries@;
        let ghost target = spec_rel_entries(
            old(self).buffer_lock_seq(),
            old(self).texture_lock_seq(),
            entries,
        ).unwrap();
        let mut i: usize = n;
        proof {
            assert(entries.take(n as int) =~= entries);
        }
        while i > 0
            invariant
                0 <= i <= n,
                old(self).wf(),
                self.wf(),
                self.valid_group(*group),
                gidx == group.id(),
                n == entries.len(),
                entries == self.groups()[group.id()].entries@,
                spec_rel_entries(
                    self.buffer_lock_seq(),
                    self.texture_lock_seq(),
                    entries.take(i as int),
                ) == Some(target),
                self.buffers() == old(self).buffers(),
                self.buffer_contents() == old(self).buffer_contents(),
                self.textures() == old(self).textures(),
                self.info_unchanged(old(self)),
                self.shaders_unchanged(old(self)),
                self.pipelines_unchanged(old(self)),
                self.groups_unchanged(old(self)),
                self.framebuffers_unchanged(old(self)),
            decreases i,
        {
            let entry_kind = self.group_recs[gidx].entries[i - 1].kind;
            let ghost pre_bl = self.buffer_lock_seq();
            let ghost pre_tl = self.texture_lock_seq();
            proof {
                assert(entries.take(i as int).drop_last() =~= entries.take(i - 1));
                assert(entries.take(i as int).last() == entries[i - 1]);
                assert(self.valid_entry(entries[i - 1]));
            }
            match entry_kind {
                UniformBind::Buffer { buffer } => {
                    let bidx = buffer.index();
                    let mut l = self.buffer_locks[bidx];
                    let released = l.release_read();
                    proof {
                        assert(released is Ok);
                    }
                    self.buffer_locks[bidx] = l;
                    proof {
                        assert(self.buffer_lock_seq() =~= pre_bl.update(
                            buffer.id(),
                            pre_bl[buffer.id()].spec_release_read(),
                        ));
                    }
                },
                UniformBind::Texture { texture, .. } => {
                    let tidx = texture.index();
                    let mut l = self.texture_locks[tidx];
                    let released = l.release_read();
                    proof {
                        assert(released is Ok);
                    }
                    self.texture_locks[tidx] = l;
                    proof {
                        assert(self.texture_lock_seq() =~= pre_tl.update(
                            texture.id(),
                            pre_tl[texture.id()].spec_release_read(),
                        ));
                    }
                },
            }
            proof {
                lemma_wf_same_shape(*old(self), *self);
            }
            i -= 1;
        }
    }

    /// A write hold on a uniform group always refuses: groups are
    /// read-only aggregates; only their member resources are writable,
    /// each through its own lock.
    pub fn group_acquire_write(&self, group: &UniformGroup) -> (r: Result<(), AccessError>)
        requires
            self.valid_group(*group),
        ensures
            r == Err::<(), AccessError>(AccessError::ReadOnlyAggregate),
    {
        Err(AccessError::ReadOnlyAggregate)
    }

    /// Giving back a write hold on a uniform group always refuses, as no
    /// such hold can be taken.
    pub fn group_release_write(&self, group: &UniformGroup) -> (r: Result<(), AccessError>)
        requires
            self.valid_group(*group),
        ensures
            r == Err::<(), AccessError>(AccessError::ReadOnlyAggregate),
    {
        Err(AccessError::ReadOnlyAggregate)
    }
}

impl Device {
    /// The record of a pipeline, for inspection.
    pub fn pipeline_record(&self, p: &RenderPipeline) -> (r: &PipelineRecord)
        requires
            self.valid_pipeline(*p),
        ensures
            *r == self.pipelines()[p.id()],
    {
        &self.pipeline_recs[p.index()]
    }

    /// The record of a custom framebuffer, for inspection.
    pub fn framebuffer_record(&self, idx: usize) -> (r: &FramebufferRecord)
        requires
            idx < self.framebuffers().len(),
        ensures
            *r == self.framebuffers()[idx as int],
    {
        &self.framebuffer_recs[idx]
    }

    /// The record of a uniform group, for inspection.
    pub fn group_record(&self, g: &UniformGroup) -> (r: &GroupRecord)
        requires
            self.valid_group(*g),
        ensures
            *r == self.groups()[g.id()],
    {
        &self.group_recs[g.index()]
    }

    /// The metadata of an index buffer, for inspection.
    pub fn index_buffer_meta(&self, h: &IndexBuffer) -> (r: BufferMeta)
        requires
            self.valid_index_buffer(*h),
        ensures
            r == self.buffers()[h.id()],
    {
        self.buffer_meta[h.index()]
    }

    /// The metadata of a uniform buffer, for inspection.
    pub fn uniform_buffer_meta(&self, h: &UniformBuffer) -> (r: BufferMeta)
        requires
            self.valid_uniform_buffer(*h),
        ensures
            r == self.buffers()[h.id()],
    {
        self.buffer_meta[h.index()]
    }

    /// The access lock of a uniform buffer, for inspection.
    pub fn uniform_buffer_access(&self, h: &UniformBuffer) -> (r: AccessLock)
        requires
            self.wf(),
            self.valid_uniform_buffer(*h),
        ensures
            r == self.buffer_lock_seq()[h.id()],
    {
        self.buffer_locks[h.index()]
    }

    /// The access lock of a texture, for inspection.
    pub fn texture_access(&self, h: &Texture) -> (r: AccessLock)
        requires
            self.wf(),
            self.valid_texture(*h),
        ensures
            r == self.texture_lock_seq()[h.id()],
    {
        self.texture_locks[h.index()]
    }
}

/// A host-side scratch of `n` zero bytes.
fn zero_bytes(n: u32) -> (r: Vec<u8>)
    ensures
        r@ == Seq::new(n as nat, |i: int| 0u8),
{
    let mut v: Vec<u8> = Vec::new();
    let mut i: u32 = 0;
    while i < n
        invariant
            0 <= i <= n,
            v@ == Seq::new(i as nat, |j: int| 0u8),
        decreases n - i,
    {
        v.push(0u8);
        proof {
            assert(v@ =~= Seq::new((i + 1) as nat, |j: int| 0u8));
        }
        i += 1;
    }
    v
}

} // verus!
