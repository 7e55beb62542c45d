//! Uniform bind groups: an ordered list of named bindings, each a uniform
//! buffer or a filtered texture, resolved against a pipeline's program at
//! draw time.
//!
//! Group creation only validates the entries against the context's limits
//! and records them; which numeric unit or block slot each entry lands in
//! is decided lazily, when a draw call runs, by walking the entries in
//! order and bumping the [`Allocator`]'s counters for the entries the
//! program actually uses.

use vstd::prelude::*;
use crate::buffer::UniformBuffer;
use crate::texture::{Texture, TextureFilter};

verus! {

/// What a uniform group entry binds.
#[derive(Debug, Copy, Clone, PartialEq, Eq, Hash)]
pub enum UniformBind {
    Buffer {
        /// The uniform buffer bound to this entry.
        buffer: UniformBuffer,
    },
    Texture {
        /// The texture bound to this entry.
        texture: Texture,
        /// How the texture is filtered when downscaled.
        far: TextureFilter,
        /// How the texture is filtered when upscaled.
        near: TextureFilter,
    },
}

/// One entry of a uniform group: the binding name the shader program
/// declares, and the resource bound under it.
#[derive(Debug, Clone, PartialEq, Eq)]
pub struct UniformGroupEntry {
    /// Name of the binding in the shader program.
    pub binding: String,
    /// The resource bound under the name.
    pub kind: UniformBind,
}

/// The parameters of a new uniform group.
#[derive(Debug, Clone, PartialEq, Eq)]
pub struct UniformGroupDescriptor {
    /// The entries of the group, in binding order.
    pub entries: Vec<UniformGroupEntry>,
}

/// A refused uniform group creation.  Each variant carries the index of
/// the entry at which the check failed: the counts are re-checked after
/// every entry, so a group over a limit fails at the first entry past it,
/// not at the end.
#[derive(Debug, Copy, Clone, PartialEq, Eq, Hash)]
pub enum UniformGroupError {
    /// A uniform buffer is larger than one binding may carry.
    OversizedUniformBuffer { index: usize, len: u32, max: u32 },
    /// More uniform buffer bindings than the context allows.
    TooManyBufferBindings { index: usize, max: u32 },
    /// More texture bindings than the context allows.
    TooManyTextureBindings { index: usize, max: u32 },
}

/// A handle to a uniform group owned by a device.
#[derive(Debug, Copy, Clone, PartialEq, Eq, Hash)]
pub struct UniformGroup {
    pub(crate) idx: usize,
}

impl UniformGroup {
    /// A handle from a record index; for the device's own use.
    pub(crate) fn from_index(idx: usize) -> (r: Self)
        ensures
            r.id() == idx,
    {
        UniformGroup { idx }
    }

    /// The device-wide identity of this group.
    pub closed spec fn id(&self) -> int {
        self.idx as int
    }


    /// Two handles are the same exactly when they carry the same
    /// identity.
    pub proof fn lemma_handle_identity(a: Self, b: Self)
        ensures
            a == b <==> a.id() == b.id(),
    {
    }

    /// The device-wide identity of this group, for the embedding's own
    /// bookkeeping.
    pub fn index(&self) -> (r: usize)
        ensures
            r == self.id(),
    {
        self.idx
    }
}

/// The record of one uniform group, as the device keeps it.
#[derive(Debug, Clone, PartialEq, Eq)]
pub struct GroupRecord {
    /// The entries of the group, in binding order.
    pub entries: Vec<UniformGroupEntry>,
}

/// Hands out the next free texture unit and uniform-block binding slot
/// while one draw call's bindings resolve.
#[derive(Debug, Copy, Clone, PartialEq, Eq)]
pub struct Allocator {
    /// The next free texture unit.
    texture: u32,
    /// The next free uniform-block binding slot.
    ubo: u32,
}

impl Allocator {
    /// The next free texture unit.
    pub closed spec fn spec_texture(&self) -> int {
        self.texture as int
    }

    /// The next free uniform-block binding slot.
    pub closed spec fn spec_ubo(&self) -> int {
        self.ubo as int
    }

    /// Creates a new, empty allocator.
    pub fn new() -> (r: Self)
        ensures
            r.spec_texture() == 0,
            r.spec_ubo() == 0,
    {
        Allocator { texture: 0, ubo: 0 }
    }

    /// Acquire and mark the location of the next available texture unit.
    pub fn next_texture(&mut self) -> (r: u32)
        requires
            old(self).spec_texture() < u32::MAX,
        ensures
            r == old(self).spec_texture(),
            final(self).spec_texture() == old(self).spec_texture() + 1,
            final(self).spec_ubo() == old(self).spec_ubo(),
    {
        self.texture = self.texture + 1;
        self.texture - 1
    }

    /// Acquire and mark the location of the next available uniform-block
    /// binding slot.
    pub fn next_ubo_binding(&mut self) -> (r: u32)
        requires
            old(self).spec_ubo() < u32::MAX,
        ensures
            r == old(self).spec_ubo(),
            final(self).spec_ubo() == old(self).spec_ubo() + 1,
            final(self).spec_texture() == old(self).spec_texture(),
    {
        self.ubo = self.ubo + 1;
        self.ubo - 1
    }
}

impl Default for Allocator {
    /// An empty allocator.
    fn default() -> (r: Self)
        ensures
            r.spec_texture() == 0,
            r.spec_ubo() == 0,
    {
        Allocator::new()
    }
}

} // verus!
