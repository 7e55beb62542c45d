//! Buffers: device-visible byte stores for vertex data, index data and
//! uniform data.
//!
//! A buffer's length is fixed at creation and never changes; re-mapping
//! never changes it.  The device owns every buffer record; the handle types
//! here are indices into the device, cheap to copy and share.

use vstd::prelude::*;

verus! {

/// How a buffer will be used, selecting the upload strategy.
#[derive(Debug, Copy, Clone, PartialEq, Eq, Structural, Hash)]
pub enum BufferProfile {
    /// Written once at creation and never remapped.
    StaticUpload,
    /// Remapped and rewritten frequently.
    DynamicUpload,
}

/// What kind of data a buffer holds.
#[derive(Debug, Copy, Clone, PartialEq, Eq, Structural, Hash)]
pub enum BufferKind {
    /// Vertex attribute data.
    Vertex,
    /// Index data.
    Index,
    /// Uniform block data.
    Uniform,
}

/// The parameters of a new buffer.
#[derive(Debug, Copy, Clone, PartialEq, Eq, Structural, Hash)]
pub struct BufferDescriptor {
    /// Length of the buffer, in bytes.
    pub size: u32,
    /// How the buffer will be used.
    pub profile: BufferProfile,
}

/// A refused buffer creation.
#[derive(Debug, Copy, Clone, PartialEq, Eq, Hash)]
pub enum BufferError {
    /// The initialization data is longer than the 32-bit length the native
    /// API indexes buffers with.
    LengthOverflow {
        /// Length of the data handed in.
        actual: usize,
    },
    /// The initialization data and the declared size differ in length.
    /// Nothing is truncated or padded.
    SizeMismatch {
        /// The length the descriptor declares.
        declared: u32,
        /// Length of the data handed in.
        actual: usize,
    },
}

/// Which part of the prior contents a mapping starts from.
#[derive(Debug, Copy, Clone, PartialEq, Eq, Structural, Hash)]
pub enum BufferLoadOp {
    /// The mapped bytes start as the buffer's current contents.
    Load,
    /// The caller will overwrite everything; the mapped bytes start zeroed.
    DontCare,
}

/// A handle to a vertex buffer owned by a device.
#[derive(Debug, Copy, Clone, PartialEq, Eq, Hash)]
pub struct VertexBuffer {
    pub(crate) idx: usize,
}

/// A handle to an index buffer owned by a device.
#[derive(Debug, Copy, Clone, PartialEq, Eq, Hash)]
pub struct IndexBuffer {
    pub(crate) idx: usize,
}

/// A handle to a uniform buffer owned by a device.
#[derive(Debug, Copy, Clone, PartialEq, Eq, Hash)]
pub struct UniformBuffer {
    pub(crate) idx: usize,
}

impl VertexBuffer {
    /// A handle from a record index; for the device's own use.
    pub(crate) fn from_index(idx: usize) -> (r: Self)
        ensures
            r.id() == idx,
    {
        VertexBuffer { idx }
    }

    /// The device-wide identity of this buffer.
    pub closed spec fn id(&self) -> int {
        self.idx as int
    }


    /// Two handles are the same exactly when they carry the same
    /// identity.
    pub proof fn lemma_handle_identity(a: Self, b: Self)
        ensures
            a == b <==> a.id() == b.id(),
    {
    }

    /// The device-wide identity of this buffer, for the embedding's own
    /// bookkeeping.
    pub fn index(&self) -> (r: usize)
        ensures
            r == self.id(),
    {
        self.idx
    }
}

impl IndexBuffer {
    /// Two handles are the same exactly when they carry the same
    /// identity.
    pub proof fn lemma_handle_identity(a: Self, b: Self)
        ensures
            a == b <==> a.id() == b.id(),
    {
    }

    /// A handle from a record index; for the device's own use.
    pub(crate) fn from_index(idx: usize) -> (r: Self)
        ensures
            r.id() == idx,
    {
        IndexBuffer { idx }
    }

    /// The device-wide identity of this buffer.
    pub closed spec fn id(&self) -> int {
        self.idx as int
    }

    /// The device-wide identity of this buffer, for the embedding's own
    /// bookkeeping.
    pub fn index(&self) -> (r: usize)
        ensures
            r == self.id(),
    {
        self.idx
    }
}

impl UniformBuffer {
    /// A handle from a record index; for the device's own use.
    pub(crate) fn from_index(idx: usize) -> (r: Self)
        ensures
            r.id() == idx,
    {
        UniformBuffer { idx }
    }

    /// The device-wide identity of this buffer.
    pub closed spec fn id(&self) -> int {
        self.idx as int
    }

    /// The device-wide identity of this buffer, for the embedding's own
    /// bookkeeping.
    pub fn index(&self) -> (r: usize)
        ensures
            r == self.id(),
    {
        self.idx
    }
}

/// The metadata of one buffer, as the device records it.
#[derive(Debug, Copy, Clone, PartialEq, Eq, Structural, Hash)]
pub struct BufferMeta {
    /// What kind of data the buffer holds.
    pub kind: BufferKind,
    /// How the buffer is used.
    pub profile: BufferProfile,
    /// Length of the buffer, in bytes, fixed at creation.
    pub size: u32,
}

} // verus!
