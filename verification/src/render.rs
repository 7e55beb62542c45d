//! Render-layer helpers the example scenes build on: a vector of
//! fixed-size items in uniform-buffer storage, and the per-scene bundles
//! of one pipeline with its geometry.
//!
//! The scenes' geometry and shading live in the embedding program — they
//! are made of floating point data — and reach the library as the handles
//! the device handed out for them.

use vstd::prelude::*;
use vstd::arithmetic::div_mod::lemma_fundamental_div_mod;
use vstd::arithmetic::mul::lemma_mul_inequality;
use crate::buffer::{BufferDescriptor, BufferKind, BufferLoadOp};
use crate::buffer::{IndexBuffer, UniformBuffer, VertexBuffer};
use crate::device::{buffer_created, Device};
use crate::info::Limits;
use crate::pipeline::RenderPipeline;

verus! {

/// How many items of the given size a uniform vector may hold at most:
/// what fits one uniform block, and no more than asked for.
pub open spec fn uniform_vec_capacity(l: Limits, item_size: u32, capacity: u32) -> int {
    let q = l.max_uniform_block_size as int / item_size as int;
    if q <= capacity {
        q
    } else {
        capacity as int
    }
}

/// A vector of fixed-size items kept in uniform-buffer storage.  The
/// backing buffer is allocated once, at the largest capacity the context
/// allows; repopulating remaps it.
pub struct UniformVec {
    buffer: UniformBuffer,
    item_size: u32,
    max_items: u32,
    items: u32,
}

impl UniformVec {
    /// The backing uniform buffer.
    pub closed spec fn spec_buffer(&self) -> UniformBuffer {
        self.buffer
    }

    /// The size of one item, in bytes.
    pub closed spec fn spec_item_size(&self) -> u32 {
        self.item_size
    }

    /// The maximum capacity, in items.
    pub closed spec fn spec_max_items(&self) -> u32 {
        self.max_items
    }

    /// The number of populated items.
    pub closed spec fn spec_items(&self) -> u32 {
        self.items
    }

    /// Whether the vector agrees with the device that owns its buffer:
    /// the buffer exists, and is exactly as long as the capacity times
    /// the item size.
    pub open spec fn wf(&self, d: &Device) -> bool {
        &&& d.valid_uniform_buffer(self.spec_buffer())
        &&& self.spec_item_size() >= 1
        &&& self.spec_items() <= self.spec_max_items()
        &&& d.buffers()[self.spec_buffer().id()].size == self.spec_max_items()
            * self.spec_item_size()
    }

    /// Create a vector of up to `capacity` items of `item_size` bytes
    /// each, clamped to what one uniform block may carry, in a
    /// zero-filled buffer remapped on every repopulation.
    pub fn with_capacity(device: &mut Device, item_size: u32, capacity: u32) -> (r: UniformVec)
        requires
            old(device).wf(),
            item_size >= 1,
        ensures
            final(device).wf(),
            r.wf(final(device)),
            r.spec_item_size() == item_size,
            r.spec_max_items() == uniform_vec_capacity(old(device).limits(), item_size, capacity),
            r.spec_items() == 0,
            buffer_created(
                *old(device),
                *final(device),
                BufferKind::Uniform,
                BufferDescriptor {
                    size: (uniform_vec_capacity(old(device).limits(), item_size, capacity)
                        * item_size) as u32,
                    profile: crate::buffer::BufferProfile::DynamicUpload,
                },
                Seq::new(
                    (uniform_vec_capacity(old(device).limits(), item_size, capacity)
                        * item_size) as nat,
                    |i: int| 0u8,
                ),
                r.spec_buffer().id(),
            ),
    {
        let block = device.information().limits.max_uniform_block_size;
        let q = block / item_size;
        let max_items = if q <= capacity {
            q
        } else {
            capacity
        };
        proof {
            let b = block as int;
            let i = item_size as int;
            lemma_fundamental_div_mod(b, i);
            assert(b % i >= 0) by (nonlinear_arith)
                requires
                    i >= 1,
            ;
            assert(i * (b / i) <= b);
            assert((b / i) * i == i * (b / i)) by (nonlinear_arith);
            if max_items != q {
                lemma_mul_inequality(max_items as int, q as int, i);
            }
            assert(max_items * item_size <= block);
        }
        let size = max_items * item_size;
        let buffer = match device.create_uniform_buffer(
            &BufferDescriptor { size, profile: crate::buffer::BufferProfile::DynamicUpload },
        ) {
            Ok(b) => b,
            Err(_) => {
                proof {
                    assert(false);
                }
                UniformBuffer::from_index(0)
            },
        };
        UniformVec { buffer, item_size, max_items, items: 0 }
    }

    /// Create a vector already populated with `items` items, handed in as
    /// `items * item_size` contiguous bytes.
    pub fn with_items(device: &mut Device, item_size: u32, items: u32, data: &[u8]) -> (r:
        UniformVec)
        requires
            old(device).wf(),
            item_size >= 1,
            data@.len() >= uniform_vec_capacity(old(device).limits(), item_size, items)
                * item_size,
        ensures
            final(device).wf(),
            r.wf(final(device)),
            r.spec_item_size() == item_size,
            r.spec_max_items() == uniform_vec_capacity(old(device).limits(), item_size, items),
            r.spec_items() == r.spec_max_items(),
    {
        let mut this = UniformVec::with_capacity(device, item_size, items);
        proof {
            crate::access::lemma_free_lock();
        }
        this.resize_with(device, items, data);
        this
    }

    /// Repopulate the vector with `items` items, handed in as contiguous
    /// bytes.  A count past the capacity is clamped to it; the bytes past
    /// the populated items keep their prior contents.  The backing buffer
    /// must admit the writer — it must not be read-held by an open pass
    /// nor already mapped.
    pub fn resize_with(&mut self, device: &mut Device, items: u32, data: &[u8])
        requires
            old(device).wf(),
            old(self).wf(old(device)),
            old(device).buffer_lock_seq()[old(self).spec_buffer().id()].can_write(),
            data@.len() >= (if items <= old(self).spec_max_items() {
                items
            } else {
                old(self).spec_max_items()
            }) * old(self).spec_item_size(),
        ensures
            final(device).wf(),
            final(self).wf(final(device)),
            final(self).spec_buffer() == old(self).spec_buffer(),
            final(self).spec_item_size() == old(self).spec_item_size(),
            final(self).spec_max_items() == old(self).spec_max_items(),
            final(self).spec_items() == (if items <= old(self).spec_max_items() {
                items
            } else {
                old(self).spec_max_items()
            }),
            final(device).buffer_lock_seq() == old(device).buffer_lock_seq(),
            final(device).buffer_contents() == old(device).buffer_contents().update(
                old(self).spec_buffer().id(),
                data@.take(final(self).spec_items() * old(self).spec_item_size())
                    + old(device).buffer_contents()[old(self).spec_buffer().id()].skip(
                    final(self).spec_items() * old(self).spec_item_size(),
                ),
            ),
            final(device).buffers() == old(device).buffers(),
            final(device).textures_unchanged(old(device)),
            final(device).info_unchanged(old(device)),
            final(device).shaders_unchanged(old(device)),
            final(device).pipelines_unchanged(old(device)),
            final(device).groups_unchanged(old(device)),
            final(device).framebuffers_unchanged(old(device)),
    {
        let n = if items <= self.max_items {
            items
        } else {
            self.max_items
        };
        proof {
            lemma_mul_inequality(n as int, self.max_items as int, self.item_size as int);
        }
        let size = n * self.item_size;
        let ghost pre_lock = device.buffer_lock_seq()[self.buffer.id()];
        let mut map = match device.try_map_mut(&self.buffer, size, BufferLoadOp::DontCare) {
            Ok(m) => m,
            Err(_) => {
                proof {
                    assert(false);
                }
                vstd::pervasive::unreached()
            },
        };
        proof {
            crate::access::lemma_write_hold_properties(pre_lock);
        }
        let bytes = map.bytes_mut();
        let count = size as usize;
        let mut j: usize = 0;
        while j < count
            invariant
                0 <= j <= count,
                bytes@.len() == count,
                count <= data@.len(),
                forall|k: int| 0 <= k < j ==> bytes@[k] == data@[k],
            decreases count - j,
        {
            let b = data[j];
            bytes[j] = b;
            j += 1;
        }
        proof {
            assert(map.spec_bytes() =~= data@.take(size as int));
        }
        device.unmap(map);
        self.items = n;
        proof {
            crate::access::lemma_write_hold_properties(pre_lock);
            assert(device.buffer_lock_seq() =~= old(device).buffer_lock_seq());
        }
    }

    /// The size of one item, in bytes.
    pub fn item_size(&self) -> (r: u32)
        ensures
            r == self.spec_item_size(),
    {
        self.item_size
    }

    /// The maximum capacity of this vector, in items.
    pub fn capacity(&self) -> (r: u32)
        ensures
            r == self.spec_max_items(),
    {
        self.max_items
    }

    /// The number of populated items in this vector.
    pub fn len(&self) -> (r: u32)
        ensures
            r == self.spec_items(),
    {
        self.items
    }

    /// The backing uniform buffer, for binding into a group.
    pub fn buffer(&self) -> (r: &UniformBuffer)
        ensures
            *r == self.spec_buffer(),
    {
        &self.buffer
    }
}

/// The waterfall of the diorama: its pipeline and its geometry.
pub struct Waterfall {
    pipeline: RenderPipeline,
    geometry: (VertexBuffer, IndexBuffer),
}

impl Waterfall {
    /// Bundle the pipeline built for the waterfall with its uploaded
    /// geometry.
    pub fn new(pipeline: RenderPipeline, vertices: VertexBuffer, indices: IndexBuffer) -> (r: Self)
        ensures
            r.spec_pipeline() == pipeline,
            r.spec_geometry() == (vertices, indices),
    {
        Waterfall { pipeline, geometry: (vertices, indices) }
    }

    /// The pipeline of this part.
    pub closed spec fn spec_pipeline(&self) -> RenderPipeline {
        self.pipeline
    }

    /// The geometry of this part.
    pub closed spec fn spec_geometry(&self) -> (VertexBuffer, IndexBuffer) {
        self.geometry
    }

    /// The pipeline of this part.
    pub fn pipeline(&self) -> (r: &RenderPipeline)
        ensures
            *r == self.spec_pipeline(),
    {
        &self.pipeline
    }

    /// The geometry of this part: its vertex and index buffers.
    pub fn geometry(&self) -> (r: &(VertexBuffer, IndexBuffer))
        ensures
            *r == self.spec_geometry(),
    {
        &self.geometry
    }
}

/// The back wall of the diorama: its pipeline and its geometry.
pub struct Backwall {
    pipeline: RenderPipeline,
    geometry: (VertexBuffer, IndexBuffer),
}

impl Backwall {
    /// Bundle the pipeline built for the back wall with its uploaded
    /// geometry.
    pub fn new(pipeline: RenderPipeline, vertices: VertexBuffer, indices: IndexBuffer) -> (r: Self)
        ensures
            r.spec_pipeline() == pipeline,
            r.spec_geometry() == (vertices, indices),
    {
        Backwall { pipeline, geometry: (vertices, indices) }
    }

    /// The pipeline of this part.
    pub closed spec fn spec_pipeline(&self) -> RenderPipeline {
        self.pipeline
    }

    /// The geometry of this part.
    pub closed spec fn spec_geometry(&self) -> (VertexBuffer, IndexBuffer) {
        self.geometry
    }

    /// The pipeline of this part.
    pub fn pipeline(&self) -> (r: &RenderPipeline)
        ensures
            *r == self.spec_pipeline(),
    {
        &self.pipeline
    }

    /// The geometry of this part: its vertex and index buffers.
    pub fn geometry(&self) -> (r: &(VertexBuffer, IndexBuffer))
        ensures
            *r == self.spec_geometry(),
    {
        &self.geometry
    }
}

/// The snowfall of the diorama: its pipeline and its geometry.
pub struct Snowfall {
    pipeline: RenderPipeline,
    geometry: (VertexBuffer, IndexBuffer),
}

impl Snowfall {
    /// Bundle the pipeline built for the snowfall with its uploaded
    /// geometry.
    pub fn new(pipeline: RenderPipeline, vertices: VertexBuffer, indices: IndexBuffer) -> (r: Self)
        ensures
            r.spec_pipeline() == pipeline,
            r.spec_geometry() == (vertices, indices),
    {
        Snowfall { pipeline, geometry: (vertices, indices) }
    }

    /// The pipeline of this part.
    pub closed spec fn spec_pipeline(&self) -> RenderPipeline {
        self.pipeline
    }

    /// The geometry of this part.
    pub closed spec fn spec_geometry(&self) -> (VertexBuffer, IndexBuffer) {
        self.geometry
    }

    /// The pipeline of this part.
    pub fn pipeline(&self) -> (r: &RenderPipeline)
        ensures
            *r == self.spec_pipeline(),
    {
        &self.pipeline
    }

    /// The geometry of this part: its vertex and index buffers.
    pub fn geometry(&self) -> (r: &(VertexBuffer, IndexBuffer))
        ensures
            *r == self.spec_geometry(),
    {
        &self.geometry
    }
}

/// The mountains of the diorama: their pipeline and their geometry.
pub struct Mountains {
    pipeline: RenderPipeline,
    geometry: (VertexBuffer, IndexBuffer),
}

impl Mountains {
    /// Bundle the pipeline built for the mountains with their uploaded
    /// geometry.
    pub fn new(pipeline: RenderPipeline, vertices: VertexBuffer, indices: IndexBuffer) -> (r: Self)
        ensures
            r.spec_pipeline() == pipeline,
            r.spec_geometry() == (vertices, indices),
    {
        Mountains { pipeline, geometry: (vertices, indices) }
    }

    /// The pipeline of this part.
    pub closed spec fn spec_pipeline(&self) -> RenderPipeline {
        self.pipeline
    }

    /// The geometry of this part.
    pub closed spec fn spec_geometry(&self) -> (VertexBuffer, IndexBuffer) {
        self.geometry
    }

    /// The pipeline of this part.
    pub fn pipeline(&self) -> (r: &RenderPipeline)
        ensures
            *r == self.spec_pipeline(),
    {
        &self.pipeline
    }

    /// The geometry of this part: its vertex and index buffers.
    pub fn geometry(&self) -> (r: &(VertexBuffer, IndexBuffer))
        ensures
            *r == self.spec_geometry(),
    {
        &self.geometry
    }
}

} // verus!
