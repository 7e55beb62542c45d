//! Render pipelines: a linked program, a cached vertex-attribute layout,
//! and the fixed-function state a draw call runs under.
//!
//! Linking happens in the embedding program; the device is handed a
//! [`LinkOutcome`], which on success also carries the linked program's
//! active uniform and uniform-block names — the material the lazy binding
//! resolution at draw time works from.

use vstd::prelude::*;
use crate::shader::{FragmentShader, VertexShader};

verus! {

/// The scalar type of a vertex attribute.
#[derive(Debug, Copy, Clone, PartialEq, Eq, Structural, Hash)]
pub enum VertexType {
    /// A 32-bit floating point component.
    F32,
}

/// How many components a vertex attribute has.
#[derive(Debug, Copy, Clone, PartialEq, Eq, Structural, Hash)]
pub enum VertexComponents {
    One,
    Two,
    Three,
    Four,
}

/// One attribute of a vertex layout.
#[derive(Debug, Clone, PartialEq, Eq)]
pub struct VertexAttribute {
    /// The scalar type of the attribute.
    pub kind: VertexType,
    /// How many components the attribute has.
    pub components: VertexComponents,
    /// Byte offset of the attribute within one vertex.
    pub offset: u32,
    /// Name of the attribute binding in the shader program.
    pub binding: String,
}

/// The layout of one vertex buffer.
#[derive(Debug, Clone, PartialEq, Eq)]
pub struct VertexBufferLayout {
    /// Bytes from one vertex to the next.
    pub array_stride: u32,
    /// The attributes of one vertex.
    pub attributes: Vec<VertexAttribute>,
}

/// How vertices assemble into primitives.
#[derive(Debug, Copy, Clone, PartialEq, Eq, Structural, Hash)]
pub enum PrimitiveTopology {
    PointList,
    LineList,
    LineStrip,
    TriangleList,
    TriangleStrip,
}

/// The width of one index in an index buffer.
#[derive(Debug, Copy, Clone, PartialEq, Eq, Structural, Hash)]
pub enum IndexFormat {
    /// 16-bit indices.
    Uint16,
    /// 32-bit indices.
    Uint32,
}

/// Bytes one index occupies.
pub open spec fn spec_index_size(f: IndexFormat) -> int {
    match f {
        IndexFormat::Uint16 => 2,
        IndexFormat::Uint32 => 4,
    }
}

/// Which winding counts as front-facing.
#[derive(Debug, Copy, Clone, PartialEq, Eq, Structural, Hash)]
pub enum FrontFace {
    /// Counter-clockwise.
    Ccw,
    /// Clockwise.
    Cw,
}

/// Which faces are culled.
#[derive(Debug, Copy, Clone, PartialEq, Eq, Structural, Hash)]
pub enum CullMode {
    /// Nothing is culled.
    Off,
    /// Front faces are culled.
    Front,
    /// Back faces are culled.
    Back,
}

/// How polygons rasterise.
#[derive(Debug, Copy, Clone, PartialEq, Eq, Structural, Hash)]
pub enum PolygonMode {
    Fill,
    Line,
    Point,
}

/// The primitive assembly and rasterisation state of a pipeline.
#[derive(Debug, Copy, Clone, PartialEq, Eq, Structural, Hash)]
pub struct PrimitiveState {
    pub topology: PrimitiveTopology,
    pub index_format: IndexFormat,
    pub front_face: FrontFace,
    pub cull_mode: CullMode,
    pub polygon_mode: PolygonMode,
}

/// A blend factor.
#[derive(Debug, Copy, Clone, PartialEq, Eq, Structural, Hash)]
pub enum BlendFactor {
    Zero,
    One,
    SrcAlpha,
    OneMinusSrcAlpha,
}

/// A blend operation.
#[derive(Debug, Copy, Clone, PartialEq, Eq, Structural, Hash)]
pub enum BlendOperation {
    Add,
    Subtract,
}

/// How a written color combines with the color already in the target.
#[derive(Debug, Copy, Clone, PartialEq, Eq, Structural, Hash)]
pub struct BlendState {
    pub source: BlendFactor,
    pub destination: BlendFactor,
    pub operation: BlendOperation,
}

impl BlendState {
    /// The written color replaces the target's.
    pub fn replace() -> (r: BlendState)
        ensures
            r == (BlendState {
                source: BlendFactor::One,
                destination: BlendFactor::Zero,
                operation: BlendOperation::Add,
            }),
    {
        BlendState {
            source: BlendFactor::One,
            destination: BlendFactor::Zero,
            operation: BlendOperation::Add,
        }
    }
}

/// Which channels of a color target are written, one bit each: red is the
/// lowest bit, then green, blue and alpha.
#[derive(Debug, Copy, Clone, PartialEq, Eq, Structural, Hash)]
pub struct ColorWrite {
    pub bits: u32,
}

impl ColorWrite {
    /// All four channels are written.
    pub fn all() -> (r: ColorWrite)
        ensures
            r == (ColorWrite { bits: 15 }),
    {
        ColorWrite { bits: 15 }
    }
}

/// The color output state of a pipeline's fragment stage.
#[derive(Debug, Copy, Clone, PartialEq, Eq, Structural, Hash)]
pub struct ColorTargetState {
    pub alpha_blend: BlendState,
    pub color_blend: BlendState,
    pub write_mask: ColorWrite,
}

/// A depth or stencil comparison.
#[derive(Debug, Copy, Clone, PartialEq, Eq, Structural, Hash)]
pub enum CompareFunction {
    Never,
    Less,
    Equal,
    LessEqual,
    Greater,
    NotEqual,
    GreaterEqual,
    Always,
}

/// What happens to a stencil value on a test outcome.
#[derive(Debug, Copy, Clone, PartialEq, Eq, Structural, Hash)]
pub enum StencilOperation {
    Keep,
    Zero,
    Replace,
    Invert,
    IncrementClamp,
    DecrementClamp,
    IncrementWrap,
    DecrementWrap,
}

/// The stencil state of a pipeline.
#[derive(Debug, Copy, Clone, PartialEq, Eq, Structural, Hash)]
pub struct StencilState {
    pub write_mask: u32,
    pub read_mask: u32,
    pub compare: CompareFunction,
    pub fail_op: StencilOperation,
    pub depth_fail_op: StencilOperation,
    pub pass_op: StencilOperation,
}

impl StencilState {
    /// The stencil test always passes and never writes.
    pub fn ignore() -> (r: StencilState)
        ensures
            r == (StencilState {
                write_mask: 0,
                read_mask: 0,
                compare: CompareFunction::Always,
                fail_op: StencilOperation::Keep,
                depth_fail_op: StencilOperation::Keep,
                pass_op: StencilOperation::Keep,
            }),
    {
        StencilState {
            write_mask: 0,
            read_mask: 0,
            compare: CompareFunction::Always,
            fail_op: StencilOperation::Keep,
            depth_fail_op: StencilOperation::Keep,
            pass_op: StencilOperation::Keep,
        }
    }
}

/// The depth and stencil state of a pipeline.
#[derive(Debug, Copy, Clone, PartialEq, Eq, Structural, Hash)]
pub struct DepthStencilState {
    pub depth_write_enabled: bool,
    pub depth_compare: CompareFunction,
    pub stencil: StencilState,
}

/// The vertex stage of a pipeline descriptor.
#[derive(Debug, Clone, PartialEq, Eq)]
pub struct VertexState {
    /// The vertex shader, already compiled on this device.
    pub shader: VertexShader,
    /// The layout of the vertex buffer the pipeline reads.
    pub buffer: VertexBufferLayout,
}

/// The fragment stage of a pipeline descriptor.
#[derive(Debug, Copy, Clone, PartialEq, Eq, Hash)]
pub struct FragmentState {
    /// The fragment shader, already compiled on this device.
    pub shader: FragmentShader,
    /// The color output state.
    pub targets: ColorTargetState,
}

/// The parameters of a new render pipeline.  The fragment stage is
/// optional: a pipeline without one serves depth- or stencil-only passes.
#[derive(Debug, Clone, PartialEq, Eq)]
pub struct RenderPipelineDescriptor {
    pub vertex: VertexState,
    pub primitive_state: PrimitiveState,
    pub fragment: Option<FragmentState>,
    pub depth_stencil: Option<DepthStencilState>,
}

/// The native linker's verdict on one program, as the embedding reports
/// it.  A successful link also carries the program's active uniform names
/// and active uniform-block names, which binding resolution consults at
/// draw time.
#[derive(Debug, Clone, PartialEq, Eq)]
pub enum LinkOutcome {
    /// The program linked.  A non-empty log is diagnostics only.
    Linked {
        log: String,
        active_uniforms: Vec<String>,
        active_uniform_blocks: Vec<String>,
    },
    /// The program was refused; the log is the linker's own text.
    Failed { log: String },
}

/// A refused pipeline creation.
#[derive(Debug, Clone, PartialEq, Eq)]
pub enum RenderPipelineError {
    /// The native linker refused the program; `what` is its log, returned
    /// opaque for the caller to decide on.
    ProgramLinkFailed { what: String },
}

/// A handle to a render pipeline owned by a device.
#[derive(Debug, Copy, Clone, PartialEq, Eq, Hash)]
pub struct RenderPipeline {
    pub(crate) idx: usize,
}

impl RenderPipeline {
    /// A handle from a record index; for the device's own use.
    pub(crate) fn from_index(idx: usize) -> (r: Self)
        ensures
            r.id() == idx,
    {
        RenderPipeline { idx }
    }

    /// The device-wide identity of this pipeline.
    pub closed spec fn id(&self) -> int {
        self.idx as int
    }


    /// Two handles are the same exactly when they carry the same
    /// identity.
    pub proof fn lemma_handle_identity(a: Self, b: Self)
        ensures
            a == b <==> a.id() == b.id(),
    {
    }

    /// The device-wide identity of this pipeline, for the embedding's own
    /// bookkeeping.
    pub fn index(&self) -> (r: usize)
        ensures
            r == self.id(),
    {
        self.idx
    }
}

/// The record of one pipeline, as the device keeps it: the descriptor's
/// state plus the linked program's active names.
#[derive(Debug, Clone, PartialEq, Eq)]
pub struct PipelineRecord {
    /// The vertex shader of the program.
    pub vertex_shader: VertexShader,
    /// The fragment shader of the program, if it has one.
    pub fragment_shader: Option<FragmentShader>,
    /// The cached vertex-attribute layout.
    pub vertex_layout: VertexBufferLayout,
    /// The primitive assembly and rasterisation state.
    pub primitive_state: PrimitiveState,
    /// The color output state, if the pipeline has a fragment stage.
    pub fragment_targets: Option<ColorTargetState>,
    /// The depth and stencil state, if any.
    pub depth_stencil: Option<DepthStencilState>,
    /// The program's active uniform names.
    pub active_uniforms: Vec<String>,
    /// The program's active uniform-block names.
    pub active_uniform_blocks: Vec<String>,
}

} // verus!
