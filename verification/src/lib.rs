//! A small GPU abstraction layer over a stateful graphics API.
//!
//! The crate models the state and the rules of the abstraction layer itself:
//! version and capability probing, per-resource access locks, resource
//! creation and validation against context limits, uniform binding
//! resolution, and the render-pass state machine.  Everything the layer
//! decides is decided here, on plain values, under explicit contracts.
//!
//! Talking to the native graphics driver is left to the embedding program:
//! the device consumes a [`info::ContextProbe`] of raw query results instead
//! of querying a live context, and a render pass records the state
//! transitions it wants applied as [`pass::Command`] values which the
//! embedding replays against the driver.
//!
//! Failures come in two classes, and every error type says which it is.
//! Contract violations by the calling code — a buffer whose data does not
//! match its declared size, a bind group over the context's limits, a lock
//! taken twice, a draw call with nothing bound — are faults: the embedding
//! is expected to abort on them, not retry, because the invariants they
//! break cannot be continued past.  Environmental conditions — an
//! unsupported context, a shader the native compiler refuses, an extent
//! past the native API's integer width — are ordinary results for the
//! caller to decide on.  No verified function here panics.

mod access;
mod assets;
mod binding;
mod buffer;
mod device;
mod entity;
mod framebuffer;
mod info;
mod pass;
mod pipeline;
mod render;
mod shader;
mod texture;
mod version;

pub use access::{AccessError, AccessLock};
pub use assets::{example_fragment_source, example_vertex_source, fragment, vertex};
pub use binding::{Allocator, GroupRecord, UniformBind, UniformGroup};
pub use binding::{UniformGroupDescriptor, UniformGroupEntry, UniformGroupError};
pub use buffer::{BufferDescriptor, BufferError, BufferKind, BufferLoadOp, BufferMeta};
pub use buffer::{BufferProfile, IndexBuffer, UniformBuffer, VertexBuffer};
pub use device::{buffer_created, buffer_create_fault, BufferMapping, Device};
pub use device::{DEPTH_CLEAR_INFINITY_BITS, STENCIL_CLEAR_DEFAULT};
pub use entity::{alive_pred, compact_entities, Entity};
pub use framebuffer::{Color, DefaultFramebufferDescriptor, DepthStencilAttachment};
pub use framebuffer::{Framebuffer, FramebufferAttachment, FramebufferDescriptor};
pub use framebuffer::{FramebufferError, FramebufferRecord, LoadOp};
pub use info::{Capabilities, ContextProbe, Information, Limits, LimitQuery, RawLimits};
pub use info::UnsupportedContext;
pub use pass::{clear_ops, contains_name, start_commands, Command, DispatchError, DrawError};
pub use pass::{PipelineVariants, RenderPass, TopologyVariant};
pub use pass::{pass_core_unchanged, pass_slots_unchanged, RenderPassDescriptor, Viewport};
pub use pipeline::{BlendFactor, BlendOperation, BlendState, ColorTargetState, ColorWrite};
pub use pipeline::{CompareFunction, CullMode, DepthStencilState, FragmentState, FrontFace};
pub use pipeline::{IndexFormat, LinkOutcome, PipelineRecord, PolygonMode, PrimitiveState};
pub use pipeline::{PrimitiveTopology, RenderPipeline, RenderPipelineDescriptor};
pub use pipeline::{RenderPipelineError, StencilOperation, StencilState, VertexAttribute};
pub use pipeline::{VertexBufferLayout, VertexComponents, VertexState, VertexType};
pub use render::{uniform_vec_capacity, Backwall, Mountains, Snowfall, UniformVec, Waterfall};
pub use shader::{CompileOutcome, FragmentShader, ShaderError, ShaderMeta, ShaderSource};
pub use shader::{ShaderStage, VertexShader};
pub use texture::{Mipmap, Texture, TextureDescriptor, TextureError, TextureExtent};
pub use texture::{TextureFilter, TextureFormat, TextureMeta};
pub use version::{Profile, Release, Version};
