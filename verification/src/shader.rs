//! Shaders: compiled native shader objects, immutable after a successful
//! compilation.
//!
//! The native compiler runs in the embedding program; the device is handed
//! its verdict as a [`CompileOutcome`] and turns a failure into the
//! recoverable [`ShaderError::CompilationFailed`], whatever the log says.

use vstd::prelude::*;

verus! {

/// Shader source text, tagged with its language.
#[derive(Debug, Clone, PartialEq, Eq)]
pub enum ShaderSource {
    /// A GLSL translation unit.
    Glsl(String),
}

/// The two programmable stages.
#[derive(Debug, Copy, Clone, PartialEq, Eq, Structural, Hash)]
pub enum ShaderStage {
    /// The vertex stage.
    Vertex,
    /// The fragment stage.
    Fragment,
}

/// The native compiler's verdict on one shader, as the embedding reports
/// it.
#[derive(Debug, Clone, PartialEq, Eq)]
pub enum CompileOutcome {
    /// The shader compiled.
    Success,
    /// The shader was refused; the log is the compiler's own text.
    Failure { log: String },
}

/// A refused shader creation.
#[derive(Debug, Clone, PartialEq, Eq)]
pub enum ShaderError {
    /// The native compiler refused the source; `what` is its log,
    /// returned opaque for the caller to decide on.
    CompilationFailed { what: String },
}

/// A handle to a vertex shader owned by a device.
#[derive(Debug, Copy, Clone, PartialEq, Eq, Hash)]
pub struct VertexShader {
    pub(crate) idx: usize,
}

/// A handle to a fragment shader owned by a device.
#[derive(Debug, Copy, Clone, PartialEq, Eq, Hash)]
pub struct FragmentShader {
    pub(crate) idx: usize,
}

impl VertexShader {
    /// A handle from a record index; for the device's own use.
    pub(crate) fn from_index(idx: usize) -> (r: Self)
        ensures
            r.id() == idx,
    {
        VertexShader { idx }
    }

    /// The device-wide identity of this shader.
    pub closed spec fn id(&self) -> int {
        self.idx as int
    }

    /// The device-wide identity of this shader, for the embedding's own
    /// bookkeeping.
    pub fn index(&self) -> (r: usize)
        ensures
            r == self.id(),
    {
        self.idx
    }
}

impl FragmentShader {
    /// A handle from a record index; for the device's own use.
    pub(crate) fn from_index(idx: usize) -> (r: Self)
        ensures
            r.id() == idx,
    {
        FragmentShader { idx }
    }

    /// The device-wide identity of this shader.
    pub closed spec fn id(&self) -> int {
        self.idx as int
    }

    /// The device-wide identity of this shader, for the embedding's own
    /// bookkeeping.
    pub fn index(&self) -> (r: usize)
        ensures
            r == self.id(),
    {
        self.idx
    }
}

/// The metadata of one shader, as the device records it.
#[derive(Debug, Copy, Clone, PartialEq, Eq, Structural, Hash)]
pub struct ShaderMeta {
    /// Which stage the shader serves.
    pub stage: ShaderStage,
}

} // verus!
