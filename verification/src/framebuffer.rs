//! Framebuffers: the implicit default target, or a custom off-screen
//! target built from texture attachments.
//!
//! Clear values for color and depth are carried as the bit patterns of the
//! 32-bit floating point numbers the native API clears with; the embedding
//! converts on its side of the seam, and the library never computes with
//! them.

use vstd::prelude::*;
use crate::texture::Texture;
use crate::texture::TextureFormat;

verus! {

/// An RGBA clear color, each channel the bit pattern of a 32-bit floating
/// point value.
#[derive(Debug, Copy, Clone, PartialEq, Eq, Structural, Hash)]
pub struct Color {
    pub red_bits: u32,
    pub green_bits: u32,
    pub blue_bits: u32,
    pub alpha_bits: u32,
}

impl Color {
    /// A color from the bit patterns of its four channels.
    pub fn from_bits(red_bits: u32, green_bits: u32, blue_bits: u32, alpha_bits: u32) -> (r: Color)
        ensures
            r == (Color { red_bits, green_bits, blue_bits, alpha_bits }),
    {
        Color { red_bits, green_bits, blue_bits, alpha_bits }
    }
}

/// What happens to an attachment's prior contents when a pass starts.
#[derive(Debug, Copy, Clone, PartialEq, Eq, Structural, Hash)]
pub enum LoadOp<T> {
    /// The attachment starts as the given value.
    Clear(T),
    /// The attachment keeps its prior contents.
    Load,
}

/// The parameters of the default framebuffer: only what to do with each
/// attachment kind at the start of a pass.
#[derive(Debug, Copy, Clone, PartialEq, Eq, Structural, Hash)]
pub struct DefaultFramebufferDescriptor {
    /// What happens to the color attachment.
    pub color_load_op: LoadOp<Color>,
    /// What happens to the depth attachment; the clear value is the bit
    /// pattern of a 32-bit floating point depth.
    pub depth_load_op: LoadOp<u32>,
    /// What happens to the stencil attachment.
    pub stencil_load_op: LoadOp<u32>,
}

/// One color attachment of a custom framebuffer.
#[derive(Debug, Copy, Clone, PartialEq, Eq, Hash)]
pub struct FramebufferAttachment {
    /// The texture bound as the attachment.
    pub attachment: Texture,
    /// What happens to it when a pass starts.
    pub load_op: LoadOp<Color>,
}

/// The depth-stencil attachment of a custom framebuffer.
#[derive(Debug, Copy, Clone, PartialEq, Eq, Hash)]
pub struct DepthStencilAttachment {
    /// The texture bound as the attachment; its format must be the
    /// combined depth-stencil format.
    pub attachment: Texture,
    /// What happens to the depth channel when a pass starts, the clear
    /// value the bit pattern of a 32-bit floating point depth.
    pub depth_load_op: LoadOp<u32>,
    /// What happens to the stencil channel when a pass starts.
    pub stencil_load_op: LoadOp<u32>,
}

/// The parameters of a new custom framebuffer.
#[derive(Debug, Clone, PartialEq, Eq)]
pub struct FramebufferDescriptor {
    /// The color attachments, in attachment order.
    pub color_attachments: Vec<FramebufferAttachment>,
    /// The depth-stencil attachment, if any.
    pub depth_stencil_attachment: Option<DepthStencilAttachment>,
}

/// A refused framebuffer creation.
#[derive(Debug, Copy, Clone, PartialEq, Eq, Hash)]
pub enum FramebufferError {
    /// More color attachments than the context allows.
    TooManyColorAttachments { count: usize, max: u32 },
    /// A one- or three-dimensional texture cannot be an attachment.
    IncompatibleExtent { index: usize },
    /// An attachment is wider than the context allows.
    OversizedWidth { width: u32, max: u32 },
    /// An attachment is taller than the context allows.
    OversizedHeight { height: u32, max: u32 },
    /// The depth-stencil attachment's format is not a depth-stencil
    /// format.
    IncompatibleDepthStencilFormat { format: TextureFormat },
    /// The framebuffer would have no attachment at all.
    NoAttachments,
}

/// A framebuffer: the implicit default target, or a handle to a custom
/// target owned by a device.
#[derive(Debug, Copy, Clone, PartialEq, Eq, Hash)]
pub enum Framebuffer {
    /// The default target, managed by the native API, carrying only its
    /// load operations.
    Default {
        color_load_op: LoadOp<Color>,
        depth_load_op: LoadOp<u32>,
        stencil_load_op: LoadOp<u32>,
    },
    /// A custom off-screen target owned by a device.
    Custom { idx: usize },
}

/// The record of one custom framebuffer, as the device keeps it.
#[derive(Debug, Clone, PartialEq, Eq)]
pub struct FramebufferRecord {
    /// The color attachments, in attachment order.
    pub color_attachments: Vec<Texture>,
    /// The depth-stencil attachment, if any.
    pub depth_stencil: Option<Texture>,
    /// What happens to the color attachments when a pass starts: the
    /// first color attachment's load operation, or keeping contents where
    /// there is none.
    pub color_load_op: LoadOp<Color>,
    /// What happens to the depth channel when a pass starts; without a
    /// depth-stencil attachment, a clear to the bit pattern of positive
    /// infinity.
    pub depth_load_op: LoadOp<u32>,
    /// What happens to the stencil channel when a pass starts; without a
    /// depth-stencil attachment, a clear to 255.
    pub stencil_load_op: LoadOp<u32>,
}

} // verus!
