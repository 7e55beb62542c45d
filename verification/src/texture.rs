//! Textures: device-visible images with a fixed pixel format and extent.
//!
//! Creation validates the requested extent against the context's limits and
//! the initialization data against the texture's byte requirement; the
//! rules live here as specification functions, applied by the device.

use vstd::prelude::*;
use crate::info::Limits;

verus! {

/// The pixel formats a texture can hold.
#[derive(Debug, Copy, Clone, PartialEq, Eq, Structural, Hash)]
pub enum TextureFormat {
    /// Four unsigned normalised 8-bit channels.
    Rgba8Unorm,
    /// Four 32-bit floating point channels.
    Rgba32Float,
    /// A 24-bit depth channel packed with an 8-bit stencil channel.
    Depth24Stencil8,
}

/// The dimensional shape of a texture.
#[derive(Debug, Copy, Clone, PartialEq, Eq, Structural, Hash)]
pub enum TextureExtent {
    /// A one-dimensional texture.
    D1 { length: u32 },
    /// A two-dimensional texture.
    D2 { width: u32, height: u32 },
    /// A stack of two-dimensional layers.
    D2Array { width: u32, height: u32, layers: u32 },
    /// A three-dimensional texture.
    D3 { width: u32, height: u32, depth: u32 },
}

/// Mipmap generation policy.  Only [`Mipmap::Off`] is supported; asking for
/// manual or automatic mipmap levels is a fault.
#[derive(Debug, Copy, Clone, PartialEq, Eq, Structural, Hash)]
pub enum Mipmap {
    /// No mipmaps: the texture has its base level alone.
    Off,
    /// A fixed number of hand-supplied levels.  Unsupported.
    Manual { levels: u32 },
    /// Levels derived from the base level.  Unsupported.
    Automatic,
}

/// How a texture is filtered when sampled.
#[derive(Debug, Copy, Clone, PartialEq, Eq, Structural, Hash)]
pub enum TextureFilter {
    /// Nearest-texel filtering.
    Nearest,
    /// Linear interpolation between texels.
    Linear,
}

/// The parameters of a new texture.
#[derive(Debug, Copy, Clone, PartialEq, Eq, Structural, Hash)]
pub struct TextureDescriptor {
    /// The dimensional shape of the texture.
    pub extent: TextureExtent,
    /// The pixel format of the texture.
    pub format: TextureFormat,
    /// The mipmap policy of the texture.
    pub mip: Mipmap,
}

/// A refused texture creation.
#[derive(Debug, Copy, Clone, PartialEq, Eq, Hash)]
pub enum TextureError {
    /// Mipmap generation was requested; it is not supported.
    UnsupportedMipmaps,
    /// The requested width is over the context's limit.
    OversizedWidth { width: u32, max: u32 },
    /// The requested height is over the context's limit.
    OversizedHeight { height: u32, max: u32 },
    /// The requested depth or layer count is over the context's limit.
    OversizedDepth { depth: u32, max: u32 },
    /// The initialization data is shorter than the texture requires.
    ShortInitialData { provided: usize, required: u128 },
    /// An axis does not fit the signed 32-bit width of the native image
    /// API.
    InvalidBounds { value: u32 },
}

/// A handle to a texture owned by a device.
#[derive(Debug, Copy, Clone, PartialEq, Eq, Hash)]
pub struct Texture {
    pub(crate) idx: usize,
}

impl Texture {
    /// A handle from a record index; for the device's own use.
    pub(crate) fn from_index(idx: usize) -> (r: Self)
        ensures
            r.id() == idx,
    {
        Texture { idx }
    }

    /// The device-wide identity of this texture.
    pub closed spec fn id(&self) -> int {
        self.idx as int
    }

    /// The device-wide identity of this texture, for the embedding's own
    /// bookkeeping.
    pub fn index(&self) -> (r: usize)
        ensures
            r == self.id(),
    {
        self.idx
    }
}

/// The metadata of one texture, as the device records it.
#[derive(Debug, Copy, Clone, PartialEq, Eq, Structural, Hash)]
pub struct TextureMeta {
    /// The pixel format, fixed at creation.
    pub format: TextureFormat,
    /// The dimensional shape, fixed at creation.
    pub extent: TextureExtent,
}

/// Bytes each pixel of a format occupies.
pub open spec fn spec_bytes_per_pixel(f: TextureFormat) -> int {
    match f {
        TextureFormat::Rgba32Float => 16,
        TextureFormat::Rgba8Unorm => 4,
        TextureFormat::Depth24Stencil8 => 4,
    }
}

/// Bytes each pixel of a format occupies.
pub fn bytes_per_pixel(f: TextureFormat) -> (r: u32)
    ensures
        r == spec_bytes_per_pixel(f),
{
    match f {
        TextureFormat::Rgba32Float => 16,
        TextureFormat::Rgba8Unorm => 4,
        TextureFormat::Depth24Stencil8 => 4,
    }
}

/// The three axes an extent spans: width, height, and depth or layers.
pub open spec fn extent_axes(e: TextureExtent) -> (int, int, int) {
    match e {
        TextureExtent::D1 { length } => (length as int, 1, 1),
        TextureExtent::D2 { width, height } => (width as int, height as int, 1),
        TextureExtent::D2Array { width, height, layers } => (
            width as int,
            height as int,
            layers as int,
        ),
        TextureExtent::D3 { width, height, depth } => (
            width as int,
            height as int,
            depth as int,
        ),
    }
}

/// What each axis of an extent may measure at most under the given limits:
/// one- and two-dimensional shapes go by the flat texture size, array
/// layers by the layer limit, and three-dimensional shapes by the
/// three-dimensional size on every axis.
pub open spec fn extent_caps(l: Limits, e: TextureExtent) -> (int, int, int) {
    match e {
        TextureExtent::D1 { .. } => (l.max_texture_size as int, 1, 1),
        TextureExtent::D2 { .. } => (l.max_texture_size as int, l.max_texture_size as int, 1),
        TextureExtent::D2Array { .. } => (
            l.max_texture_size as int,
            l.max_texture_size as int,
            l.max_texture_layers as int,
        ),
        TextureExtent::D3 { .. } => (
            l.max_texture_size_3d as int,
            l.max_texture_size_3d as int,
            l.max_texture_size_3d as int,
        ),
    }
}

/// The least number of bytes initialization data for a texture must hold:
/// the pixel size times every axis.
pub open spec fn required_data_len(d: TextureDescriptor) -> int {
    let (w, h, dep) = extent_axes(d.extent);
    spec_bytes_per_pixel(d.format) * w * h * dep
}

/// The fault creating a texture raises, if any, in the order the checks
/// run: the mipmap policy, each axis against its limit, the initialization
/// data's length where data is supplied, and each axis against the signed
/// 32-bit width of the native image API.  Only the last is a condition the
/// caller is expected to recover from.
pub open spec fn texture_create_fault(l: Limits, d: TextureDescriptor, data: Option<int>) -> Option<
    TextureError,
> {
    let (w, h, dep) = extent_axes(d.extent);
    let (mw, mh, md) = extent_caps(l, d.extent);
    if !(d.mip is Off) {
        Some(TextureError::UnsupportedMipmaps)
    } else if w > mw {
        Some(TextureError::OversizedWidth { width: w as u32, max: mw as u32 })
    } else if h > mh {
        Some(TextureError::OversizedHeight { height: h as u32, max: mh as u32 })
    } else if dep > md {
        Some(TextureError::OversizedDepth { depth: dep as u32, max: md as u32 })
    } else if data matches Some(n) && n < required_data_len(d) {
        Some(
            TextureError::ShortInitialData {
                provided: data.unwrap() as usize,
                required: required_data_len(d) as u128,
            },
        )
    } else if w > i32::MAX {
        Some(TextureError::InvalidBounds { value: w as u32 })
    } else if h > i32::MAX {
        Some(TextureError::InvalidBounds { value: h as u32 })
    } else if dep > i32::MAX {
        Some(TextureError::InvalidBounds { value: dep as u32 })
    } else {
        None
    }
}

} // verus!
