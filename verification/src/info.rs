//! Information on a graphics context: its version, its capabilities and its
//! numeric limits, collected once when a device is created and consulted by
//! every later validation.
//!
//! The raw material comes from the embedding program as a [`ContextProbe`]:
//! the context's version string, the two dedicated integer version queries,
//! and the raw result of each limit query, `None` where the context does not
//! know the parameter.

use vstd::prelude::*;
use crate::version::{Profile, Release, Version};
use crate::version::{version_parse_spec, release_cmp_spec};

verus! {

/// The limit parameters a context is asked about.
#[derive(Debug, Copy, Clone, PartialEq, Eq, Structural, Hash)]
pub enum LimitQuery {
    /// Texture units available to one draw command.
    MaxTextures,
    /// Largest axis of a one- or two-dimensional texture.
    MaxTextureSize,
    /// Largest axis of a three-dimensional texture.
    MaxTextureSize3d,
    /// Largest layer count of a two-dimensional array texture.
    MaxTextureLayers,
    /// Uniform block bindings available to one draw command.
    MaxUniformBlockBindings,
    /// Largest size of one bound uniform block.
    MaxUniformBlockSize,
    /// Largest number of color attachments of a framebuffer.
    MaxFramebufferColorAttachments,
    /// Largest width of a framebuffer attachment.
    MaxFramebufferAttachmentWidth,
    /// Largest height of a framebuffer attachment.
    MaxFramebufferAttachmentHeight,
    /// Largest width of the viewport.
    MaxViewportWidth,
    /// Largest height of the viewport.
    MaxViewportHeight,
}

/// The raw result of each limit query, as the context answered it: `None`
/// where the context does not recognise the parameter.
#[derive(Debug, Copy, Clone, PartialEq, Eq)]
pub struct RawLimits {
    pub max_textures: Option<i32>,
    pub max_texture_size: Option<i32>,
    pub max_texture_size_3d: Option<i32>,
    pub max_texture_layers: Option<i32>,
    pub max_uniform_block_bindings: Option<i32>,
    pub max_uniform_block_size: Option<i32>,
    pub max_framebuffer_color_attachments: Option<i32>,
    pub max_framebuffer_attachment_width: Option<i32>,
    pub max_framebuffer_attachment_height: Option<i32>,
    pub max_viewport_width: Option<i32>,
    pub max_viewport_height: Option<i32>,
}

/// Everything the embedding program reads off a native context before the
/// device is built: the version string, the dedicated integer version
/// queries (`None` where unsupported), and the raw limit queries.
#[derive(Debug, Clone, PartialEq, Eq)]
pub struct ContextProbe {
    /// The context's version string.
    pub version: String,
    /// The dedicated major-version query.
    pub dedicated_major: Option<i32>,
    /// The dedicated minor-version query.
    pub dedicated_minor: Option<i32>,
    /// The raw limit queries.
    pub limits: RawLimits,
}

/// Error type used when the context a device is created from is not
/// supported by the library as a whole.
#[derive(Debug, Clone, PartialEq, Eq)]
pub enum UnsupportedContext {
    /// The version string could not be parsed.
    InvalidVersion(String),
    /// The dedicated version queries gave a partial or negative answer.
    InvalidRelease(Option<i32>, Option<i32>),
    /// The version string and the dedicated version queries disagree.
    MismatchedRelease {
        /// The release number given by the version string.
        string: Release,
        /// The release number given by the dedicated queries.
        dedicated: Release,
    },
    /// A limit query returned a value outside its unsigned meaning.
    InvalidParameter {
        /// The value the query returned.
        value: i32,
        /// The parameter asked about.
        parameter: LimitQuery,
    },
    /// The context does not know a required limit parameter.
    UnsupportedParameter {
        /// The parameter asked about.
        parameter: LimitQuery,
    },
    /// The context's release is older than the oldest supported one.
    UnsupportedRelease {
        /// The profile to which the unsupported release belongs.
        profile: Profile,
        /// The exact number of the unsupported release.
        release: Release,
    },
}

/// Capabilities of a given context.
///
/// None of these limit what the user may do with the API; they let the
/// library select a faster code path where the implementation supports it.
#[derive(Debug, Copy, Clone, PartialEq, Eq, Structural, Hash)]
pub struct Capabilities {
    /// Whether the context supports direct mapping of buffers to host
    /// memory.
    pub buffer_mapping: bool,
}

/// Limits on the number and size of elements a given context supports.
#[derive(Debug, Copy, Clone, PartialEq, Eq, Hash)]
pub struct Limits {
    /// Maximum number of texture units available to one draw command, and
    /// so the maximum number of texture attachments of a bind group.
    pub max_textures: u32,
    /// The maximum extent of each axis of a 1D or 2D texture, in pixels.
    pub max_texture_size: u32,
    /// The maximum extent of each axis of a 3D texture, in pixels.
    pub max_texture_size_3d: u32,
    /// The maximum number of layers of a 2D array texture.
    pub max_texture_layers: u32,
    /// Maximum number of uniform blocks available to one draw command, and
    /// so the maximum number of uniform buffers of a bind group.
    pub max_uniform_block_bindings: u32,
    /// The maximum size of a single bound uniform block, in bytes.
    pub max_uniform_block_size: u32,
    /// The maximum number of color attachments of a framebuffer.
    pub max_framebuffer_color_attachments: u32,
    /// The maximum width of a framebuffer attachment, in pixels, where the
    /// context exposes a dedicated query.
    pub max_framebuffer_attachment_width: Option<u32>,
    /// The maximum height of a framebuffer attachment, in pixels, where the
    /// context exposes a dedicated query.
    pub max_framebuffer_attachment_height: Option<u32>,
    /// The maximum width of the viewport, where the context exposes a
    /// dedicated query.
    pub max_viewport_width: Option<u32>,
    /// The maximum height of the viewport, where the context exposes a
    /// dedicated query.
    pub max_viewport_height: Option<u32>,
}

/// The fault a required limit query carries, if any: a missing answer is
/// refused, and so is a negative one.
pub open spec fn required_fault(v: Option<i32>, q: LimitQuery) -> Option<UnsupportedContext> {
    match v {
        None => Some(UnsupportedContext::UnsupportedParameter { parameter: q }),
        Some(x) => if x < 0 {
            Some(UnsupportedContext::InvalidParameter { value: x, parameter: q })
        } else {
            None
        },
    }
}

/// The fault an optional limit query carries, if any: a missing answer is
/// tolerated, a negative one is refused.
pub open spec fn optional_fault(v: Option<i32>, q: LimitQuery) -> Option<UnsupportedContext> {
    match v {
        None => None,
        Some(x) => if x < 0 {
            Some(UnsupportedContext::InvalidParameter { value: x, parameter: q })
        } else {
            None
        },
    }
}

/// The first fault among the limit queries, in query order.
pub open spec fn limits_fault(raw: RawLimits) -> Option<UnsupportedContext> {
    let f1 = required_fault(raw.max_textures, LimitQuery::MaxTextures);
    let f2 = required_fault(raw.max_texture_size, LimitQuery::MaxTextureSize);
    let f3 = required_fault(raw.max_texture_size_3d, LimitQuery::MaxTextureSize3d);
    let f4 = required_fault(raw.max_texture_layers, LimitQuery::MaxTextureLayers);
    let f5 = required_fault(raw.max_uniform_block_bindings, LimitQuery::MaxUniformBlockBindings);
    let f6 = required_fault(raw.max_uniform_block_size, LimitQuery::MaxUniformBlockSize);
    let f7 = required_fault(
        raw.max_framebuffer_color_attachments,
        LimitQuery::MaxFramebufferColorAttachments,
    );
    let f8 = optional_fault(
        raw.max_framebuffer_attachment_width,
        LimitQuery::MaxFramebufferAttachmentWidth,
    );
    let f9 = optional_fault(
        raw.max_framebuffer_attachment_height,
        LimitQuery::MaxFramebufferAttachmentHeight,
    );
    let f10 = optional_fault(raw.max_viewport_width, LimitQuery::MaxViewportWidth);
    let f11 = optional_fault(raw.max_viewport_height, LimitQuery::MaxViewportHeight);
    if f1 is Some {
        f1
    } else if f2 is Some {
        f2
    } else if f3 is Some {
        f3
    } else if f4 is Some {
        f4
    } else if f5 is Some {
        f5
    } else if f6 is Some {
        f6
    } else if f7 is Some {
        f7
    } else if f8 is Some {
        f8
    } else if f9 is Some {
        f9
    } else if f10 is Some {
        f10
    } else {
        f11
    }
}

/// The answer of a required limit query, once known fault-free.
pub open spec fn limit_value(v: Option<i32>) -> u32 {
    match v {
        Some(x) => x as u32,
        None => 0,
    }
}

/// The answer of an optional limit query, once known fault-free.
pub open spec fn opt_limit_value(v: Option<i32>) -> Option<u32> {
    match v {
        Some(x) => Some(x as u32),
        None => None,
    }
}

/// The limits a fault-free set of raw queries denotes.
pub open spec fn limits_value(raw: RawLimits) -> Limits {
    Limits {
        max_textures: limit_value(raw.max_textures),
        max_texture_size: limit_value(raw.max_texture_size),
        max_texture_size_3d: limit_value(raw.max_texture_size_3d),
        max_texture_layers: limit_value(raw.max_texture_layers),
        max_uniform_block_bindings: limit_value(raw.max_uniform_block_bindings),
        max_uniform_block_size: limit_value(raw.max_uniform_block_size),
        max_framebuffer_color_attachments: limit_value(raw.max_framebuffer_color_attachments),
        max_framebuffer_attachment_width: opt_limit_value(raw.max_framebuffer_attachment_width),
        max_framebuffer_attachment_height: opt_limit_value(raw.max_framebuffer_attachment_height),
        max_viewport_width: opt_limit_value(raw.max_viewport_width),
        max_viewport_height: opt_limit_value(raw.max_viewport_height),
    }
}

impl Limits {
    /// Check the raw limit queries and collect them into a limit set.
    pub fn collect(raw: &RawLimits) -> (r: Result<Self, UnsupportedContext>)
        ensures
            match limits_fault(*raw) {
                Some(f) => r matches Err(e) && e == f,
                None => r matches Ok(l) && l == limits_value(*raw),
            },
    {
        let max_textures = match required_limit(raw.max_textures, LimitQuery::MaxTextures) {
            Ok(x) => x,
            Err(e) => return Err(e),
        };
        let max_texture_size = match required_limit(
            raw.max_texture_size,
            LimitQuery::MaxTextureSize,
        ) {
            Ok(x) => x,
            Err(e) => return Err(e),
        };
        let max_texture_size_3d = match required_limit(
            raw.max_texture_size_3d,
            LimitQuery::MaxTextureSize3d,
        ) {
            Ok(x) => x,
            Err(e) => return Err(e),
        };
        let max_texture_layers = match required_limit(
            raw.max_texture_layers,
            LimitQuery::MaxTextureLayers,
        ) {
            Ok(x) => x,
            Err(e) => return Err(e),
        };
        let max_uniform_block_bindings = match required_limit(
            raw.max_uniform_block_bindings,
            LimitQuery::MaxUniformBlockBindings,
        ) {
            Ok(x) => x,
            Err(e) => return Err(e),
        };
        let max_uniform_block_size = match required_limit(
            raw.max_uniform_block_size,
            LimitQuery::MaxUniformBlockSize,
        ) {
            Ok(x) => x,
            Err(e) => return Err(e),
        };
        let max_framebuffer_color_attachments = match required_limit(
            raw.max_framebuffer_color_attachments,
            LimitQuery::MaxFramebufferColorAttachments,
        ) {
            Ok(x) => x,
            Err(e) => return Err(e),
        };
        let max_framebuffer_attachment_width = match optional_limit(
            raw.max_framebuffer_attachment_width,
            LimitQuery::MaxFramebufferAttachmentWidth,
        ) {
            Ok(x) => x,
            Err(e) => return Err(e),
        };
        let max_framebuffer_attachment_height = match optional_limit(
            raw.max_framebuffer_attachment_height,
            LimitQuery::MaxFramebufferAttachmentHeight,
        ) {
            Ok(x) => x,
            Err(e) => return Err(e),
        };
        let max_viewport_width = match optional_limit(
            raw.max_viewport_width,
            LimitQuery::MaxViewportWidth,
        ) {
            Ok(x) => x,
            Err(e) => return Err(e),
        };
        let max_viewport_height = match optional_limit(
            raw.max_viewport_height,
            LimitQuery::MaxViewportHeight,
        ) {
            Ok(x) => x,
            Err(e) => return Err(e),
        };
        Ok(
            Limits {
                max_textures,
                max_texture_size,
                max_texture_size_3d,
                max_texture_layers,
                max_uniform_block_bindings,
                max_uniform_block_size,
                max_framebuffer_color_attachments,
                max_framebuffer_attachment_width,
                max_framebuffer_attachment_height,
                max_viewport_width,
                max_viewport_height,
            },
        )
    }
}

/// Checks one required limit query.
fn required_limit(v: Option<i32>, q: LimitQuery) -> (r: Result<u32, UnsupportedContext>)
    ensures
        match required_fault(v, q) {
            Some(f) => r matches Err(e) && e == f,
            None => r matches Ok(x) && x == limit_value(v),
        },
{
    match v {
        None => Err(UnsupportedContext::UnsupportedParameter { parameter: q }),
        Some(x) => if x < 0 {
            Err(UnsupportedContext::InvalidParameter { value: x, parameter: q })
        } else {
            Ok(x as u32)
        },
    }
}

/// Checks one optional limit query.
fn optional_limit(v: Option<i32>, q: LimitQuery) -> (r: Result<Option<u32>, UnsupportedContext>)
    ensures
        match optional_fault(v, q) {
            Some(f) => r matches Err(e) && e == f,
            None => r matches Ok(x) && x == opt_limit_value(v),
        },
{
    match v {
        None => Ok(None),
        Some(x) => if x < 0 {
            Err(UnsupportedContext::InvalidParameter { value: x, parameter: q })
        } else {
            Ok(Some(x as u32))
        },
    }
}

/// The oldest release of each profile the library supports.
pub open spec fn min_release(p: Profile) -> Release {
    match p {
        Profile::Core => Release { major: 4, minor: 3 },
        Profile::Es => Release { major: 3, minor: 0 },
        Profile::Web => Release { major: 2, minor: 0 },
    }
}

/// Whether a release of a profile is supported: at least the oldest
/// supported release of that profile, boundary included.
pub open spec fn release_supported(p: Profile, r: Release) -> bool {
    let m = min_release(p);
    r.major > m.major || (r.major == m.major && r.minor >= m.minor)
}

/// The fault the dedicated version queries carry, if any: a complete,
/// non-negative answer must equal the release parsed from the string; a
/// wholly missing answer is tolerated; a partial or negative answer is
/// refused.
pub open spec fn dedicated_fault(major: Option<i32>, minor: Option<i32>, rel: Release) -> Option<
    UnsupportedContext,
> {
    match (major, minor) {
        (Some(ma), Some(mi)) => if ma >= 0 && mi >= 0 {
            if ma as u32 == rel.major && mi as u32 == rel.minor {
                None
            } else {
                Some(
                    UnsupportedContext::MismatchedRelease {
                        string: rel,
                        dedicated: Release { major: ma as u32, minor: mi as u32 },
                    },
                )
            }
        } else {
            Some(UnsupportedContext::InvalidRelease(major, minor))
        },
        (None, None) => None,
        _ => Some(UnsupportedContext::InvalidRelease(major, minor)),
    }
}

/// Information on a context.
#[derive(Debug, Clone, PartialEq, Eq)]
pub struct Information {
    /// Version and profile of the current context.
    pub version: Version,
    /// Capabilities of this context.
    pub capabilities: Capabilities,
    /// Limits of this context.
    pub limits: Limits,
}

/// Whether probing succeeds: the version string parses, the dedicated
/// queries agree with it, the release is supported, and the limit queries
/// are fault-free.
pub open spec fn collect_ok(probe: ContextProbe) -> bool {
    match version_parse_spec(probe.version@) {
        Err(_) => false,
        Ok((p, rel, _)) => dedicated_fault(probe.dedicated_major, probe.dedicated_minor, rel)
            is None && release_supported(p, rel) && limits_fault(probe.limits) is None,
    }
}

/// Which fault probing reports, when it fails: the first of an unparsable
/// version string, a dedicated-query fault, an unsupported release, and a
/// limit-query fault.
pub open spec fn collect_fault(probe: ContextProbe, e: UnsupportedContext) -> bool {
    match version_parse_spec(probe.version@) {
        Err(_) => e matches UnsupportedContext::InvalidVersion(s) && s@ == probe.version@,
        Ok((p, rel, _)) => match dedicated_fault(probe.dedicated_major, probe.dedicated_minor, rel) {
            Some(f) => e == f,
            None => if !release_supported(p, rel) {
                e == (UnsupportedContext::UnsupportedRelease { profile: p, release: rel })
            } else {
                limits_fault(probe.limits) matches Some(f) && e == f
            },
        },
    }
}

impl Information {
    /// Collect information from a probe of a context and check whether the
    /// library supports that context.
    pub fn collect(probe: &ContextProbe) -> (r: Result<Self, UnsupportedContext>)
        ensures
            r is Ok <==> collect_ok(*probe),
            r matches Ok(info) ==> {
                &&& version_parse_spec(probe.version@) matches Ok((p, rel, vendor)) && {
                    &&& info.version.profile == p
                    &&& info.version.release == rel
                    &&& info.version.vendor@ == vendor
                }
                &&& info.capabilities.buffer_mapping == (info.version.profile != Profile::Web)
                &&& info.limits == limits_value(probe.limits)
            },
            r matches Err(e) ==> collect_fault(*probe, e),
    {
        let version = match Version::parse(probe.version.as_str()) {
            Ok(v) => v,
            Err(_) => {
                return Err(UnsupportedContext::InvalidVersion(probe.version.clone()));
            },
        };

        match (probe.dedicated_major, probe.dedicated_minor) {
            (Some(ma), Some(mi)) => {
                if ma >= 0 && mi >= 0 {
                    if !(ma as u32 == version.release.major && mi as u32
                        == version.release.minor) {
                        return Err(
                            UnsupportedContext::MismatchedRelease {
                                string: version.release,
                                dedicated: Release { major: ma as u32, minor: mi as u32 },
                            },
                        );
                    }
                } else {
                    return Err(
                        UnsupportedContext::InvalidRelease(
                            probe.dedicated_major,
                            probe.dedicated_minor,
                        ),
                    );
                }
            },
            (None, None) => {},
            _ => {
                return Err(
                    UnsupportedContext::InvalidRelease(
                        probe.dedicated_major,
                        probe.dedicated_minor,
                    ),
                );
            },
        }

        let supported = match version.profile {
            Profile::Core => version.release.major > 4 || (version.release.major == 4
                && version.release.minor >= 3),
            Profile::Es => version.release.major >= 3,
            Profile::Web => version.release.major >= 2,
        };
        if !supported {
            return Err(
                UnsupportedContext::UnsupportedRelease {
                    profile: version.profile,
                    release: version.release,
                },
            );
        }

        let capabilities = Capabilities {
            buffer_mapping: match version.profile {
                Profile::Web => false,
                _ => true,
            },
        };
        let limits = match Limits::collect(&probe.limits) {
            Ok(l) => l,
            Err(e) => {
                return Err(e);
            },
        };

        Ok(Information { version, capabilities, limits })
    }
}

/// The boundary of version gating is inclusive: the oldest supported
/// release of each profile is itself supported, and a release that orders
/// below it is not.
pub proof fn lemma_minimum_release_gating(p: Profile, r: Release)
    ensures
        release_supported(p, min_release(p)),
        release_cmp_spec(r, min_release(p)) == core::cmp::Ordering::Less ==> !release_supported(
            p,
            r,
        ),
        release_supported(p, r) ==> release_cmp_spec(r, min_release(p))
            != core::cmp::Ordering::Less,
{
}

} // verus!
