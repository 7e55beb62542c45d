use gavle::{ContextProbe, Information, Limits, LimitQuery, Profile, RawLimits, Release};
use gavle::UnsupportedContext;
use gavle::Version;

fn full_raw_limits() -> RawLimits {
    RawLimits {
        max_textures: Some(16),
        max_texture_size: Some(4096),
        max_texture_size_3d: Some(256),
        max_texture_layers: Some(256),
        max_uniform_block_bindings: Some(24),
        max_uniform_block_size: Some(16384),
        max_framebuffer_color_attachments: Some(8),
        max_framebuffer_attachment_width: Some(8192),
        max_framebuffer_attachment_height: Some(8192),
        max_viewport_width: Some(8192),
        max_viewport_height: Some(8192),
    }
}

#[test]
fn profile() {
    assert_eq!(
        Profile::parse("4.6.0 NVIDIA 457.51"),
        Ok((Profile::Core, "4.6.0 NVIDIA 457.51"))
    );
    assert_eq!(Profile::parse("OpenGL ES 3.0"), Ok((Profile::Es, "3.0")));
    assert_eq!(Profile::parse("WebGL 2.0"), Ok((Profile::Web, "2.0")))
}

#[test]
fn release() {
    assert_eq!(
        Release::parse("4.6.0 NVIDIA 457.51"),
        Ok((Release { major: 4, minor: 6 }, " NVIDIA 457.51"))
    );
    assert_eq!(Release::parse("3.0"), Ok((Release { major: 3, minor: 0 }, "")));
    assert_eq!(Release::parse("2.0"), Ok((Release { major: 2, minor: 0 }, "")));
}

#[test]
fn version() {
    assert_eq!(
        Version::parse("4.6 NVIDIA 457.51"),
        Ok(Version {
            profile: Profile::Core,
            release: Release { major: 4, minor: 6 },
            vendor: "NVIDIA 457.51".to_string()
        })
    );
    assert_eq!(
        Version::parse("OpenGL ES 3.0"),
        Ok(Version {
            profile: Profile::Es,
            release: Release { major: 3, minor: 0 },
            vendor: "".to_string()
        })
    );
    assert_eq!(
        Version::parse("WebGL 2.0"),
        Ok(Version {
            profile: Profile::Web,
            release: Release { major: 2, minor: 0 },
            vendor: "".to_string()
        })
    );
}

#[test]
fn profile_display_text() {
    assert_eq!(Profile::Core.display_name(), "OpenGL");
    assert_eq!(Profile::Es.display_name(), "OpenGL ES");
    assert_eq!(Profile::Web.display_name(), "WebGL");
}

#[test]
fn version_rejects_junk() {
    assert!(Version::parse("").is_err());
    assert!(Version::parse("Direct3D 11").is_err());
    assert!(Version::parse("OpenGL ES x.y").is_err());
}

#[test]
fn release_ordering() {
    let a = Release { major: 2, minor: 9 };
    let b = Release { major: 3, minor: 0 };
    let c = Release { major: 3, minor: 1 };
    assert!(a < b);
    assert!(b < c);
    assert!(a < c);
    assert!(!(b < a));
    assert!(b <= Release { major: 3, minor: 0 });
    assert!(b >= Release { major: 3, minor: 0 });
}

#[test]
fn minimum_version_gating_boundary() {
    let too_old = ContextProbe {
        version: "OpenGL ES 2.9".to_string(),
        dedicated_major: Some(2),
        dedicated_minor: Some(9),
        limits: full_raw_limits(),
    };
    match Information::collect(&too_old) {
        Err(UnsupportedContext::UnsupportedRelease { profile, release }) => {
            assert_eq!(profile, Profile::Es);
            assert_eq!(release, Release { major: 2, minor: 9 });
        }
        other => panic!("expected an unsupported-release error, got {:?}", other),
    }

    let boundary = ContextProbe {
        version: "OpenGL ES 3.0".to_string(),
        dedicated_major: Some(3),
        dedicated_minor: Some(0),
        limits: full_raw_limits(),
    };
    let info = Information::collect(&boundary).unwrap();
    assert_eq!(info.version.profile, Profile::Es);
    assert_eq!(info.version.release, Release { major: 3, minor: 0 });
    assert!(info.capabilities.buffer_mapping);
}

#[test]
fn web_profile_has_no_buffer_mapping() {
    let probe = ContextProbe {
        version: "WebGL 2.0".to_string(),
        dedicated_major: None,
        dedicated_minor: None,
        limits: full_raw_limits(),
    };
    let info = Information::collect(&probe).unwrap();
    assert_eq!(info.version.profile, Profile::Web);
    assert!(!info.capabilities.buffer_mapping);
}

#[test]
fn collect_rejects_invalid_version_string() {
    let probe = ContextProbe {
        version: "Mesa".to_string(),
        dedicated_major: None,
        dedicated_minor: None,
        limits: full_raw_limits(),
    };
    match Information::collect(&probe) {
        Err(UnsupportedContext::InvalidVersion(s)) => assert_eq!(s, "Mesa"),
        other => panic!("expected an invalid-version error, got {:?}", other),
    }
}

#[test]
fn collect_rejects_mismatched_release() {
    let probe = ContextProbe {
        version: "OpenGL ES 3.0".to_string(),
        dedicated_major: Some(3),
        dedicated_minor: Some(1),
        limits: full_raw_limits(),
    };
    match Information::collect(&probe) {
        Err(UnsupportedContext::MismatchedRelease { string, dedicated }) => {
            assert_eq!(string, Release { major: 3, minor: 0 });
            assert_eq!(dedicated, Release { major: 3, minor: 1 });
        }
        other => panic!("expected a mismatched-release error, got {:?}", other),
    }
}

#[test]
fn collect_rejects_partial_dedicated_queries() {
    let probe = ContextProbe {
        version: "OpenGL ES 3.0".to_string(),
        dedicated_major: Some(3),
        dedicated_minor: None,
        limits: full_raw_limits(),
    };
    assert_eq!(
        Information::collect(&probe),
        Err(UnsupportedContext::InvalidRelease(Some(3), None))
    );
}

#[test]
fn limits_require_their_parameters() {
    let mut raw = full_raw_limits();
    raw.max_texture_size = None;
    assert_eq!(
        Limits::collect(&raw),
        Err(UnsupportedContext::UnsupportedParameter {
            parameter: LimitQuery::MaxTextureSize
        })
    );

    let mut raw = full_raw_limits();
    raw.max_uniform_block_size = Some(-1);
    assert_eq!(
        Limits::collect(&raw),
        Err(UnsupportedContext::InvalidParameter {
            value: -1,
            parameter: LimitQuery::MaxUniformBlockSize
        })
    );
}

#[test]
fn optional_limits_may_be_missing() {
    let mut raw = full_raw_limits();
    raw.max_framebuffer_attachment_width = None;
    raw.max_viewport_height = None;
    let limits = Limits::collect(&raw).unwrap();
    assert_eq!(limits.max_framebuffer_attachment_width, None);
    assert_eq!(limits.max_framebuffer_attachment_height, Some(8192));
    assert_eq!(limits.max_viewport_height, None);
    assert_eq!(limits.max_textures, 16);
}
