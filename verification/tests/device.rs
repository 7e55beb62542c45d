use gavle::{AccessError, AccessLock, BufferDescriptor, BufferError, BufferLoadOp, BufferProfile};
use gavle::{compact_entities, ContextProbe, Device, Entity, Information, Mipmap, RawLimits};
use gavle::{FramebufferAttachment, FramebufferDescriptor, FramebufferError, LoadOp};
use gavle::{TextureDescriptor, TextureError, TextureExtent, TextureFilter, TextureFormat};
use gavle::{UniformBind, UniformGroupDescriptor, UniformGroupEntry, UniformGroupError};
use gavle::UniformVec;

fn raw_limits(max_textures: i32, max_uniform_block_bindings: i32) -> RawLimits {
    RawLimits {
        max_textures: Some(max_textures),
        max_texture_size: Some(4096),
        max_texture_size_3d: Some(256),
        max_texture_layers: Some(256),
        max_uniform_block_bindings: Some(max_uniform_block_bindings),
        max_uniform_block_size: Some(16384),
        max_framebuffer_color_attachments: Some(2),
        max_framebuffer_attachment_width: Some(8192),
        max_framebuffer_attachment_height: Some(8192),
        max_viewport_width: Some(8192),
        max_viewport_height: Some(8192),
    }
}

fn test_device(max_textures: i32, max_uniform_block_bindings: i32) -> Device {
    let probe = ContextProbe {
        version: "OpenGL ES 3.2".to_string(),
        dedicated_major: Some(3),
        dedicated_minor: Some(2),
        limits: raw_limits(max_textures, max_uniform_block_bindings),
    };
    Device::new_from_context(&probe).unwrap()
}

#[test]
fn buffer_length_contract() {
    let mut device = test_device(16, 24);
    let descriptor = BufferDescriptor { size: 12, profile: BufferProfile::StaticUpload };
    let short = [0u8; 11];
    assert_eq!(
        device.create_vertex_buffer_with_data(&descriptor, &short),
        Err(BufferError::SizeMismatch { declared: 12, actual: 11 })
    );
    let exact = [7u8; 12];
    assert!(device.create_vertex_buffer_with_data(&descriptor, &exact).is_ok());
}

#[test]
fn zero_filled_buffers() {
    let mut device = test_device(16, 24);
    let descriptor = BufferDescriptor { size: 8, profile: BufferProfile::DynamicUpload };
    let buffer = device.create_uniform_buffer(&descriptor).unwrap();
    let mapping = device.try_map_mut(&buffer, 8, BufferLoadOp::Load).unwrap();
    assert_eq!(mapping.bytes().as_slice(), &[0u8; 8]);
    device.unmap(mapping);
}

#[test]
fn buffer_upload_and_remap_round_trip() {
    let mut device = test_device(16, 24);
    let descriptor = BufferDescriptor { size: 4, profile: BufferProfile::DynamicUpload };
    let buffer = device
        .create_uniform_buffer_with_data(&descriptor, &[1, 2, 3, 4])
        .unwrap();

    let mut mapping = device.try_map_mut(&buffer, 4, BufferLoadOp::Load).unwrap();
    assert_eq!(mapping.bytes().as_slice(), &[1, 2, 3, 4]);
    mapping.bytes_mut()[0] = 9;
    device.unmap(mapping);

    let mapping = device.try_map_mut(&buffer, 4, BufferLoadOp::Load).unwrap();
    assert_eq!(mapping.bytes().as_slice(), &[9, 2, 3, 4]);
    device.unmap(mapping);
}

#[test]
fn mapping_is_exclusive() {
    let mut device = test_device(16, 24);
    let descriptor = BufferDescriptor { size: 4, profile: BufferProfile::DynamicUpload };
    let buffer = device.create_uniform_buffer(&descriptor).unwrap();
    let mapping = device.try_map_mut(&buffer, 4, BufferLoadOp::DontCare).unwrap();
    assert_eq!(
        device.try_map_mut(&buffer, 4, BufferLoadOp::DontCare).err(),
        Some(AccessError::WriteHeld)
    );
    device.unmap(mapping);
    let again = device.try_map_mut(&buffer, 4, BufferLoadOp::DontCare).unwrap();
    device.unmap(again);
}

#[test]
fn access_lock_exclusivity() {
    let mut lock = AccessLock::new();
    assert!(lock.acquire_read().is_ok());
    assert_eq!(lock.acquire_write(), Err(AccessError::ReadersHeld));
    assert!(lock.release_read().is_ok());
    assert!(lock.acquire_write().is_ok());
    assert_eq!(lock.acquire_read(), Err(AccessError::WriteHeld));
    assert_eq!(lock.acquire_write(), Err(AccessError::WriteHeld));
    assert!(lock.release_write().is_ok());
}

#[test]
fn access_lock_shares_readers() {
    let mut lock = AccessLock::new();
    assert!(lock.acquire_read().is_ok());
    assert!(lock.acquire_read().is_ok());
    assert_eq!(lock.reader_count(), 2);
    assert!(lock.release_read().is_ok());
    assert_eq!(lock.reader_count(), 1);
    assert!(lock.release_read().is_ok());
    assert_eq!(lock.release_read(), Err(AccessError::NotHeld));
}

#[test]
fn mipmaps_are_unsupported() {
    let mut device = test_device(16, 24);
    let descriptor = TextureDescriptor {
        extent: TextureExtent::D2 { width: 4, height: 4 },
        format: TextureFormat::Rgba8Unorm,
        mip: Mipmap::Manual { levels: 3 },
    };
    assert_eq!(device.create_texture(&descriptor), Err(TextureError::UnsupportedMipmaps));
}

#[test]
fn texture_extent_limits() {
    let mut device = test_device(16, 24);
    let descriptor = TextureDescriptor {
        extent: TextureExtent::D2 { width: 5000, height: 4 },
        format: TextureFormat::Rgba8Unorm,
        mip: Mipmap::Off,
    };
    assert_eq!(
        device.create_texture(&descriptor),
        Err(TextureError::OversizedWidth { width: 5000, max: 4096 })
    );
    let descriptor = TextureDescriptor {
        extent: TextureExtent::D3 { width: 300, height: 2, depth: 2 },
        format: TextureFormat::Rgba8Unorm,
        mip: Mipmap::Off,
    };
    assert_eq!(
        device.create_texture(&descriptor),
        Err(TextureError::OversizedWidth { width: 300, max: 256 })
    );
}

#[test]
fn texture_data_requirement() {
    let mut device = test_device(16, 24);
    let descriptor = TextureDescriptor {
        extent: TextureExtent::D2 { width: 2, height: 2 },
        format: TextureFormat::Rgba8Unorm,
        mip: Mipmap::Off,
    };
    let short = [0u8; 15];
    assert_eq!(
        device.create_texture_with_data(&descriptor, &short),
        Err(TextureError::ShortInitialData { provided: 15, required: 16 })
    );
    let exact = [0u8; 16];
    assert!(device.create_texture_with_data(&descriptor, &exact).is_ok());
}

#[test]
fn uniform_group_texture_limit_stops_at_offending_entry() {
    // With limits.max_textures = 2, the third texture entry must be the
    // one refused, not the finished group.
    let mut device = test_device(2, 24);
    let tex_descriptor = TextureDescriptor {
        extent: TextureExtent::D2 { width: 4, height: 4 },
        format: TextureFormat::Rgba8Unorm,
        mip: Mipmap::Off,
    };
    let mut entries = Vec::new();
    for name in ["t0", "t1", "t2"] {
        let texture = device.create_texture(&tex_descriptor).unwrap();
        entries.push(UniformGroupEntry {
            binding: name.to_string(),
            kind: UniformBind::Texture {
                texture,
                far: TextureFilter::Linear,
                near: TextureFilter::Nearest,
            },
        });
    }
    assert_eq!(
        device.create_uniform_bind_group(UniformGroupDescriptor { entries }),
        Err(UniformGroupError::TooManyTextureBindings { index: 2, max: 2 })
    );
}

#[test]
fn uniform_group_buffer_checks() {
    let mut device = test_device(16, 1);
    let big = device
        .create_uniform_buffer(&BufferDescriptor {
            size: 16385,
            profile: BufferProfile::DynamicUpload,
        })
        .unwrap();
    let entries = vec![UniformGroupEntry {
        binding: "rc_big".to_string(),
        kind: UniformBind::Buffer { buffer: big },
    }];
    assert_eq!(
        device.create_uniform_bind_group(UniformGroupDescriptor { entries }),
        Err(UniformGroupError::OversizedUniformBuffer { index: 0, len: 16385, max: 16384 })
    );

    let small = BufferDescriptor { size: 16, profile: BufferProfile::DynamicUpload };
    let a = device.create_uniform_buffer(&small).unwrap();
    let b = device.create_uniform_buffer(&small).unwrap();
    let entries = vec![
        UniformGroupEntry {
            binding: "rc_a".to_string(),
            kind: UniformBind::Buffer { buffer: a },
        },
        UniformGroupEntry {
            binding: "rc_b".to_string(),
            kind: UniformBind::Buffer { buffer: b },
        },
    ];
    assert_eq!(
        device.create_uniform_bind_group(UniformGroupDescriptor { entries }),
        Err(UniformGroupError::TooManyBufferBindings { index: 1, max: 1 })
    );
}

#[test]
fn uniform_groups_are_read_only_aggregates() {
    let mut device = test_device(16, 24);
    let buffer = device
        .create_uniform_buffer(&BufferDescriptor {
            size: 16,
            profile: BufferProfile::DynamicUpload,
        })
        .unwrap();
    let group = device
        .create_uniform_bind_group(UniformGroupDescriptor {
            entries: vec![UniformGroupEntry {
                binding: "rc_global".to_string(),
                kind: UniformBind::Buffer { buffer },
            }],
        })
        .unwrap();
    assert_eq!(
        device.group_acquire_write(&group),
        Err(AccessError::ReadOnlyAggregate)
    );
    assert_eq!(
        device.group_release_write(&group),
        Err(AccessError::ReadOnlyAggregate)
    );
}

#[test]
fn framebuffer_validation() {
    let mut device = test_device(16, 24);
    assert_eq!(
        device.create_framebuffer(FramebufferDescriptor {
            color_attachments: Vec::new(),
            depth_stencil_attachment: None,
        }),
        Err(FramebufferError::NoAttachments)
    );

    let d1 = device
        .create_texture(&TextureDescriptor {
            extent: TextureExtent::D1 { length: 16 },
            format: TextureFormat::Rgba8Unorm,
            mip: Mipmap::Off,
        })
        .unwrap();
    assert_eq!(
        device.create_framebuffer(FramebufferDescriptor {
            color_attachments: vec![FramebufferAttachment { attachment: d1, load_op: LoadOp::Load }],
            depth_stencil_attachment: None,
        }),
        Err(FramebufferError::IncompatibleExtent { index: 0 })
    );

    let flat = TextureDescriptor {
        extent: TextureExtent::D2 { width: 64, height: 64 },
        format: TextureFormat::Rgba8Unorm,
        mip: Mipmap::Off,
    };
    let mut attachments = Vec::new();
    for _ in 0..3 {
        let t = device.create_texture(&flat).unwrap();
        attachments.push(FramebufferAttachment { attachment: t, load_op: LoadOp::Load });
    }
    // The context allows two color attachments; the third is refused.
    assert_eq!(
        device.create_framebuffer(FramebufferDescriptor {
            color_attachments: attachments,
            depth_stencil_attachment: None,
        }),
        Err(FramebufferError::TooManyColorAttachments { count: 3, max: 2 })
    );

    let color = device.create_texture(&flat).unwrap();
    let fb = device
        .create_framebuffer(FramebufferDescriptor {
            color_attachments: vec![FramebufferAttachment {
                attachment: color,
                load_op: LoadOp::Load,
            }],
            depth_stencil_attachment: None,
        })
        .unwrap();
    assert!(matches!(fb, gavle::Framebuffer::Custom { .. }));
}

#[test]
fn uniform_vec_capacity_is_clamped_by_block_size() {
    let mut device = test_device(16, 24);
    // The block size is 16384 bytes: 64-byte items cap out at 256.
    let vec = UniformVec::with_capacity(&mut device, 64, 4096);
    assert_eq!(vec.capacity(), 256);
    assert_eq!(vec.len(), 0);

    let vec = UniformVec::with_capacity(&mut device, 64, 100);
    assert_eq!(vec.capacity(), 100);
}

#[test]
fn uniform_vec_resize_writes_through() {
    let mut device = test_device(16, 24);
    let mut vec = UniformVec::with_capacity(&mut device, 4, 4);
    let data = [1u8, 2, 3, 4, 5, 6, 7, 8];
    vec.resize_with(&mut device, 2, &data);
    assert_eq!(vec.len(), 2);

    let mapping = device
        .try_map_mut(vec.buffer(), 16, BufferLoadOp::Load)
        .unwrap();
    assert_eq!(&mapping.bytes().as_slice()[..8], &data);
    device.unmap(mapping);

    // A count past the capacity is clamped to it.
    let full = [9u8; 16];
    vec.resize_with(&mut device, 9, &full);
    assert_eq!(vec.len(), 4);
}

#[test]
fn entity_compaction_keeps_the_living() {
    let mut entities = Vec::new();
    for value in 0..6u32 {
        entities.push(Entity::new(value));
    }
    entities[1].kill();
    entities[4].kill();
    entities[5].kill();
    entities[5].revive();
    assert!(!entities[1].alive());
    assert!(entities[5].alive());

    let kept = compact_entities(entities);
    let values: Vec<u32> = kept.iter().map(|e| *e.payload()).collect();
    assert_eq!(values, vec![0, 2, 3, 5]);
}

#[test]
fn texture_height_and_layer_limits() {
    let mut device = test_device(16, 24);
    let descriptor = TextureDescriptor {
        extent: TextureExtent::D2 { width: 4, height: 4097 },
        format: TextureFormat::Rgba8Unorm,
        mip: Mipmap::Off,
    };
    assert_eq!(
        device.create_texture(&descriptor),
        Err(TextureError::OversizedHeight { height: 4097, max: 4096 })
    );
    let descriptor = TextureDescriptor {
        extent: TextureExtent::D2Array { width: 4, height: 4, layers: 257 },
        format: TextureFormat::Rgba8Unorm,
        mip: Mipmap::Automatic,
    };
    // The mipmap check runs before the extent checks.
    assert_eq!(device.create_texture(&descriptor), Err(TextureError::UnsupportedMipmaps));
    let descriptor = TextureDescriptor { mip: Mipmap::Off, ..descriptor };
    assert_eq!(
        device.create_texture(&descriptor),
        Err(TextureError::OversizedDepth { depth: 257, max: 256 })
    );
}

#[test]
fn framebuffer_depth_attachment_checks() {
    let mut device = test_device(16, 24);
    let color = device
        .create_texture(&TextureDescriptor {
            extent: TextureExtent::D2 { width: 64, height: 64 },
            format: TextureFormat::Rgba8Unorm,
            mip: Mipmap::Off,
        })
        .unwrap();
    // A color-format texture cannot be the depth-stencil attachment.
    assert_eq!(
        device.create_framebuffer(FramebufferDescriptor {
            color_attachments: Vec::new(),
            depth_stencil_attachment: Some(gavle::DepthStencilAttachment {
                attachment: color,
                depth_load_op: LoadOp::Load,
                stencil_load_op: LoadOp::Load,
            }),
        }),
        Err(FramebufferError::IncompatibleDepthStencilFormat {
            format: TextureFormat::Rgba8Unorm
        })
    );

    let depth = device
        .create_texture(&TextureDescriptor {
            extent: TextureExtent::D2 { width: 64, height: 64 },
            format: TextureFormat::Depth24Stencil8,
            mip: Mipmap::Off,
        })
        .unwrap();
    let fb = device
        .create_framebuffer(FramebufferDescriptor {
            color_attachments: Vec::new(),
            depth_stencil_attachment: Some(gavle::DepthStencilAttachment {
                attachment: depth,
                depth_load_op: LoadOp::Load,
                stencil_load_op: LoadOp::Load,
            }),
        })
        .unwrap();
    assert!(matches!(fb, gavle::Framebuffer::Custom { .. }));
}

#[test]
fn framebuffer_attachment_size_limits() {
    // The attachment size limits bind only where the context exposes
    // both queries.
    let mut raw = raw_limits(16, 24);
    raw.max_framebuffer_attachment_width = Some(32);
    raw.max_framebuffer_attachment_height = Some(32);
    let probe = ContextProbe {
        version: "OpenGL ES 3.2".to_string(),
        dedicated_major: Some(3),
        dedicated_minor: Some(2),
        limits: raw,
    };
    let mut device = Device::new_from_context(&probe).unwrap();
    let wide = device
        .create_texture(&TextureDescriptor {
            extent: TextureExtent::D2 { width: 64, height: 16 },
            format: TextureFormat::Rgba8Unorm,
            mip: Mipmap::Off,
        })
        .unwrap();
    assert_eq!(
        device.create_framebuffer(FramebufferDescriptor {
            color_attachments: vec![FramebufferAttachment {
                attachment: wide,
                load_op: LoadOp::Load,
            }],
            depth_stencil_attachment: None,
        }),
        Err(FramebufferError::OversizedWidth { width: 64, max: 32 })
    );
}
