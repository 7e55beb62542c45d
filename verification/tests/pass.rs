use gavle::{fragment, vertex, Allocator, BufferDescriptor, BufferProfile, Color, Command};
use gavle::{CompileOutcome, ContextProbe, CullMode, DefaultFramebufferDescriptor, Device};
use gavle::{DrawError, FrontFace, IndexFormat, LinkOutcome, LoadOp, PipelineVariants};
use gavle::{PolygonMode, PrimitiveState, PrimitiveTopology, RawLimits, RenderPassDescriptor};
use gavle::{RenderPipeline, RenderPipelineDescriptor, RenderPipelineError, ShaderError};
use gavle::{TextureDescriptor, TextureExtent, TextureFilter, TextureFormat, Mipmap};
use gavle::{UniformBind, UniformGroupDescriptor, UniformGroupEntry, VertexAttribute};
use gavle::{VertexBufferLayout, VertexComponents, VertexState, VertexType, Viewport};

fn test_device() -> Device {
    let probe = ContextProbe {
        version: "OpenGL ES 3.2".to_string(),
        dedicated_major: Some(3),
        dedicated_minor: Some(2),
        limits: RawLimits {
            max_textures: Some(16),
            max_texture_size: Some(4096),
            max_texture_size_3d: Some(256),
            max_texture_layers: Some(256),
            max_uniform_block_bindings: Some(24),
            max_uniform_block_size: Some(16384),
            max_framebuffer_color_attachments: Some(8),
            max_framebuffer_attachment_width: Some(8192),
            max_framebuffer_attachment_height: Some(8192),
            max_viewport_width: Some(8192),
            max_viewport_height: Some(8192),
        },
    };
    Device::new_from_context(&probe).unwrap()
}

fn triangle_layout() -> VertexBufferLayout {
    VertexBufferLayout {
        array_stride: 36,
        attributes: vec![
            VertexAttribute {
                kind: VertexType::F32,
                components: VertexComponents::Three,
                offset: 0,
                binding: "tt_vert_position".to_string(),
            },
            VertexAttribute {
                kind: VertexType::F32,
                components: VertexComponents::Three,
                offset: 12,
                binding: "tt_vert_normal".to_string(),
            },
            VertexAttribute {
                kind: VertexType::F32,
                components: VertexComponents::Three,
                offset: 24,
                binding: "tt_vert_texture".to_string(),
            },
        ],
    }
}

fn make_pipeline(
    device: &mut Device,
    topology: PrimitiveTopology,
    active_uniforms: Vec<String>,
    active_uniform_blocks: Vec<String>,
) -> RenderPipeline {
    let vertex_shader = device
        .create_vertex_shader(vertex(), CompileOutcome::Success)
        .unwrap();
    let _ = device
        .create_fragment_shader(fragment(), CompileOutcome::Success)
        .unwrap();
    device
        .create_render_pipeline(
            RenderPipelineDescriptor {
                vertex: VertexState { shader: vertex_shader, buffer: triangle_layout() },
                primitive_state: PrimitiveState {
                    topology,
                    index_format: IndexFormat::Uint16,
                    front_face: FrontFace::Ccw,
                    cull_mode: CullMode::Off,
                    polygon_mode: PolygonMode::Fill,
                },
                fragment: None,
                depth_stencil: None,
            },
            LinkOutcome::Linked { log: String::new(), active_uniforms, active_uniform_blocks },
        )
        .unwrap()
}

#[test]
fn shader_and_link_failures_surface_their_logs() {
    let mut device = test_device();
    match device.create_vertex_shader(
        vertex(),
        CompileOutcome::Failure { log: "bad syntax".to_string() },
    ) {
        Err(ShaderError::CompilationFailed { what }) => assert_eq!(what, "bad syntax"),
        other => panic!("expected a compilation failure, got {:?}", other),
    }

    let shader = device
        .create_vertex_shader(vertex(), CompileOutcome::Success)
        .unwrap();
    match device.create_render_pipeline(
        RenderPipelineDescriptor {
            vertex: VertexState { shader, buffer: triangle_layout() },
            primitive_state: PrimitiveState {
                topology: PrimitiveTopology::TriangleList,
                index_format: IndexFormat::Uint16,
                front_face: FrontFace::Ccw,
                cull_mode: CullMode::Off,
                polygon_mode: PolygonMode::Fill,
            },
            fragment: None,
            depth_stencil: None,
        },
        LinkOutcome::Failed { log: "no entry point".to_string() },
    ) {
        Err(RenderPipelineError::ProgramLinkFailed { what }) => {
            assert_eq!(what, "no entry point")
        }
        other => panic!("expected a link failure, got {:?}", other),
    }
}

#[test]
fn allocator_hands_out_consecutive_slots() {
    let mut allocator = Allocator::new();
    assert_eq!(allocator.next_texture(), 0);
    assert_eq!(allocator.next_texture(), 1);
    assert_eq!(allocator.next_ubo_binding(), 0);
    assert_eq!(allocator.next_texture(), 2);
    assert_eq!(allocator.next_ubo_binding(), 1);
}

#[test]
fn topology_dispatch() {
    let mut device = test_device();
    let line_strip = make_pipeline(&mut device, PrimitiveTopology::LineStrip, vec![], vec![]);
    let triangles = make_pipeline(&mut device, PrimitiveTopology::TriangleList, vec![], vec![]);

    let mut variants = PipelineVariants::new();
    variants.register(PrimitiveTopology::LineStrip, line_strip);
    variants.register(PrimitiveTopology::TriangleList, triangles);

    assert_eq!(
        variants.select(PrimitiveTopology::LineStrip).unwrap(),
        line_strip
    );
    assert_eq!(
        variants.select(PrimitiveTopology::TriangleList).unwrap(),
        triangles
    );
    match variants.select(PrimitiveTopology::PointList) {
        Err(e) => {
            assert_eq!(e.requested, PrimitiveTopology::PointList);
            assert_eq!(
                e.supported,
                vec![PrimitiveTopology::LineStrip, PrimitiveTopology::TriangleList]
            );
        }
        Ok(_) => panic!("an unregistered topology must be refused"),
    }
}

#[test]
fn end_to_end_pass_bounds_check() {
    let mut device = test_device();
    let pipeline = make_pipeline(&mut device, PrimitiveTopology::TriangleList, vec![], vec![]);

    let vertices = device
        .create_vertex_buffer_with_data(
            &BufferDescriptor { size: 108, profile: BufferProfile::StaticUpload },
            &[0u8; 108],
        )
        .unwrap();
    // Four 16-bit indices: positions 0 to 3.
    let indices = device
        .create_index_buffer_with_data(
            &BufferDescriptor { size: 8, profile: BufferProfile::StaticUpload },
            &[0u8; 8],
        )
        .unwrap();

    let framebuffer = device.default_framebuffer(&DefaultFramebufferDescriptor {
        color_load_op: LoadOp::Clear(Color::from_bits(
            0f32.to_bits(),
            0f32.to_bits(),
            0f32.to_bits(),
            1f32.to_bits(),
        )),
        depth_load_op: LoadOp::Clear(f32::NEG_INFINITY.to_bits()),
        stencil_load_op: LoadOp::Clear(1),
    });

    let mut pass = device.start_render_pass(&RenderPassDescriptor { pipeline, framebuffer });
    pass.set_index_buffer(&indices);
    pass.set_vertex_buffer(&vertices);
    pass.set_viewport(Viewport { x: 0, y: 0, width: 800, height: 600 });

    // Five indices are asked for where the buffer holds four: the draw
    // must refuse the range rather than read out of bounds.
    assert_eq!(
        pass.draw_indexed(0, 5, 1),
        Err(DrawError::IndexRangeOutOfBounds { end: 5, available: 4 })
    );
    assert_eq!(pass.draw_indexed(0, 4, 1), Ok(()));

    let (_, commands) = pass.end();
    assert_eq!(
        commands,
        vec![
            Command::BindDefaultFramebuffer,
            Command::ClearColor {
                color: Color::from_bits(
                    0f32.to_bits(),
                    0f32.to_bits(),
                    0f32.to_bits(),
                    1f32.to_bits()
                )
            },
            Command::ClearDepth { depth_bits: f32::NEG_INFINITY.to_bits() },
            Command::ClearStencil { value: 1 },
            Command::UsePipeline { pipeline: pipeline.index() },
            Command::BindVertexBuffer { buffer: vertices.index() },
            Command::BindIndexBuffer { buffer: indices.index() },
            Command::SetViewport {
                viewport: Viewport { x: 0, y: 0, width: 800, height: 600 }
            },
            Command::SetStencilReference { value: 0 },
            Command::DrawIndexed {
                topology: PrimitiveTopology::TriangleList,
                start: 0,
                end: 4,
                instances: 1
            },
        ]
    );
}

#[test]
fn draws_without_bound_buffers_are_refused() {
    let mut device = test_device();
    let pipeline = make_pipeline(&mut device, PrimitiveTopology::TriangleList, vec![], vec![]);
    let vertices = device
        .create_vertex_buffer_with_data(
            &BufferDescriptor { size: 36, profile: BufferProfile::StaticUpload },
            &[0u8; 36],
        )
        .unwrap();

    let framebuffer = device.default_framebuffer(&DefaultFramebufferDescriptor {
        color_load_op: LoadOp::Load,
        depth_load_op: LoadOp::Load,
        stencil_load_op: LoadOp::Load,
    });
    let mut pass = device.start_render_pass(&RenderPassDescriptor { pipeline, framebuffer });
    assert_eq!(pass.draw_indexed(0, 3, 1), Err(DrawError::MissingVertexBuffer));
    pass.set_vertex_buffer(&vertices);
    assert_eq!(pass.draw_indexed(0, 3, 1), Err(DrawError::MissingIndexBuffer));
    let (_, commands) = pass.end();
    // A refused draw leaves nothing behind but the pass opening.
    assert_eq!(commands, vec![Command::BindDefaultFramebuffer]);
}

#[test]
fn lazy_binding_resolution_skips_inactive_names() {
    let mut device = test_device();
    let pipeline = make_pipeline(
        &mut device,
        PrimitiveTopology::TriangleList,
        vec!["tt_albedo".to_string()],
        vec!["rc_global".to_string()],
    );

    let global = device
        .create_uniform_buffer(&BufferDescriptor {
            size: 64,
            profile: BufferProfile::DynamicUpload,
        })
        .unwrap();
    let unused = device
        .create_uniform_buffer(&BufferDescriptor {
            size: 64,
            profile: BufferProfile::DynamicUpload,
        })
        .unwrap();
    let albedo = device
        .create_texture(&TextureDescriptor {
            extent: TextureExtent::D2 { width: 4, height: 4 },
            format: TextureFormat::Rgba8Unorm,
            mip: Mipmap::Off,
        })
        .unwrap();

    let group = device
        .create_uniform_bind_group(UniformGroupDescriptor {
            entries: vec![
                UniformGroupEntry {
                    binding: "rc_global".to_string(),
                    kind: UniformBind::Buffer { buffer: global },
                },
                UniformGroupEntry {
                    binding: "rc_unused".to_string(),
                    kind: UniformBind::Buffer { buffer: unused },
                },
                UniformGroupEntry {
                    binding: "tt_albedo".to_string(),
                    kind: UniformBind::Texture {
                        texture: albedo,
                        far: TextureFilter::Linear,
                        near: TextureFilter::Nearest,
                    },
                },
            ],
        })
        .unwrap();

    let vertices = device
        .create_vertex_buffer_with_data(
            &BufferDescriptor { size: 36, profile: BufferProfile::StaticUpload },
            &[0u8; 36],
        )
        .unwrap();
    let indices = device
        .create_index_buffer_with_data(
            &BufferDescriptor { size: 6, profile: BufferProfile::StaticUpload },
            &[0u8; 6],
        )
        .unwrap();

    let framebuffer = device.default_framebuffer(&DefaultFramebufferDescriptor {
        color_load_op: LoadOp::Load,
        depth_load_op: LoadOp::Load,
        stencil_load_op: LoadOp::Load,
    });
    let mut pass = device.start_render_pass(&RenderPassDescriptor { pipeline, framebuffer });
    pass.set_vertex_buffer(&vertices);
    pass.set_index_buffer(&indices);
    pass.set_bind_group(&group).unwrap();
    pass.draw_indexed(0, 3, 1).unwrap();
    let (_, commands) = pass.end();

    // The active block takes slot 0, the inactive buffer is passed over
    // silently, and the active texture takes unit 0.
    assert!(commands.contains(&Command::BindUniformBlock {
        group: group.index(),
        entry: 0,
        binding: 0,
        buffer: global.index(),
    }));
    assert!(commands.contains(&Command::BindTextureUnit {
        group: group.index(),
        entry: 2,
        unit: 0,
        texture: albedo.index(),
        far: TextureFilter::Linear,
        near: TextureFilter::Nearest,
    }));
    assert!(!commands.iter().any(|c| matches!(
        c,
        Command::BindUniformBlock { entry: 1, .. }
    )));
}

#[test]
fn bound_groups_hold_their_members_for_read() {
    let mut device = test_device();
    let pipeline = make_pipeline(&mut device, PrimitiveTopology::TriangleList, vec![], vec![]);
    let buffer = device
        .create_uniform_buffer(&BufferDescriptor {
            size: 16,
            profile: BufferProfile::DynamicUpload,
        })
        .unwrap();
    let group = device
        .create_uniform_bind_group(UniformGroupDescriptor {
            entries: vec![UniformGroupEntry {
                binding: "rc_global".to_string(),
                kind: UniformBind::Buffer { buffer },
            }],
        })
        .unwrap();

    // A buffer mapped for writing cannot be bound for reading.
    let mapping = device
        .try_map_mut(&buffer, 16, gavle::BufferLoadOp::DontCare)
        .unwrap();
    let framebuffer = device.default_framebuffer(&DefaultFramebufferDescriptor {
        color_load_op: LoadOp::Load,
        depth_load_op: LoadOp::Load,
        stencil_load_op: LoadOp::Load,
    });
    let mut pass = device.start_render_pass(&RenderPassDescriptor { pipeline, framebuffer });
    assert_eq!(pass.set_bind_group(&group), Err(gavle::AccessError::WriteHeld));
    let (mut device, _) = pass.end();
    device.unmap(mapping);

    // Once unmapped, binding succeeds, and while the pass holds the
    // group its buffer cannot be mapped again; the hold returns with the
    // device when the pass ends.
    let mut pass = device.start_render_pass(&RenderPassDescriptor { pipeline, framebuffer });
    pass.set_bind_group(&group).unwrap();
    let (mut device, _) = pass.end();
    assert_eq!(device.uniform_buffer_access(&buffer).reader_count(), 0);
    let mapping = device
        .try_map_mut(&buffer, 16, gavle::BufferLoadOp::DontCare)
        .unwrap();
    device.unmap(mapping);
}

#[test]
fn back_to_front_ranges_are_refused() {
    let mut device = test_device();
    let pipeline = make_pipeline(&mut device, PrimitiveTopology::TriangleList, vec![], vec![]);
    let vertices = device
        .create_vertex_buffer_with_data(
            &BufferDescriptor { size: 36, profile: BufferProfile::StaticUpload },
            &[0u8; 36],
        )
        .unwrap();
    let indices = device
        .create_index_buffer_with_data(
            &BufferDescriptor { size: 6, profile: BufferProfile::StaticUpload },
            &[0u8; 6],
        )
        .unwrap();
    let framebuffer = device.default_framebuffer(&DefaultFramebufferDescriptor {
        color_load_op: LoadOp::Load,
        depth_load_op: LoadOp::Load,
        stencil_load_op: LoadOp::Load,
    });
    let mut pass = device.start_render_pass(&RenderPassDescriptor { pipeline, framebuffer });
    pass.set_vertex_buffer(&vertices);
    pass.set_index_buffer(&indices);
    assert_eq!(
        pass.draw_indexed(3, 1, 1),
        Err(DrawError::InvalidIndexRange { start: 3, end: 1 })
    );
    let _ = pass.end();
}
