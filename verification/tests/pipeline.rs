use rusty_sandbox::camera::CameraBufferData;
use rusty_sandbox::pipeline::{
    BindGroupLayoutEntry, BlendState, BufferBindingType, ColorTargetState, Face, FrontFace,
    MultisampleState, PolygonMode, PrimitiveState, PrimitiveTopology, RenderPipelineDescriptor,
    ALL_SAMPLES, CAMERA_BINDING, CAMERA_GROUP, COLOR_WRITES_ALL, STAGE_COMPUTE, STAGE_FRAGMENT,
    STAGE_VERTEX, VERTEX_SLOT,
};
use rusty_sandbox::renderer::{AdapterOutcome, DeviceOutcome, Renderer};
use rusty_sandbox::surface::{Resolution, SurfaceFormat};
use rusty_sandbox::vertex::{VertexAttribute, VertexFormat, VertexStepMode};
use rusty_sandbox::window::Window;

#[test]
fn the_pipeline_draws_filled_triangles_seen_from_the_front() {
    let pipeline = RenderPipelineDescriptor::mesh(SurfaceFormat { index: 0 });
    assert_eq!(
        pipeline.primitive,
        PrimitiveState {
            topology: PrimitiveTopology::TriangleList,
            strip_index_format: None,
            front_face: FrontFace::Ccw,
            cull_mode: Some(Face::Back),
            unclipped_depth: false,
            polygon_mode: PolygonMode::Fill,
            conservative: false,
        }
    );
    assert!(!pipeline.depth_stencil);
    assert_eq!(
        pipeline.multisample,
        MultisampleState { count: 1, mask: !0, alpha_to_coverage_enabled: false }
    );
    assert_eq!(ALL_SAMPLES, !0u64);
}

#[test]
fn the_pipeline_replaces_what_the_target_holds() {
    let format = SurfaceFormat { index: 2 };
    let pipeline = RenderPipelineDescriptor::mesh(format);
    assert_eq!(
        pipeline.fragment,
        ColorTargetState { format, blend: Some(BlendState::Replace), write_mask: 15 }
    );
    assert_eq!(COLOR_WRITES_ALL, wgpu::ColorWrites::ALL.bits());
}

#[test]
fn the_pipeline_reads_vertices_of_twenty_four_bytes() {
    let pipeline = RenderPipelineDescriptor::mesh(SurfaceFormat { index: 0 });
    assert_eq!(pipeline.vertex.array_stride, 24);
    assert_eq!(pipeline.vertex.step_mode, VertexStepMode::Vertex);
    assert_eq!(
        pipeline.vertex.attributes,
        vec![
            VertexAttribute { format: VertexFormat::Float32x3, offset: 0, shader_location: 0 },
            VertexAttribute { format: VertexFormat::Float32x3, offset: 12, shader_location: 1 },
        ]
    );
}

#[test]
fn the_camera_is_a_uniform_for_the_vertex_stage() {
    let pipeline = RenderPipelineDescriptor::mesh(SurfaceFormat { index: 0 });
    assert_eq!(
        pipeline.camera,
        BindGroupLayoutEntry {
            binding: 0,
            visibility: STAGE_VERTEX,
            ty: BufferBindingType::Uniform,
            has_dynamic_offset: false,
            min_binding_size: None,
        }
    );
    assert_eq!(CAMERA_GROUP, 0);
    assert_eq!(CAMERA_BINDING, 0);
    assert_eq!(VERTEX_SLOT, 0);
}

#[test]
fn stage_bits_are_those_of_the_device() {
    assert_eq!(STAGE_VERTEX, wgpu::ShaderStages::VERTEX.bits());
    assert_eq!(STAGE_FRAGMENT, wgpu::ShaderStages::FRAGMENT.bits());
    assert_eq!(STAGE_COMPUTE, wgpu::ShaderStages::COMPUTE.bits());
}

#[test]
fn the_pipeline_of_a_renderer_targets_its_surface() {
    let window = Window::new(1, Resolution::new(800, 600));
    let outcome = AdapterOutcome::Found(DeviceOutcome::Granted { formats: 3 });
    let renderer = Renderer::new(&window, outcome, CameraBufferData::new().mvp).unwrap();
    let pipeline = renderer.pipeline();
    assert_eq!(pipeline.fragment.format, renderer.surface_config().format);
    assert_eq!(pipeline.fragment.format, SurfaceFormat { index: 0 });
    assert_eq!(pipeline.fragment.blend, Some(BlendState::Replace));
    assert_eq!(pipeline.primitive.cull_mode, Some(Face::Back));
    assert_eq!(pipeline.vertex.array_stride, 24);
}
