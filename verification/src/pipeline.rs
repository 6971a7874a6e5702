//! The one render pipeline of the sandbox: how vertices become triangles,
//! how the triangles are coloured, and where the vertex stage finds the
//! camera transform.
use crate::surface::SurfaceFormat;
use crate::vertex::{vertex_attributes, Vertex, VertexBufferLayout, VertexStepMode};
use crate::pod::Pod;
use vstd::prelude::*;

verus! {

/// The vertex stage.
pub const STAGE_VERTEX: u32 = 1;

/// The fragment stage.
pub const STAGE_FRAGMENT: u32 = 2;

/// The compute stage.
pub const STAGE_COMPUTE: u32 = 4;

/// Every channel of a colour target: red, green, blue and alpha.
pub const COLOR_WRITES_ALL: u32 = 15;

/// Every sample of a pixel.
pub const ALL_SAMPLES: u64 = 0xFFFF_FFFF_FFFF_FFFF;

/// The bind group that holds the camera transform.
pub const CAMERA_GROUP: u32 = 0;

/// The binding of the camera transform inside its bind group.
pub const CAMERA_BINDING: u32 = 0;

/// The slot the vertex buffer is bound to.
pub const VERTEX_SLOT: u32 = 0;

/// How vertices are put together into primitives.
#[derive(Clone, Copy, Debug, PartialEq, Eq, Structural)]
pub enum PrimitiveTopology {
    PointList,
    LineList,
    LineStrip,
    /// Every three vertices make a triangle of their own.
    TriangleList,
    TriangleStrip,
}

/// The winding of the triangles that face the viewer.
#[derive(Clone, Copy, Debug, PartialEq, Eq, Structural)]
pub enum FrontFace {
    Ccw,
    Cw,
}

/// A side of a triangle.
#[derive(Clone, Copy, Debug, PartialEq, Eq, Structural)]
pub enum Face {
    Front,
    Back,
}

/// How a triangle is filled.
#[derive(Clone, Copy, Debug, PartialEq, Eq, Structural)]
pub enum PolygonMode {
    Fill,
    Line,
    Point,
}

/// The type of the indices in an index buffer.
#[derive(Clone, Copy, Debug, PartialEq, Eq, Structural)]
pub enum IndexFormat {
    Uint16,
    Uint32,
}

/// How a fragment is combined with what the target already holds.
#[derive(Clone, Copy, Debug, PartialEq, Eq, Structural)]
pub enum BlendState {
    /// The fragment takes the place of what was there, alpha included.
    Replace,
    AlphaBlending,
    PremultipliedAlphaBlending,
}

/// How primitives are assembled and which of them are drawn.
#[derive(Clone, Copy, Debug, PartialEq, Eq, Structural)]
pub struct PrimitiveState {
    pub topology: PrimitiveTopology,
    pub strip_index_format: Option<IndexFormat>,
    pub front_face: FrontFace,
    /// The side whose triangles are dropped, if any.
    pub cull_mode: Option<Face>,
    pub unclipped_depth: bool,
    pub polygon_mode: PolygonMode,
    pub conservative: bool,
}

/// The colour output of the fragment stage.
#[derive(Clone, Copy, Debug, PartialEq, Eq, Structural)]
pub struct ColorTargetState {
    pub format: SurfaceFormat,
    pub blend: Option<BlendState>,
    /// The channels that are written: a set of colour write bits.
    pub write_mask: u32,
}

/// How many samples a pixel has and which of them are written.
#[derive(Clone, Copy, Debug, PartialEq, Eq, Structural)]
pub struct MultisampleState {
    pub count: u32,
    pub mask: u64,
    pub alpha_to_coverage_enabled: bool,
}

/// The kind of buffer a binding holds.
#[derive(Clone, Copy, Debug, PartialEq, Eq, Structural)]
pub enum BufferBindingType {
    Uniform,
    Storage { read_only: bool },
}

/// One binding of a bind group: a buffer and the stages that see it.
#[derive(Clone, Copy, Debug, PartialEq, Eq, Structural)]
pub struct BindGroupLayoutEntry {
    pub binding: u32,
    /// The stages that see the binding: a set of stage bits.
    pub visibility: u32,
    pub ty: BufferBindingType,
    pub has_dynamic_offset: bool,
    pub min_binding_size: Option<u64>,
}

/// The render pipeline, as plain data.
#[derive(Debug)]
pub struct RenderPipelineDescriptor {
    /// How the vertex stage reads the vertex buffer.
    pub vertex: VertexBufferLayout,
    /// What the fragment stage writes to.
    pub fragment: ColorTargetState,
    pub primitive: PrimitiveState,
    /// Whether there is a depth or stencil test.
    pub depth_stencil: bool,
    pub multisample: MultisampleState,
    /// The bindings of bind group 0.
    pub camera: BindGroupLayoutEntry,
}

/// Filled triangles, three vertices each, counter-clockwise ones facing the
/// viewer, the ones facing away dropped.
pub open spec fn mesh_primitive() -> PrimitiveState {
    PrimitiveState {
        topology: PrimitiveTopology::TriangleList,
        strip_index_format: None,
        front_face: FrontFace::Ccw,
        cull_mode: Some(Face::Back),
        unclipped_depth: false,
        polygon_mode: PolygonMode::Fill,
        conservative: false,
    }
}

/// A target in the format of the surface, where every fragment replaces
/// what was there in all four channels.
pub open spec fn mesh_target(format: SurfaceFormat) -> ColorTargetState {
    ColorTargetState { format, blend: Some(BlendState::Replace), write_mask: COLOR_WRITES_ALL }
}

/// One sample per pixel.
pub open spec fn mesh_multisample() -> MultisampleState {
    MultisampleState { count: 1, mask: ALL_SAMPLES, alpha_to_coverage_enabled: false }
}

/// The camera transform: a uniform buffer at binding 0 that only the vertex
/// stage sees, bound whole and at a fixed offset.
pub open spec fn camera_binding() -> BindGroupLayoutEntry {
    BindGroupLayoutEntry {
        binding: CAMERA_BINDING,
        visibility: STAGE_VERTEX,
        ty: BufferBindingType::Uniform,
        has_dynamic_offset: false,
        min_binding_size: None,
    }
}

impl RenderPipelineDescriptor {
    /// The pipeline that draws the mesh onto a surface of the given format:
    /// vertices of type [`Vertex`], one after another; the primitives of
    /// `mesh_primitive()`; the target of `mesh_target(format)`; no depth or
    /// stencil test; one sample per pixel; the camera transform at
    /// `camera_binding()`.
    pub fn mesh(format: SurfaceFormat) -> (pipeline: Self)
        ensures
            pipeline.vertex.array_stride == Vertex::spec_size(),
            pipeline.vertex.step_mode == VertexStepMode::Vertex,
            pipeline.vertex.attributes@ == vertex_attributes(),
            pipeline.fragment == mesh_target(format),
            pipeline.primitive == mesh_primitive(),
            !pipeline.depth_stencil,
            pipeline.multisample == mesh_multisample(),
            pipeline.camera == camera_binding(),
    {
        RenderPipelineDescriptor {
            vertex: Vertex::layout(),
            fragment: ColorTargetState {
                format,
                blend: Some(BlendState::Replace),
                write_mask: COLOR_WRITES_ALL,
            },
            primitive: PrimitiveState {
                topology: PrimitiveTopology::TriangleList,
                strip_index_format: None,
                front_face: FrontFace::Ccw,
                cull_mode: Some(Face::Back),
                unclipped_depth: false,
                polygon_mode: PolygonMode::Fill,
                conservative: false,
            },
            depth_stencil: false,
            multisample: MultisampleState {
                count: 1,
                mask: ALL_SAMPLES,
                alpha_to_coverage_enabled: false,
            },
            camera: BindGroupLayoutEntry {
                binding: CAMERA_BINDING,
                visibility: STAGE_VERTEX,
                ty: BufferBindingType::Uniform,
                has_dynamic_offset: false,
                min_binding_size: None,
            },
        }
    }
}

} // verus!
