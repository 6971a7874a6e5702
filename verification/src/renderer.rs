//! The renderer: what the device holds for the sandbox, and the decisions of
//! one frame.
//!
//! A [`Renderer`] owns no device. It is told what the device answered and
//! says what to do next, as plain data: the configuration of the surface,
//! the bytes of each buffer, the one render pass of a frame.
use crate::buffer::{Buffer, BufferUsages, BufferWrite, COPY_DST, INDEX, UNIFORM, VERTEX};
use crate::camera::CameraBufferData;
use crate::error::{RendererError, SurfaceError};
use crate::pipeline::{IndexFormat, RenderPipelineDescriptor, CAMERA_GROUP, VERTEX_SLOT};
use crate::pod::{encode_all, lemma_encode_one, Pod};
use crate::surface::{Resolution, SurfaceConfiguration, SurfaceFormat};
use crate::vertex::{pentagon_vertices, Mesh, Vertex, INDICES};
use crate::window::Window;
use vstd::prelude::*;

verus! {

/// The red of the background, the bit pattern of the double-precision
/// number 0.2.
pub const CLEAR_RED: u64 = 0x3FC9_9999_9999_999A;

/// The green of the background: 0.6.
pub const CLEAR_GREEN: u64 = 0x3FE3_3333_3333_3333;

/// The blue of the background: 0.5.
pub const CLEAR_BLUE: u64 = 0x3FE0_0000_0000_0000;

/// The alpha of the background: 1.
pub const CLEAR_ALPHA: u64 = 0x3FF0_0000_0000_0000;

/// A colour: four double-precision numbers, held as bit patterns.
#[derive(Clone, Copy, Debug, PartialEq, Eq, Structural)]
pub struct Color {
    pub r: u64,
    pub g: u64,
    pub b: u64,
    pub a: u64,
}

/// Which adapter to prefer where there are several.
#[derive(Clone, Copy, Debug, PartialEq, Eq, Structural)]
pub enum PowerPreference {
    LowPower,
    HighPerformance,
}

/// What is asked of an adapter.
#[derive(Clone, Copy, Debug, PartialEq, Eq, Structural)]
pub struct RequestAdapterOptions {
    pub power_preference: PowerPreference,
    pub force_fallback_adapter: bool,
    /// Whether the adapter has to be able to present to the surface.
    pub compatible_surface: bool,
}

/// What came of asking the adapter for a device.
#[derive(Clone, Copy, Debug, PartialEq, Eq, Structural)]
pub enum DeviceOutcome {
    /// The adapter refused.
    Rejected,
    /// The adapter handed out a device, and the surface supports `formats`
    /// presentation formats with it.
    Granted { formats: usize },
}

/// What came of asking for an adapter.
#[derive(Clone, Copy, Debug, PartialEq, Eq, Structural)]
pub enum AdapterOutcome {
    /// There is no adapter that fits.
    NotFound,
    /// There is one, and it was asked for a device.
    Found(DeviceOutcome),
}

/// One indexed draw call.
#[derive(Clone, Copy, Debug, PartialEq, Eq, Structural)]
pub struct IndexedDraw {
    pub first_index: u32,
    pub index_count: u32,
    pub base_vertex: i32,
    pub first_instance: u32,
    pub instance_count: u32,
}

/// The render pass that draws the mesh: clear the target, bind the
/// pipeline, the camera, the vertices and the indices, and draw once.
#[derive(Clone, Copy, Debug, PartialEq, Eq, Structural)]
pub struct RenderPass {
    /// The colour the target is cleared to.
    pub clear_color: Color,
    /// Whether what is drawn is kept.
    pub store: bool,
    /// The bind group the camera transform is bound to.
    pub camera_group: u32,
    /// The slot the vertex buffer is bound to.
    pub vertex_slot: u32,
    pub index_format: IndexFormat,
    pub draw: IndexedDraw,
}

/// A frame that has been started and waits to be presented. It names the
/// render pass that draws the mesh; whoever holds it may record more passes
/// behind that one, and gives it back to `finish_frame` when all are
/// recorded.
#[derive(Debug, PartialEq, Eq, Structural)]
pub struct PresentableFrame {
    pass: RenderPass,
}

impl PresentableFrame {
    /// The frame whose mesh is drawn by `pass`.
    pub closed spec fn spec_of(pass: RenderPass) -> PresentableFrame {
        PresentableFrame { pass }
    }

    /// The render pass that draws the mesh.
    pub closed spec fn spec_pass(&self) -> RenderPass {
        self.pass
    }

    /// The render pass that draws the mesh: it is recorded first, so that
    /// whatever follows is drawn on top.
    pub fn pass(&self) -> (pass: RenderPass)
        ensures
            pass == self.spec_pass(),
            *self == Self::spec_of(pass),
    {
        self.pass
    }
}

/// What a renderer amounts to.
pub struct RendererState {
    /// What the surface is configured with.
    pub surface_config: SurfaceConfiguration,
    /// The number of presentation formats the surface supports.
    pub formats: nat,
    /// The size of the window, as it was last reported.
    pub resolution: Resolution,
    /// The vertices in the vertex buffer.
    pub vertices: Seq<Vertex>,
    /// The indices in the index buffer.
    pub indices: Seq<u16>,
    /// The camera transform in the uniform buffer.
    pub uniform: CameraBufferData,
    /// The camera transform on the host.
    pub camera_projection: CameraBufferData,
    /// The colour of the background.
    pub clear_color: Color,
    /// Whether a frame has been started and not yet finished.
    pub in_frame: bool,
}

/// The colour of the background.
pub open spec fn background() -> Color {
    Color { r: CLEAR_RED, g: CLEAR_GREEN, b: CLEAR_BLUE, a: CLEAR_ALPHA }
}

/// The adapter that is asked for: one that can present to the surface, is
/// no fallback, and saves power rather than time.
pub open spec fn preferred_adapter() -> RequestAdapterOptions {
    RequestAdapterOptions {
        power_preference: PowerPreference::LowPower,
        force_fallback_adapter: false,
        compatible_surface: true,
    }
}

/// The renderer right after it was made for a window of the given size
/// whose surface supports `formats` formats, with the given camera
/// transform and mesh: the surface in the first of its formats at that
/// size, the mesh in the vertex and index buffers, the transform in the
/// uniform, and no frame under way.
pub open spec fn initial_state(
    resolution: Resolution,
    formats: nat,
    mvp: [[u32; 4]; 4],
    vertices: Seq<Vertex>,
    indices: Seq<u16>,
) -> RendererState {
    RendererState {
        surface_config: SurfaceConfiguration::spec_initial(
            SurfaceFormat { index: 0 },
            resolution,
        ),
        formats,
        resolution,
        vertices,
        indices,
        uniform: CameraBufferData { mvp },
        camera_projection: CameraBufferData { mvp },
        clear_color: background(),
        in_frame: false,
    }
}

/// The error that keeps a renderer from being made: no adapter, or no
/// device from the adapter that was found.
pub open spec fn startup_error(outcome: AdapterOutcome) -> RendererError
    recommends
        !(outcome matches AdapterOutcome::Found(DeviceOutcome::Granted { .. })),
{
    match outcome {
        AdapterOutcome::NotFound => RendererError::AdapterNotFound,
        AdapterOutcome::Found(_) => RendererError::RequestDeviceError,
    }
}

/// The number of presentation formats the surface supports, where a
/// device was handed out.
pub open spec fn supported_formats(outcome: AdapterOutcome) -> nat {
    match outcome {
        AdapterOutcome::Found(DeviceOutcome::Granted { formats }) => formats as nat,
        _ => 0,
    }
}

/// The renderer after its window got the requested size.
pub open spec fn resized_state(state: RendererState, requested: Resolution) -> RendererState {
    RendererState {
        surface_config: state.surface_config.spec_resized(requested),
        resolution: requested,
        ..state
    }
}

/// The renderer after the camera transform was replaced: the host copy and
/// the uniform both hold the new one.
pub open spec fn camera_state(state: RendererState, mvp: [[u32; 4]; 4]) -> RendererState {
    RendererState {
        uniform: CameraBufferData { mvp },
        camera_projection: CameraBufferData { mvp },
        ..state
    }
}

/// The render pass of a frame: the target is cleared to the background and
/// the whole index buffer is drawn once, as 16-bit indices, with no
/// offset into the vertices and a single instance.
pub open spec fn mesh_pass(state: RendererState) -> RenderPass {
    RenderPass {
        clear_color: state.clear_color,
        store: true,
        camera_group: CAMERA_GROUP,
        vertex_slot: VERTEX_SLOT,
        index_format: IndexFormat::Uint16,
        draw: IndexedDraw {
            first_index: 0,
            index_count: state.indices.len() as u32,
            base_vertex: 0,
            first_instance: 0,
            instance_count: 1,
        },
    }
}

/// What always holds of a renderer: the surface has the size of the
/// window, or the smallest extent where the window has less; frames are
/// drawn into and shown one per refresh, in a format the surface
/// supports; one draw call can count the indices; the uniform holds the
/// camera transform of the host.
pub open spec fn in_order(state: RendererState) -> bool {
    &&& state.surface_config == SurfaceConfiguration::spec_initial(
        state.surface_config.format,
        state.resolution,
    )
    &&& state.surface_config.format.index < state.formats
    &&& state.indices.len() <= u32::MAX
    &&& state.uniform == state.camera_projection
    &&& state.clear_color == background()
}

/// The renderer of the sandbox.
pub struct Renderer {
    surface_config: SurfaceConfiguration,
    formats: usize,
    resolution: Resolution,
    vertex_buffer: Buffer<Vertex>,
    index_buffer: Buffer<u16>,
    camera_buffer: Buffer<CameraBufferData>,
    camera_projection: CameraBufferData,
    clear_color: Color,
    in_frame: bool,
}

impl View for Renderer {
    type V = RendererState;

    closed spec fn view(&self) -> RendererState {
        RendererState {
            surface_config: self.surface_config,
            formats: self.formats as nat,
            resolution: self.resolution,
            vertices: self.vertex_buffer.spec_elements(),
            indices: self.index_buffer.spec_elements(),
            uniform: self.camera_buffer.spec_elements()[0],
            camera_projection: self.camera_projection,
            clear_color: self.clear_color,
            in_frame: self.in_frame,
        }
    }
}

impl Renderer {
    /// Each buffer holds the bytes of its elements and has the usage it
    /// was made with: the vertices for drawing and copying into, the
    /// indices for drawing, the one camera transform as a uniform to copy
    /// into.
    pub closed spec fn buffers_wf(&self) -> bool {
        &&& self.vertex_buffer.wf()
        &&& self.vertex_buffer.spec_usage().bits == VERTEX | COPY_DST
        &&& self.index_buffer.wf()
        &&& self.index_buffer.spec_usage().bits == INDEX
        &&& self.camera_buffer.wf()
        &&& self.camera_buffer.spec_len() == 1
        &&& self.camera_buffer.spec_usage().bits == UNIFORM | COPY_DST
    }

    /// The renderer is in order.
    pub open spec fn wf(&self) -> bool {
        self.buffers_wf() && in_order(self@)
    }

    /// The adapter to ask for. The preference for low power is a default:
    /// a caller that wants speed rather than battery life changes
    /// `power_preference` before it asks.
    pub fn adapter_options() -> (options: RequestAdapterOptions)
        ensures
            options == preferred_adapter(),
    {
        RequestAdapterOptions {
            power_preference: PowerPreference::LowPower,
            force_fallback_adapter: false,
            compatible_surface: true,
        }
    }

    /// Makes the renderer for `window` that draws the pentagon, given what
    /// came of asking for an adapter and a device, and the camera transform
    /// to start with.
    ///
    /// Without an adapter there is no renderer, nor without a device. With
    /// both, the surface gets the first format it supports.
    pub fn new(window: &Window, outcome: AdapterOutcome, mvp: [[u32; 4]; 4]) -> (result: Result<
        Renderer,
        RendererError,
    >)
        requires
            outcome matches AdapterOutcome::Found(DeviceOutcome::Granted { formats })
                ==> formats > 0,
        ensures
            result is Ok <==> outcome matches AdapterOutcome::Found(
                DeviceOutcome::Granted { .. },
            ),
            result matches Ok(renderer) ==> {
                &&& renderer.wf()
                &&& renderer@ == initial_state(
                    window.spec_resolution(),
                    supported_formats(outcome),
                    mvp,
                    pentagon_vertices(),
                    INDICES@,
                )
            },
            result matches Err(error) ==> error == startup_error(outcome),
    {
        let mesh = Mesh::pentagon();
        Self::with_mesh(window, outcome, mvp, &mesh)
    }

    /// Makes the renderer for `window` that draws `mesh`, given what came
    /// of asking for an adapter and a device, and the camera transform to
    /// start with.
    ///
    /// Without an adapter there is no renderer, nor without a device. With
    /// both, the surface gets the first format it supports.
    pub fn with_mesh(
        window: &Window,
        outcome: AdapterOutcome,
        mvp: [[u32; 4]; 4],
        mesh: &Mesh,
    ) -> (result: Result<Renderer, RendererError>)
        requires
            outcome matches AdapterOutcome::Found(DeviceOutcome::Granted { formats })
                ==> formats > 0,
            mesh.indices@.len() <= u32::MAX,
        ensures
            result is Ok <==> outcome matches AdapterOutcome::Found(
                DeviceOutcome::Granted { .. },
            ),
            result matches Ok(renderer) ==> {
                &&& renderer.wf()
                &&& renderer@ == initial_state(
                    window.spec_resolution(),
                    supported_formats(outcome),
                    mvp,
                    mesh.vertices@,
                    mesh.indices@,
                )
            },
            result matches Err(error) ==> error == startup_error(outcome),
    {
        let device = match outcome {
            AdapterOutcome::NotFound => {
                return Err(RendererError::AdapterNotFound);
            },
            AdapterOutcome::Found(device) => device,
        };
        let formats = match device {
            DeviceOutcome::Rejected => {
                return Err(RendererError::RequestDeviceError);
            },
            DeviceOutcome::Granted { formats } => formats,
        };
        let resolution = *window.resolution();
        let surface_config = SurfaceConfiguration::initial(SurfaceFormat { index: 0 }, resolution);

        let camera_projection = CameraBufferData::new_with_data(mvp);
        let mut uniform: Vec<CameraBufferData> = Vec::new();
        uniform.push(camera_projection);
        let camera_buffer = Buffer::new(
            uniform.as_slice(),
            BufferUsages::from_bits(UNIFORM).union(BufferUsages::from_bits(COPY_DST)),
        );
        proof {
            assert(uniform@ =~= seq![camera_projection]);
        }

        let vertex_buffer = Buffer::new(
            mesh.vertices.as_slice(),
            BufferUsages::from_bits(VERTEX).union(BufferUsages::from_bits(COPY_DST)),
        );
        let index_buffer = Buffer::new(mesh.indices.as_slice(), BufferUsages::from_bits(INDEX));

        Ok(
            Renderer {
                surface_config,
                formats,
                resolution,
                vertex_buffer,
                index_buffer,
                camera_buffer,
                camera_projection,
                clear_color: Color {
                    r: CLEAR_RED,
                    g: CLEAR_GREEN,
                    b: CLEAR_BLUE,
                    a: CLEAR_ALPHA,
                },
                in_frame: false,
            },
        )
    }

    /// Starts a frame, given what came of asking the surface for its next
    /// image. With an image, the frame is under way and comes back; it is
    /// not presented before `finish_frame`, so that more passes can follow
    /// the mesh on the same image. Without one, the error comes back and
    /// nothing changes.
    pub fn start_frame(&mut self, acquired: Result<(), SurfaceError>) -> (result: Result<
        PresentableFrame,
        RendererError,
    >)
        requires
            old(self).wf(),
            !old(self)@.in_frame,
        ensures
            final(self).wf(),
            match acquired {
                Ok(_) => {
                    &&& result == Ok::<PresentableFrame, RendererError>(
                        PresentableFrame::spec_of(mesh_pass(old(self)@)),
                    )
                    &&& result->Ok_0.spec_pass() == mesh_pass(old(self)@)
                    &&& final(self)@ == (RendererState { in_frame: true, ..old(self)@ })
                },
                Err(error) => {
                    &&& result == Err::<PresentableFrame, RendererError>(
                        RendererError::SurfaceError(error),
                    )
                    &&& final(self)@ == old(self)@
                },
            },
    {
        match acquired {
            Ok(_) => {
                let count = self.index_buffer.len();
                self.in_frame = true;
                Ok(
                    PresentableFrame {
                        pass: RenderPass {
                            clear_color: self.clear_color,
                            store: true,
                            camera_group: CAMERA_GROUP,
                            vertex_slot: VERTEX_SLOT,
                            index_format: IndexFormat::Uint16,
                            draw: IndexedDraw {
                                first_index: 0,
                                index_count: count as u32,
                                base_vertex: 0,
                                first_instance: 0,
                                instance_count: 1,
                            },
                        },
                    },
                )
            },
            Err(error) => Err(RendererError::SurfaceError(error)),
        }
    }

    /// Finishes the frame under way and takes it out of circulation: what
    /// was recorded for it is submitted as one, and then the image is
    /// presented.
    pub fn finish_frame(&mut self, frame: PresentableFrame)
        requires
            old(self).wf(),
            old(self)@.in_frame,
        ensures
            final(self).wf(),
            final(self)@ == (RendererState { in_frame: false, ..old(self)@ }),
    {
        let _ = frame;
        self.in_frame = false;
    }

    /// Takes note of the new size of the window and gives the
    /// configuration to hand to the surface: the new size, with each side
    /// at least the smallest extent.
    pub fn resize(&mut self, new_width: u32, new_height: u32) -> (config: SurfaceConfiguration)
        requires
            old(self).wf(),
            !old(self)@.in_frame,
        ensures
            final(self).wf(),
            final(self)@ == resized_state(
                old(self)@,
                Resolution { width: new_width, height: new_height },
            ),
            config == final(self)@.surface_config,
    {
        self.resolution = Resolution::new(new_width, new_height);
        self.surface_config = self.surface_config.resized(self.resolution);
        self.surface_config
    }

    /// Replaces the camera transform, on the host and in the uniform, and
    /// gives the write that brings the device up to date: the whole
    /// transform, from the first byte of the uniform on.
    pub fn update_camera(&mut self, mvp: [[u32; 4]; 4]) -> (write: BufferWrite)
        requires
            old(self).wf(),
        ensures
            final(self).wf(),
            final(self)@ == camera_state(old(self)@, mvp),
            write.offset == 0,
            write.data@ == (CameraBufferData { mvp }).bytes(),
    {
        self.camera_projection.set_mvp(mvp);
        let mut uniform: Vec<CameraBufferData> = Vec::new();
        uniform.push(self.camera_projection);
        proof {
            lemma_encode_one(self.camera_projection);
            assert(uniform@ =~= seq![self.camera_projection]);
        }
        let write = self.camera_buffer.update(uniform.as_slice(), 0);
        write
    }

    /// What the surface is configured with.
    pub fn surface_config(&self) -> (config: SurfaceConfiguration)
        ensures
            config == self@.surface_config,
    {
        self.surface_config
    }

    /// The number of presentation formats the surface supports. The
    /// format of the surface is one of them.
    pub fn formats(&self) -> (formats: usize)
        requires
            self.wf(),
        ensures
            formats == self@.formats,
            self@.surface_config.format.index < formats,
    {
        self.formats
    }

    /// The size of the window, as it was last reported.
    pub fn resolution(&self) -> (resolution: Resolution)
        ensures
            resolution == self@.resolution,
    {
        self.resolution
    }

    /// The size of what is drawn: that of the surface.
    pub fn viewport(&self) -> (viewport: Resolution)
        ensures
            viewport == self@.surface_config.spec_extent(),
    {
        self.surface_config.extent()
    }

    /// The camera transform on the host.
    pub fn camera_projection(&self) -> (data: CameraBufferData)
        ensures
            data == self@.camera_projection,
    {
        self.camera_projection
    }

    /// The colour of the background.
    pub fn clear_color(&self) -> (color: Color)
        ensures
            color == self@.clear_color,
    {
        self.clear_color
    }

    /// Whether a frame has been started and not yet finished.
    pub fn in_frame(&self) -> (in_frame: bool)
        ensures
            in_frame == self@.in_frame,
    {
        self.in_frame
    }

    /// The vertex buffer.
    pub fn vertex_buffer(&self) -> (buffer: &Buffer<Vertex>)
        requires
            self.wf(),
        ensures
            buffer.wf(),
            buffer.spec_elements() == self@.vertices,
            buffer@ == encode_all(self@.vertices),
            buffer.spec_usage().bits == VERTEX | COPY_DST,
    {
        &self.vertex_buffer
    }

    /// The index buffer.
    pub fn index_buffer(&self) -> (buffer: &Buffer<u16>)
        requires
            self.wf(),
        ensures
            buffer.wf(),
            buffer.spec_elements() == self@.indices,
            buffer@ == encode_all(self@.indices),
            buffer.spec_usage().bits == INDEX,
    {
        &self.index_buffer
    }

    /// The buffer of the camera uniform.
    pub fn camera_buffer(&self) -> (buffer: &Buffer<CameraBufferData>)
        requires
            self.wf(),
        ensures
            buffer.wf(),
            buffer.spec_elements() == seq![self@.uniform],
            buffer@ == self@.uniform.bytes(),
            buffer.spec_usage().bits == UNIFORM | COPY_DST,
    {
        proof {
            assert(self.camera_buffer.spec_elements() =~= seq![self@.uniform]);
            lemma_encode_one(self@.uniform);
        }
        &self.camera_buffer
    }

    /// The render pipeline, for the format of the surface.
    pub fn pipeline(&self) -> (pipeline: RenderPipelineDescriptor)
        ensures
            pipeline.fragment == crate::pipeline::mesh_target(self@.surface_config.format),
            pipeline.primitive == crate::pipeline::mesh_primitive(),
            pipeline.multisample == crate::pipeline::mesh_multisample(),
            pipeline.camera == crate::pipeline::camera_binding(),
            pipeline.vertex.array_stride == Vertex::spec_size(),
            pipeline.vertex.step_mode == crate::vertex::VertexStepMode::Vertex,
            pipeline.vertex.attributes@ == crate::vertex::vertex_attributes(),
            !pipeline.depth_stencil,
    {
        RenderPipelineDescriptor::mesh(self.surface_config.format)
    }
}

/// Resizing the renderer twice to the same size leaves it exactly as
/// resizing it once does.
pub proof fn lemma_resize_twice(state: RendererState, requested: Resolution)
    ensures
        resized_state(resized_state(state, requested), requested) == resized_state(
            state,
            requested,
        ),
{
}

/// However small the requested size, the surface of a resized renderer
/// has an area: a side of 0 becomes 1.
pub proof fn lemma_resize_clamps(state: RendererState, requested: Resolution)
    ensures
        resized_state(state, requested).surface_config.has_area(),
        resized_state(state, requested).surface_config.spec_extent() == requested.spec_clamped(),
        requested == (Resolution { width: 0, height: 0 }) ==> resized_state(
            state,
            requested,
        ).surface_config.spec_extent() == (Resolution { width: 1, height: 1 }),
{
}

/// A resize keeps a renderer in order, and so does a new camera
/// transform.
pub proof fn lemma_order_is_kept(
    state: RendererState,
    requested: Resolution,
    mvp: [[u32; 4]; 4],
)
    requires
        in_order(state),
    ensures
        in_order(resized_state(state, requested)),
        in_order(camera_state(state, mvp)),
{
}

/// The draw call of a frame covers the index buffer exactly, whatever the
/// size of the window and whatever the camera transform: it starts at the
/// first index and counts as many indices as the buffer holds.
pub proof fn lemma_draw_covers_indices(state: RendererState)
    requires
        in_order(state),
    ensures
        mesh_pass(state).draw.first_index == 0,
        mesh_pass(state).draw.index_count == state.indices.len(),
        mesh_pass(state).draw.index_count * u16::spec_size() == encode_all(state.indices).len(),
        mesh_pass(state).draw.first_instance == 0,
        mesh_pass(state).draw.instance_count == 1,
{
    crate::pod::lemma_encode_all_len(state.indices);
}

/// The mesh is made once and never changed: a resize, a new camera
/// transform, the start and the end of a frame all leave the vertex and
/// index buffers as they were.
pub proof fn lemma_mesh_is_never_touched(
    state: RendererState,
    requested: Resolution,
    mvp: [[u32; 4]; 4],
    in_frame: bool,
)
    ensures
        resized_state(state, requested).vertices == state.vertices,
        resized_state(state, requested).indices == state.indices,
        camera_state(state, mvp).vertices == state.vertices,
        camera_state(state, mvp).indices == state.indices,
        (RendererState { in_frame, ..state }).vertices == state.vertices,
        (RendererState { in_frame, ..state }).indices == state.indices,
{
}

} // verus!
