//! The frame loop's decisions: what an event asks for, and what becomes of
//! a frame.
use crate::buffer::BufferWrite;
use crate::camera::{CameraBufferData, Direction};
use crate::error::{Recovery, SurfaceError};
use crate::pod::Pod;
use crate::renderer::{
    camera_state, mesh_pass, resized_state, PresentableFrame, Renderer, RendererState,
};
use crate::surface::{Resolution, SurfaceConfiguration};
use crate::window::{new_size, ControlFlow, ElementState, Window, WindowEvent};
use vstd::prelude::*;

verus! {

/// An event of the event loop.
#[derive(Clone, Copy, Debug, PartialEq, Eq, Structural)]
pub enum Event {
    /// An event of the window with the given number.
    WindowEvent { window_id: u64, event: WindowEvent },
    /// All events that were waiting have been handed out.
    MainEventsCleared,
    /// The window has to be drawn again.
    RedrawRequested,
    /// Anything else.
    Other,
}

/// A change of what the camera shows: move the camera if `motion` says
/// so, then work out the transform for `viewport` and upload it at the
/// start of the camera uniform.
#[derive(Clone, Copy, Debug, PartialEq, Eq, Structural)]
pub struct CameraUpdate {
    pub motion: Option<Direction>,
    /// The width and height the transform is worked out for.
    pub viewport: Resolution,
}

/// What to do about the next frame.
#[derive(Clone, Copy, Debug, PartialEq, Eq, Structural)]
pub enum Redraw {
    /// Nothing.
    Idle,
    /// Ask the window to be drawn again.
    Request,
    /// Draw it now: ask the surface for its next image and call `render`.
    Render,
}

/// What the event loop does after an event.
#[derive(Clone, Copy, Debug, PartialEq, Eq, Structural)]
pub struct Reaction {
    /// The configuration to hand to the surface, if it has to be
    /// configured again.
    pub reconfigure: Option<SurfaceConfiguration>,
    /// The change of what the camera shows, if there is one.
    pub camera: Option<CameraUpdate>,
    pub redraw: Redraw,
}

/// What becomes of a frame.
#[derive(Debug, PartialEq, Eq, Structural)]
pub enum FrameStep {
    /// There is an image: record the pass of the frame, let the overlay
    /// add its own, then finish the frame.
    Draw(PresentableFrame),
    /// The frame is dropped and the surface configured again.
    Reconfigure(SurfaceConfiguration),
    /// The frame is dropped.
    Skip,
    /// The process ends.
    Terminate,
}

/// The motion of the camera that an event of the window asks for: the one
/// that belongs to the key, where a key with a motion went down.
pub open spec fn motion(event: WindowEvent) -> Option<Direction> {
    match event {
        WindowEvent::KeyboardInput { state: ElementState::Pressed, key: Some(key) } => {
            Direction::spec_from_key(key)
        },
        _ => None,
    }
}

/// The change of what the camera shows that an event of the window asks
/// for, with the renderer as the event left it. A key that moves the
/// camera asks for its motion and a fresh transform; a new size asks for a
/// fresh transform; nothing else asks for anything. The transform is
/// always worked out for the size of the surface, width first.
pub open spec fn camera_update(state: RendererState, event: WindowEvent) -> Option<CameraUpdate> {
    if motion(event) is Some || new_size(event) is Some {
        Some(CameraUpdate { motion: motion(event), viewport: state.surface_config.spec_extent() })
    } else {
        None
    }
}

/// What becomes of a frame, given what came of asking the surface for its
/// next image.
pub open spec fn frame_step(state: RendererState, acquired: Result<(), SurfaceError>) -> FrameStep {
    match acquired {
        Ok(_) => FrameStep::Draw(PresentableFrame::spec_of(mesh_pass(state))),
        Err(error) => match error.spec_recovery() {
            Recovery::Reconfigure => FrameStep::Reconfigure(state.surface_config),
            Recovery::Skip => FrameStep::Skip,
            Recovery::Terminate => FrameStep::Terminate,
        },
    }
}

/// The renderer after an event of the window.
pub open spec fn state_after(state: RendererState, event: WindowEvent) -> RendererState {
    match new_size(event) {
        Some(size) => resized_state(state, size),
        None => state,
    }
}

/// The sandbox: a window and the renderer that draws into it.
pub struct Client {
    pub window: Window,
    pub renderer: Renderer,
}

impl Client {
    /// The client is in order, and no frame is under way.
    pub open spec fn ready(&self) -> bool {
        self.renderer.wf() && !self.renderer@.in_frame
    }

    /// The number of the window.
    pub open spec fn spec_window_id(&self) -> u64 {
        self.window.spec_id()
    }

    /// Puts a window and its renderer together.
    pub fn init(window: Window, renderer: Renderer) -> (client: Self)
        ensures
            client.window == window,
            client.renderer == renderer,
    {
        Client { window, renderer }
    }

    /// The change of what the camera shows that an event of the window
    /// asks for.
    pub fn update(&self, event: &WindowEvent) -> (update: Option<CameraUpdate>)
        ensures
            update == camera_update(self.renderer@, *event),
    {
        match event {
            WindowEvent::KeyboardInput { state: ElementState::Pressed, key: Some(key) } => {
                match Direction::from_key(*key) {
                    Some(direction) => Some(
                        CameraUpdate {
                            motion: Some(direction),
                            viewport: self.renderer.viewport(),
                        },
                    ),
                    None => None,
                }
            },
            WindowEvent::Resized(_) | WindowEvent::ScaleFactorChanged { .. } => Some(
                CameraUpdate { motion: None, viewport: self.renderer.viewport() },
            ),
            _ => None,
        }
    }

    /// Takes the transform that was worked out for a camera update and
    /// gives the write that uploads it.
    pub fn upload_camera(&mut self, mvp: [[u32; 4]; 4]) -> (write: BufferWrite)
        requires
            old(self).renderer.wf(),
        ensures
            final(self).renderer.wf(),
            final(self).window == old(self).window,
            final(self).renderer@ == camera_state(old(self).renderer@, mvp),
            write.offset == 0,
            write.data@ == (CameraBufferData { mvp }).bytes(),
    {
        self.renderer.update_camera(mvp)
    }

    /// Decides what becomes of a frame, given what came of asking the
    /// surface for its next image. With an image the frame is under way.
    /// Without one the frame is dropped; a lost or outdated surface is
    /// configured again with the configuration it had, a device out of
    /// memory ends the process, and after anything else the next frame is
    /// tried as if nothing had happened.
    pub fn render(&mut self, acquired: Result<(), SurfaceError>) -> (step: FrameStep)
        requires
            old(self).ready(),
        ensures
            final(self).renderer.wf(),
            final(self).window == old(self).window,
            step == frame_step(old(self).renderer@, acquired),
            final(self).renderer@ == (RendererState {
                in_frame: acquired is Ok,
                ..old(self).renderer@
            }),
    {
        match self.renderer.start_frame(acquired) {
            Ok(frame) => FrameStep::Draw(frame),
            Err(error) => match error.recovery() {
                Recovery::Reconfigure => FrameStep::Reconfigure(self.renderer.surface_config()),
                Recovery::Skip => FrameStep::Skip,
                Recovery::Terminate => FrameStep::Terminate,
            },
        }
    }

    /// Reacts to an event of the event loop. An event of this window goes
    /// to the window and then to the camera; an event of another window
    /// is not ours. When all waiting events are handed out, the window is
    /// asked to be drawn again, and when it has to be drawn, it is.
    pub fn dispatch(&mut self, event: &Event, control_flow: &mut ControlFlow) -> (reaction:
        Reaction)
        requires
            old(self).ready(),
        ensures
            final(self).ready(),
            final(self).window == old(self).window,
            match *event {
                Event::WindowEvent { window_id, event } if window_id == old(
                    self,
                ).spec_window_id() => {
                    &&& final(self).renderer@ == state_after(old(self).renderer@, event)
                    &&& *final(control_flow) == if event == WindowEvent::CloseRequested {
                        ControlFlow::Exit
                    } else {
                        *old(control_flow)
                    }
                    &&& reaction.reconfigure == match new_size(event) {
                        Some(_) => Some(final(self).renderer@.surface_config),
                        None => None,
                    }
                    &&& reaction.camera == camera_update(final(self).renderer@, event)
                    &&& reaction.redraw == Redraw::Idle
                },
                _ => {
                    &&& final(self).renderer@ == old(self).renderer@
                    &&& *final(control_flow) == *old(control_flow)
                    &&& reaction.reconfigure is None
                    &&& reaction.camera is None
                    &&& reaction.redraw == match *event {
                        Event::MainEventsCleared => Redraw::Request,
                        Event::RedrawRequested => Redraw::Render,
                        _ => Redraw::Idle,
                    }
                },
            },
    {
        match event {
            Event::WindowEvent { window_id, event } => {
                if *window_id == self.window.id() {
                    let reconfigure = self.window.handle_window_events(
                        event,
                        control_flow,
                        &mut self.renderer,
                    );
                    let camera = self.update(event);
                    Reaction { reconfigure, camera, redraw: Redraw::Idle }
                } else {
                    Reaction { reconfigure: None, camera: None, redraw: Redraw::Idle }
                }
            },
            Event::MainEventsCleared => Reaction {
                reconfigure: None,
                camera: None,
                redraw: Redraw::Request,
            },
            Event::RedrawRequested => Reaction {
                reconfigure: None,
                camera: None,
                redraw: Redraw::Render,
            },
            Event::Other => Reaction { reconfigure: None, camera: None, redraw: Redraw::Idle },
        }
    }

    /// The window.
    pub fn window(&self) -> (window: &Window)
        ensures
            *window == self.window,
    {
        &self.window
    }

    /// The window, to change it.
    pub fn window_mut(&mut self) -> (window: &mut Window)
        ensures
            *window == old(self).window,
            final(self).window == *final(window),
            final(self).renderer == old(self).renderer,
    {
        &mut self.window
    }

    /// The number of the window.
    pub fn window_id(&self) -> (id: u64)
        ensures
            id == self.spec_window_id(),
    {
        self.window.id()
    }
}

/// After a surface error that calls for it, the surface is configured
/// again with the very configuration the renderer holds, the renderer is
/// as it was, and the next frame can start: if the surface then hands out
/// an image, the frame is drawn.
pub proof fn lemma_lost_surface_recovers(state: RendererState, error: SurfaceError)
    requires
        error == SurfaceError::Lost || error == SurfaceError::Outdated,
    ensures
        frame_step(state, Err(error)) == FrameStep::Reconfigure(state.surface_config),
        frame_step(state, Ok(())) == FrameStep::Draw(PresentableFrame::spec_of(mesh_pass(state))),
{
}

/// Only a device out of memory ends the process; a timeout costs one
/// frame and nothing else.
pub proof fn lemma_fatal_only_out_of_memory(state: RendererState, acquired: Result<(), SurfaceError>)
    ensures
        frame_step(state, acquired) == FrameStep::Terminate <==> acquired == Err::<
            (),
            SurfaceError,
        >(SurfaceError::OutOfMemory),
        acquired == Err::<(), SurfaceError>(SurfaceError::Timeout) ==> frame_step(state, acquired)
            == FrameStep::Skip,
{
}

} // verus!
