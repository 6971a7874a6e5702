//! The window as the renderer sees it: an identity, a size, and the events
//! that change what is drawn.
use crate::camera::KeyCode;
use crate::renderer::{resized_state, Renderer};
use crate::surface::{Resolution, SurfaceConfiguration};
use vstd::prelude::*;

verus! {

/// Whether the event loop goes on.
#[derive(Clone, Copy, Debug, PartialEq, Eq, Structural)]
pub enum ControlFlow {
    /// Go on at once.
    Poll,
    /// Go on when the next event arrives.
    Wait,
    /// Leave the loop.
    Exit,
}

/// Whether a key went down or came up.
#[derive(Clone, Copy, Debug, PartialEq, Eq, Structural)]
pub enum ElementState {
    Pressed,
    Released,
}

/// An event of one window.
#[derive(Clone, Copy, Debug, PartialEq, Eq, Structural)]
pub enum WindowEvent {
    /// The user asked to close the window.
    CloseRequested,
    /// The window has a new size.
    Resized(Resolution),
    /// The scale factor changed, and with it the size of the window.
    ScaleFactorChanged { new_inner_size: Resolution },
    /// A key went down or came up; `key` says which, where it is known.
    KeyboardInput { state: ElementState, key: Option<KeyCode> },
    /// Anything else.
    Other,
}

/// The size an event gives the window, if it gives one.
pub open spec fn new_size(event: WindowEvent) -> Option<Resolution> {
    match event {
        WindowEvent::Resized(size) => Some(size),
        WindowEvent::ScaleFactorChanged { new_inner_size } => Some(new_inner_size),
        _ => None,
    }
}

/// A window.
#[derive(Clone, Copy, Debug, PartialEq, Eq, Structural)]
pub struct Window {
    id: u64,
    resolution: Resolution,
}

impl Window {
    /// The number that tells this window from others.
    pub closed spec fn spec_id(&self) -> u64 {
        self.id
    }

    /// The size the window was opened with.
    pub closed spec fn spec_resolution(&self) -> Resolution {
        self.resolution
    }

    /// The window with the given number, opened at the given size.
    pub fn new(id: u64, resolution: Resolution) -> (window: Self)
        ensures
            window.spec_id() == id,
            window.spec_resolution() == resolution,
    {
        Window { id, resolution }
    }

    /// The number that tells this window from others.
    pub fn id(&self) -> (id: u64)
        ensures
            id == self.spec_id(),
    {
        self.id
    }

    /// The size the window was opened with.
    pub fn resolution(&self) -> (resolution: &Resolution)
        ensures
            *resolution == self.spec_resolution(),
    {
        &self.resolution
    }

    /// Reacts to an event of this window. A request to close leaves the
    /// event loop. A new size resizes the renderer, and the configuration
    /// to hand to the surface comes back. Nothing else has an effect here.
    pub fn handle_window_events(
        &mut self,
        event: &WindowEvent,
        control_flow: &mut ControlFlow,
        renderer: &mut Renderer,
    ) -> (reconfigure: Option<SurfaceConfiguration>)
        requires
            old(renderer).wf(),
            !old(renderer)@.in_frame,
        ensures
            final(renderer).wf(),
            *final(self) == *old(self),
            *final(control_flow) == if *event == WindowEvent::CloseRequested {
                ControlFlow::Exit
            } else {
                *old(control_flow)
            },
            final(renderer)@ == match new_size(*event) {
                Some(size) => resized_state(old(renderer)@, size),
                None => old(renderer)@,
            },
            reconfigure == match new_size(*event) {
                Some(size) => Some(resized_state(old(renderer)@, size).surface_config),
                None => None,
            },
    {
        match event {
            WindowEvent::CloseRequested => {
                self.on_close();
                *control_flow = ControlFlow::Exit;
                None
            },
            WindowEvent::Resized(size) => Some(renderer.resize(size.width, size.height)),
            WindowEvent::ScaleFactorChanged { new_inner_size } => Some(
                renderer.resize(new_inner_size.width, new_inner_size.height),
            ),
            WindowEvent::KeyboardInput { .. } => None,
            WindowEvent::Other => None,
        }
    }

    /// Called when the user asked to close the window. There is nothing to
    /// release.
    pub fn on_close(&mut self)
        ensures
            *final(self) == *old(self),
    {
    }
}

} // verus!
