//! What can go wrong while the renderer starts or draws, and what to do
//! about it.
use vstd::prelude::*;
use vstd::std_specs::convert::FromSpecImpl;

verus! {

/// Why the surface did not hand out its next image.
#[derive(Clone, Copy, Debug, PartialEq, Eq, Structural)]
pub enum SurfaceError {
    /// The image did not become available in time.
    Timeout,
    /// The surface has changed and has to be configured again.
    Outdated,
    /// The surface was lost and has to be configured again.
    Lost,
    /// The device is out of memory.
    OutOfMemory,
}

/// What the frame loop does after a failure.
#[derive(Clone, Copy, Debug, PartialEq, Eq, Structural)]
pub enum Recovery {
    /// Drop this frame, configure the surface again, and go on.
    Reconfigure,
    /// Drop this frame and try again at the next one.
    Skip,
    /// Give up: the process ends.
    Terminate,
}

/// An error of the renderer.
#[derive(Clone, Copy, Debug, PartialEq, Eq, Structural)]
pub enum RendererError {
    /// No adapter is compatible with the surface.
    AdapterNotFound,
    /// The adapter refused to hand out a device.
    RequestDeviceError,
    /// The surface did not hand out its next image.
    SurfaceError(SurfaceError),
}

/// Any error of the sandbox.
#[derive(Clone, Copy, Debug, PartialEq, Eq, Structural)]
pub enum Error {
    Render(RendererError),
}

impl SurfaceError {
    /// A lost or outdated surface is configured again, a device out of
    /// memory ends the process, and anything else costs one frame.
    pub open spec fn spec_recovery(self) -> Recovery {
        match self {
            SurfaceError::Lost | SurfaceError::Outdated => Recovery::Reconfigure,
            SurfaceError::OutOfMemory => Recovery::Terminate,
            SurfaceError::Timeout => Recovery::Skip,
        }
    }

    /// What the frame loop does after this failure.
    pub fn recovery(self) -> (recovery: Recovery)
        ensures
            recovery == self.spec_recovery(),
    {
        match self {
            SurfaceError::Lost | SurfaceError::Outdated => Recovery::Reconfigure,
            SurfaceError::OutOfMemory => Recovery::Terminate,
            SurfaceError::Timeout => Recovery::Skip,
        }
    }
}

impl RendererError {
    /// A failure to start is final; a failure of the surface is handled as
    /// the surface error says.
    pub open spec fn spec_recovery(self) -> Recovery {
        match self {
            RendererError::AdapterNotFound => Recovery::Terminate,
            RendererError::RequestDeviceError => Recovery::Terminate,
            RendererError::SurfaceError(error) => error.spec_recovery(),
        }
    }

    /// What to do after this error.
    pub fn recovery(self) -> (recovery: Recovery)
        ensures
            recovery == self.spec_recovery(),
    {
        match self {
            RendererError::AdapterNotFound => Recovery::Terminate,
            RendererError::RequestDeviceError => Recovery::Terminate,
            RendererError::SurfaceError(error) => error.recovery(),
        }
    }

    /// Whether the process cannot go on after this error.
    pub fn is_fatal(self) -> (fatal: bool)
        ensures
            fatal == (self.spec_recovery() == Recovery::Terminate),
    {
        match self.recovery() {
            Recovery::Terminate => true,
            _ => false,
        }
    }
}

impl From<RendererError> for Error {
    fn from(error: RendererError) -> (result: Self) {
        Error::Render(error)
    }
}

impl FromSpecImpl<RendererError> for Error {
    open spec fn obeys_from_spec() -> bool {
        true
    }

    open spec fn from_spec(error: RendererError) -> Self {
        Error::Render(error)
    }
}

impl From<SurfaceError> for RendererError {
    fn from(error: SurfaceError) -> (result: Self) {
        RendererError::SurfaceError(error)
    }
}

impl FromSpecImpl<SurfaceError> for RendererError {
    open spec fn obeys_from_spec() -> bool {
        true
    }

    open spec fn from_spec(error: SurfaceError) -> Self {
        RendererError::SurfaceError(error)
    }
}

} // verus!
