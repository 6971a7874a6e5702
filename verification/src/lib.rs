//! The core of a small real-time rendering sandbox: typed buffers, the
//! vertex and uniform formats, the configuration of the surface, and the
//! decisions of the frame loop.
//!
//! Nothing here talks to a device or a window. The library is told what
//! happened (the window has a new size, the surface handed out an image
//! or failed to) and answers with plain data that says what to do (the
//! configuration for the surface, the bytes to write into a buffer, the
//! render pass to record). Numbers with a fraction pass through as bit
//! patterns.
pub mod buffer;
pub mod camera;
pub mod client;
pub mod error;
pub mod pipeline;
pub mod pod;
pub mod renderer;
pub mod surface;
pub mod vertex;
pub mod window;
