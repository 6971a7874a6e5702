//! The configuration of the surface the frames are presented on.
use vstd::prelude::*;

verus! {

/// The smallest width or height a surface can be configured with.
pub const MIN_EXTENT: u32 = 1;

/// The surface's images can be the source of a copy.
pub const TEXTURE_COPY_SRC: u32 = 1;

/// The surface's images can be the destination of a copy.
pub const TEXTURE_COPY_DST: u32 = 2;

/// The surface's images can be sampled.
pub const TEXTURE_BINDING: u32 = 4;

/// The surface's images can be bound as storage.
pub const STORAGE_BINDING: u32 = 8;

/// The surface's images can be drawn into.
pub const RENDER_ATTACHMENT: u32 = 16;

/// A size in physical pixels.
#[derive(Clone, Copy, Debug, PartialEq, Eq, Structural)]
pub struct Resolution {
    pub width: u32,
    pub height: u32,
}

/// A presentation format of the surface, named by its place in the list of
/// formats the surface supports, which starts with the preferred one.
#[derive(Clone, Copy, Debug, PartialEq, Eq, Structural)]
pub struct SurfaceFormat {
    pub index: usize,
}

/// When a finished frame is shown.
#[derive(Clone, Copy, Debug, PartialEq, Eq, Structural)]
pub enum PresentMode {
    AutoVsync,
    AutoNoVsync,
    /// One frame per refresh of the display, in the order presented.
    Fifo,
    FifoRelaxed,
    Immediate,
    Mailbox,
}

/// How the alpha channel of a frame is combined with what lies behind the
/// window.
#[derive(Clone, Copy, Debug, PartialEq, Eq, Structural)]
pub enum CompositeAlphaMode {
    Auto,
    Opaque,
    PreMultiplied,
    PostMultiplied,
    Inherit,
}

/// What a surface is configured with.
#[derive(Clone, Copy, Debug, PartialEq, Eq, Structural)]
pub struct SurfaceConfiguration {
    /// What the images are used for: a set of the texture usage bits above.
    pub usage: u32,
    pub format: SurfaceFormat,
    pub width: u32,
    pub height: u32,
    pub present_mode: PresentMode,
    pub alpha_mode: CompositeAlphaMode,
}

/// The extent a surface gets when `requested` is asked for: `requested`
/// itself, or the smallest extent if it is less.
pub open spec fn clamped_extent(requested: u32) -> u32 {
    if requested < MIN_EXTENT {
        MIN_EXTENT
    } else {
        requested
    }
}

/// The extent a surface gets when `requested` is asked for.
pub fn clamp_extent(requested: u32) -> (extent: u32)
    ensures
        extent == clamped_extent(requested),
{
    if requested < MIN_EXTENT {
        MIN_EXTENT
    } else {
        requested
    }
}

impl Resolution {
    /// The size of `width` by `height` pixels.
    pub fn new(width: u32, height: u32) -> (resolution: Self)
        ensures
            resolution == (Resolution { width, height }),
    {
        Resolution { width, height }
    }

    /// This size with each side raised to the smallest extent if it is
    /// less.
    pub open spec fn spec_clamped(self) -> Resolution {
        Resolution { width: clamped_extent(self.width), height: clamped_extent(self.height) }
    }

    /// This size with each side raised to the smallest extent if it is
    /// less.
    pub fn clamped(self) -> (resolution: Resolution)
        ensures
            resolution == self.spec_clamped(),
    {
        Resolution { width: clamp_extent(self.width), height: clamp_extent(self.height) }
    }
}

impl SurfaceConfiguration {
    /// The configuration a surface starts with: images to draw into, in
    /// the given format, of the requested size with each side at least the
    /// smallest extent, shown one per refresh.
    pub open spec fn spec_initial(format: SurfaceFormat, requested: Resolution) -> Self {
        SurfaceConfiguration {
            usage: RENDER_ATTACHMENT,
            format,
            width: clamped_extent(requested.width),
            height: clamped_extent(requested.height),
            present_mode: PresentMode::Fifo,
            alpha_mode: CompositeAlphaMode::Auto,
        }
    }

    /// The configuration a surface starts with.
    pub fn initial(format: SurfaceFormat, requested: Resolution) -> (config: Self)
        ensures
            config == Self::spec_initial(format, requested),
    {
        SurfaceConfiguration {
            usage: RENDER_ATTACHMENT,
            format,
            width: clamp_extent(requested.width),
            height: clamp_extent(requested.height),
            present_mode: PresentMode::Fifo,
            alpha_mode: CompositeAlphaMode::Auto,
        }
    }

    /// This configuration for a window of the requested size: each side
    /// is the requested one, or the smallest extent if that is less, and
    /// nothing else changes.
    pub open spec fn spec_resized(self, requested: Resolution) -> Self {
        SurfaceConfiguration {
            width: clamped_extent(requested.width),
            height: clamped_extent(requested.height),
            ..self
        }
    }

    /// This configuration for a window of the requested size.
    pub fn resized(self, requested: Resolution) -> (config: Self)
        ensures
            config == self.spec_resized(requested),
    {
        SurfaceConfiguration {
            width: clamp_extent(requested.width),
            height: clamp_extent(requested.height),
            ..self
        }
    }

    /// The size of the images.
    pub open spec fn spec_extent(self) -> Resolution {
        Resolution { width: self.width, height: self.height }
    }

    /// The size of the images.
    pub fn extent(self) -> (extent: Resolution)
        ensures
            extent == self.spec_extent(),
    {
        Resolution { width: self.width, height: self.height }
    }

    /// Whether the images have an area.
    pub open spec fn has_area(self) -> bool {
        self.width >= MIN_EXTENT && self.height >= MIN_EXTENT
    }
}

/// Resizing twice to the same size gives what resizing once gives.
pub proof fn lemma_resize_is_idempotent(config: SurfaceConfiguration, requested: Resolution)
    ensures
        config.spec_resized(requested).spec_resized(requested) == config.spec_resized(requested),
{
}

/// Of two resizes in a row only the second one counts.
pub proof fn lemma_last_resize_wins(
    config: SurfaceConfiguration,
    first: Resolution,
    second: Resolution,
)
    ensures
        config.spec_resized(first).spec_resized(second) == config.spec_resized(second),
{
}

/// A resized surface always has an area: a side of 0 is configured as 1,
/// and any other side as it was requested.
pub proof fn lemma_resize_keeps_area(config: SurfaceConfiguration, requested: Resolution)
    ensures
        config.spec_resized(requested).has_area(),
        requested.width == 0 ==> config.spec_resized(requested).width == 1,
        requested.height == 0 ==> config.spec_resized(requested).height == 1,
        requested.width > 0 ==> config.spec_resized(requested).width == requested.width,
        requested.height > 0 ==> config.spec_resized(requested).height == requested.height,
{
}

/// Resizing to the size a configuration already has for its window
/// changes nothing.
pub proof fn lemma_resize_to_same_size(config: SurfaceConfiguration)
    requires
        config.has_area(),
    ensures
        config.spec_resized(config.spec_extent()) == config,
{
}

} // verus!
