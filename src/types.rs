use vstd::prelude::*;

verus! {

/// Width and height of a draw buffer, in pixels.
#[derive(Clone, Copy, Debug, PartialEq, Eq, Structural)]
pub struct Size {
    pub width: i32,
    pub height: i32,
}

impl Size {
    pub open spec fn is_positive(self) -> bool {
        self.width > 0 && self.height > 0
    }

    pub fn new(width: i32, height: i32) -> (r: Size)
        ensures
            r.width == width,
            r.height == height,
    {
        Size { width, height }
    }
}

/// What the rendering context was asked to provide.
#[derive(Clone, Copy, Debug, PartialEq, Eq, Structural)]
pub struct ContextAttributes {
    pub alpha: bool,
    pub depth: bool,
    pub stencil: bool,
    pub antialias: bool,
}

/// What the rendering context reports it can do; `max_samples == 0` means
/// no multisample support.
#[derive(Clone, Copy, Debug, PartialEq, Eq, Structural)]
pub struct ContextCapabilities {
    pub max_samples: i32,
}

/// Why a draw buffer could not be built.
#[derive(Clone, Copy, Debug, PartialEq, Eq)]
pub enum DrawBufferError {
    /// Antialiasing was requested but the context reports no samples.
    UnsupportedAntialiasing,
    /// The width or the height is not positive.
    InvalidSize,
    /// The context could not be made current; holds the context's own error.
    ContextActivationFailed(&'static str),
    /// The backend handed back the zero handle for a renderbuffer, or one it
    /// had already handed out for this buffer.
    RenderbufferAllocationFailed,
    /// The backend handed back the zero handle for the framebuffer.
    FramebufferAllocationFailed,
    /// After attachment the backend reported an error or an incomplete framebuffer.
    FramebufferIncomplete,
}

/// The text that describes an error.
pub open spec fn spec_message(e: DrawBufferError) -> Seq<char> {
    match e {
        DrawBufferError::UnsupportedAntialiasing =>
            "the context does not support the requested antialiasing"@,
        DrawBufferError::InvalidSize => "the size of a draw buffer must be positive"@,
        DrawBufferError::ContextActivationFailed(reason) => reason@,
        DrawBufferError::RenderbufferAllocationFailed => "a renderbuffer could not be allocated"@,
        DrawBufferError::FramebufferAllocationFailed => "the framebuffer could not be allocated"@,
        DrawBufferError::FramebufferIncomplete => "the framebuffer is not complete"@,
    }
}

impl DrawBufferError {
    /// A human-readable description of the error; for a failed activation,
    /// the context's own error.
    pub fn message(&self) -> (r: &'static str)
        ensures
            r@ == spec_message(*self),
    {
        match self {
            DrawBufferError::UnsupportedAntialiasing =>
                "the context does not support the requested antialiasing",
            DrawBufferError::InvalidSize => "the size of a draw buffer must be positive",
            DrawBufferError::ContextActivationFailed(reason) => reason,
            DrawBufferError::RenderbufferAllocationFailed => "a renderbuffer could not be allocated",
            DrawBufferError::FramebufferAllocationFailed => "the framebuffer could not be allocated",
            DrawBufferError::FramebufferIncomplete => "the framebuffer is not complete",
        }
    }
}

/// Storage format of a renderbuffer.
#[derive(Clone, Copy, Debug, PartialEq, Eq, Structural)]
pub enum RenderbufferFormat {
    /// Four bits per channel, red, green, blue and alpha.
    Rgba4,
    /// Sixteen-bit depth.
    DepthComponent16,
    /// Eight-bit stencil index.
    StencilIndex8,
}

/// A named slot of a framebuffer.
#[derive(Clone, Copy, Debug, PartialEq, Eq, Structural)]
pub enum AttachmentPoint {
    Color0,
    Depth,
    Stencil,
}

/// One renderbuffer bound to one attachment point.
#[derive(Clone, Copy, Debug, PartialEq, Eq, Structural)]
pub struct Binding {
    pub point: AttachmentPoint,
    pub renderbuffer: u32,
}

} // verus!
