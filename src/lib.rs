//! An offscreen draw buffer: a framebuffer object with a mandatory color
//! renderbuffer and optional depth and stencil renderbuffers.
//!
//! The GPU work itself is done by the caller. The library decides what to do
//! next from what the context and the backend reported, and says exactly which
//! handles are attached and which are released.
pub mod types;
pub mod draw_buffer;
pub mod laws;

pub use types::{
    AttachmentPoint, Binding, ContextAttributes, ContextCapabilities, DrawBufferError,
    RenderbufferFormat, Size,
};

pub use draw_buffer::{
    Action, AttachPlan, BufferModel, Construction, ConstructionModel, DrawBuffer, Event,
    ReleasePlan, Stage,
};
