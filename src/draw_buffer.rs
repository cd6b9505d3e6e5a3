use vstd::prelude::*;

use crate::types::{
    AttachmentPoint, Binding, ContextAttributes, ContextCapabilities, DrawBufferError,
    RenderbufferFormat, Size,
};

verus! {

/// What a draw buffer holds: its size and its four handles, zero where none
/// is held.
pub struct BufferModel {
    pub size: Size,
    pub framebuffer: u32,
    pub color: u32,
    pub depth: u32,
    pub stencil: u32,
}

/// A buffer of the given size that holds no handle yet.
pub open spec fn empty_model(size: Size) -> BufferModel {
    BufferModel { size, framebuffer: 0, color: 0, depth: 0, stencil: 0 }
}

/// No two renderbuffer handles held are the same.
pub open spec fn renderbuffers_distinct(b: BufferModel) -> bool {
    &&& (b.color != 0 && b.depth != 0 ==> b.color != b.depth)
    &&& (b.color != 0 && b.stencil != 0 ==> b.color != b.stencil)
    &&& (b.depth != 0 && b.stencil != 0 ==> b.depth != b.stencil)
}

/// A fully built buffer: a positive size, a color renderbuffer and a
/// framebuffer, and distinct renderbuffer handles.
pub open spec fn buffer_valid(b: BufferModel) -> bool {
    b.size.is_positive() && b.color != 0 && b.framebuffer != 0 && renderbuffers_distinct(b)
}

/// The attachments made on the framebuffer: color, depth and stencil in that
/// order, each only where its handle is not zero.
pub open spec fn spec_bindings(b: BufferModel) -> Seq<Binding> {
    let with_color = if b.color != 0 {
        seq![Binding { point: AttachmentPoint::Color0, renderbuffer: b.color }]
    } else {
        Seq::empty()
    };
    let with_depth = if b.depth != 0 {
        with_color.push(Binding { point: AttachmentPoint::Depth, renderbuffer: b.depth })
    } else {
        with_color
    };
    if b.stencil != 0 {
        with_depth.push(Binding { point: AttachmentPoint::Stencil, renderbuffer: b.stencil })
    } else {
        with_depth
    }
}

/// The renderbuffers to delete: color, depth and stencil in that order, each
/// only where its handle is not zero.
pub open spec fn spec_released_renderbuffers(b: BufferModel) -> Seq<u32> {
    let with_color = if b.color != 0 { seq![b.color] } else { Seq::empty() };
    let with_depth = if b.depth != 0 { with_color.push(b.depth) } else { with_color };
    if b.stencil != 0 { with_depth.push(b.stencil) } else { with_depth }
}

/// The framebuffer to delete, where one is held.
pub open spec fn spec_released_framebuffer(b: BufferModel) -> Option<u32> {
    if b.framebuffer != 0 { Some(b.framebuffer) } else { None }
}

/// An offscreen draw buffer: a framebuffer with a color renderbuffer attached,
/// and a depth and a stencil renderbuffer where the context asked for them.
///
/// Its handles belong to the context it was built in. They must be released,
/// through `release_plan`, while that context is current.
pub struct DrawBuffer {
    size: Size,
    framebuffer: u32,
    color_render_buffer: u32,
    depth_render_buffer: u32,
    stencil_render_buffer: u32,
}

impl View for DrawBuffer {
    type V = BufferModel;

    closed spec fn view(&self) -> BufferModel {
        BufferModel {
            size: self.size,
            framebuffer: self.framebuffer,
            color: self.color_render_buffer,
            depth: self.depth_render_buffer,
            stencil: self.stencil_render_buffer,
        }
    }
}

/// The framebuffer to bind and the renderbuffers to attach to it.
pub struct AttachPlan {
    pub framebuffer: u32,
    pub bindings: Vec<Binding>,
}

/// The handles to delete; zero handles are never listed.
pub struct ReleasePlan {
    pub framebuffer: Option<u32>,
    pub renderbuffers: Vec<u32>,
}

impl DrawBuffer {
    pub open spec fn wf(&self) -> bool {
        buffer_valid(self@)
    }

    fn empty(size: Size) -> (r: DrawBuffer)
        ensures
            r@ == empty_model(size),
    {
        DrawBuffer {
            size,
            framebuffer: 0,
            color_render_buffer: 0,
            depth_render_buffer: 0,
            stencil_render_buffer: 0,
        }
    }

    /// The size the buffer was built with.
    pub fn size(&self) -> (r: Size)
        ensures
            r == self@.size,
    {
        self.size
    }

    /// The framebuffer handle.
    pub fn framebuffer(&self) -> (r: u32)
        ensures
            r == self@.framebuffer,
    {
        self.framebuffer
    }

    /// The color renderbuffer handle.
    pub fn color_render_buffer(&self) -> (r: u32)
        ensures
            r == self@.color,
    {
        self.color_render_buffer
    }

    /// The depth renderbuffer handle, zero where no depth was asked for.
    pub fn depth_render_buffer(&self) -> (r: u32)
        ensures
            r == self@.depth,
    {
        self.depth_render_buffer
    }

    /// The stencil renderbuffer handle, zero where no stencil was asked for.
    pub fn stencil_render_buffer(&self) -> (r: u32)
        ensures
            r == self@.stencil,
    {
        self.stencil_render_buffer
    }

    /// Starts building a draw buffer of `size` for a context with the given
    /// attributes and capabilities. Fails, before any GPU work, where
    /// antialiasing is asked of a context that reports no samples, and
    /// otherwise where the size is not positive.
    pub fn new(attrs: &ContextAttributes, caps: &ContextCapabilities, size: Size) -> (r: Result<
        Construction,
        DrawBufferError,
    >)
        ensures
            r is Err <==> (attrs.antialias && caps.max_samples == 0) || !size.is_positive(),
            match r {
                Ok(c) => c.wf() && spec_new(*attrs, *caps, size) == Ok::<ConstructionModel, DrawBufferError>(c@),
                Err(e) => spec_new(*attrs, *caps, size) == Err::<ConstructionModel, DrawBufferError>(e),
            },
    {
        if attrs.antialias && caps.max_samples == 0 {
            return Err(DrawBufferError::UnsupportedAntialiasing);
        }
        if size.width <= 0 || size.height <= 0 {
            return Err(DrawBufferError::InvalidSize);
        }
        Ok(Construction { attrs: *attrs, stage: Stage::Activate, buffer: DrawBuffer::empty(size) })
    }

    /// The framebuffer and the attachments to make on it. The result depends
    /// on the buffer alone, so making it again reattaches the same handles to
    /// the same points.
    pub fn attach_plan(&self) -> (r: AttachPlan)
        ensures
            r.framebuffer == self@.framebuffer,
            r.bindings@ == spec_bindings(self@),
    {
        let mut bindings: Vec<Binding> = Vec::new();
        if self.color_render_buffer != 0 {
            bindings.push(
                Binding { point: AttachmentPoint::Color0, renderbuffer: self.color_render_buffer },
            );
        }
        if self.depth_render_buffer != 0 {
            bindings.push(
                Binding { point: AttachmentPoint::Depth, renderbuffer: self.depth_render_buffer },
            );
        }
        if self.stencil_render_buffer != 0 {
            bindings.push(
                Binding {
                    point: AttachmentPoint::Stencil,
                    renderbuffer: self.stencil_render_buffer,
                },
            );
        }
        AttachPlan { framebuffer: self.framebuffer, bindings }
    }

    /// The handles to delete when the buffer is torn down: every handle that
    /// is not zero, each listed once. The context the buffer was built in must
    /// be current while they are deleted.
    pub fn release_plan(&self) -> (r: ReleasePlan)
        requires
            renderbuffers_distinct(self@),
        ensures
            r.framebuffer == spec_released_framebuffer(self@),
            r.renderbuffers@ == spec_released_renderbuffers(self@),
            r.renderbuffers@.no_duplicates(),
    {
        let mut renderbuffers: Vec<u32> = Vec::new();
        if self.color_render_buffer != 0 {
            renderbuffers.push(self.color_render_buffer);
        }
        if self.depth_render_buffer != 0 {
            renderbuffers.push(self.depth_render_buffer);
        }
        if self.stencil_render_buffer != 0 {
            renderbuffers.push(self.stencil_render_buffer);
        }
        let framebuffer = if self.framebuffer != 0 {
            Some(self.framebuffer)
        } else {
            None
        };
        ReleasePlan { framebuffer, renderbuffers }
    }
}

/// Where a construction stands.
#[derive(Clone, Copy, Debug, PartialEq, Eq)]
pub enum Stage {
    /// The context is to be made current.
    Activate,
    /// The color renderbuffer is to be allocated.
    Color,
    /// The depth renderbuffer is to be allocated.
    Depth,
    /// The stencil renderbuffer is to be allocated.
    Stencil,
    /// The framebuffer is to be allocated.
    Framebuffer,
    /// The renderbuffers are to be attached and the framebuffer checked.
    Validate,
    /// The buffer is built.
    Done,
    /// The construction failed; what it allocated is to be released.
    Failed(DrawBufferError),
}

/// What the caller reports back after doing the work an `Action` asked for.
#[derive(Clone, Copy, Debug, PartialEq, Eq)]
pub enum Event {
    /// Whether the context was made current, or the error it gave.
    ContextActivated(Result<(), &'static str>),
    /// The handle the backend gave for the object just allocated (zero on failure).
    Allocated(u32),
    /// Whether the framebuffer is complete, and whether the backend reported no error.
    Validated { complete: bool, error_free: bool },
}

/// The GPU work the caller is to do next.
#[derive(Clone, Copy, Debug, PartialEq, Eq)]
pub enum Action {
    /// Make the context current and report `ContextActivated`.
    MakeCurrent,
    /// Allocate one renderbuffer with this storage and report `Allocated`.
    AllocateRenderbuffer { format: RenderbufferFormat, size: Size },
    /// Allocate one framebuffer and report `Allocated`.
    AllocateFramebuffer,
    /// Carry out `attach_plan`, then report `Validated`.
    AttachAndValidate,
    /// The buffer is built: take it with `finish`.
    Finished,
    /// Carry out `release_plan`; the construction failed with this error.
    Abandon(DrawBufferError),
}

/// A construction as a value: the attributes asked for, the stage reached,
/// and the buffer as filled so far.
pub struct ConstructionModel {
    pub attrs: ContextAttributes,
    pub stage: Stage,
    pub buffer: BufferModel,
}

/// The construction that `DrawBuffer::new` starts, or the error it gives.
pub open spec fn spec_new(
    attrs: ContextAttributes,
    caps: ContextCapabilities,
    size: Size,
) -> Result<ConstructionModel, DrawBufferError> {
    if attrs.antialias && caps.max_samples == 0 {
        Err(DrawBufferError::UnsupportedAntialiasing)
    } else if !size.is_positive() {
        Err(DrawBufferError::InvalidSize)
    } else {
        Ok(ConstructionModel { attrs, stage: Stage::Activate, buffer: empty_model(size) })
    }
}

/// The stage that follows the depth renderbuffer, or would have.
pub open spec fn stage_after_depth(attrs: ContextAttributes) -> Stage {
    if attrs.stencil {
        Stage::Stencil
    } else {
        Stage::Framebuffer
    }
}

/// The stage that follows the color renderbuffer.
pub open spec fn stage_after_color(attrs: ContextAttributes) -> Stage {
    if attrs.depth {
        Stage::Depth
    } else {
        stage_after_depth(attrs)
    }
}

pub open spec fn with_stage(m: ConstructionModel, stage: Stage) -> ConstructionModel {
    ConstructionModel { attrs: m.attrs, stage, buffer: m.buffer }
}

/// What an event does to a construction. An event that does not answer the
/// current stage's action changes nothing; a zero handle fails the
/// construction, and so does a renderbuffer handle that is already held.
pub open spec fn spec_step(m: ConstructionModel, e: Event) -> ConstructionModel {
    let b = m.buffer;
    match m.stage {
        Stage::Activate => match e {
            Event::ContextActivated(outcome) => match outcome {
                Ok(_) => with_stage(m, Stage::Color),
                Err(reason) => with_stage(
                    m,
                    Stage::Failed(DrawBufferError::ContextActivationFailed(reason)),
                ),
            },
            _ => m,
        },
        Stage::Color => match e {
            Event::Allocated(h) => if h == 0 {
                with_stage(m, Stage::Failed(DrawBufferError::RenderbufferAllocationFailed))
            } else {
                ConstructionModel {
                    attrs: m.attrs,
                    stage: stage_after_color(m.attrs),
                    buffer: BufferModel { color: h, ..b },
                }
            },
            _ => m,
        },
        Stage::Depth => match e {
            Event::Allocated(h) => if h == 0 || h == b.color {
                with_stage(m, Stage::Failed(DrawBufferError::RenderbufferAllocationFailed))
            } else {
                ConstructionModel {
                    attrs: m.attrs,
                    stage: stage_after_depth(m.attrs),
                    buffer: BufferModel { depth: h, ..b },
                }
            },
            _ => m,
        },
        Stage::Stencil => match e {
            Event::Allocated(h) => if h == 0 || h == b.color || h == b.depth {
                with_stage(m, Stage::Failed(DrawBufferError::RenderbufferAllocationFailed))
            } else {
                ConstructionModel {
                    attrs: m.attrs,
                    stage: Stage::Framebuffer,
                    buffer: BufferModel { stencil: h, ..b },
                }
            },
            _ => m,
        },
        Stage::Framebuffer => match e {
            Event::Allocated(h) => if h == 0 {
                with_stage(m, Stage::Failed(DrawBufferError::FramebufferAllocationFailed))
            } else {
                ConstructionModel {
                    attrs: m.attrs,
                    stage: Stage::Validate,
                    buffer: BufferModel { framebuffer: h, ..b },
                }
            },
            _ => m,
        },
        Stage::Validate => match e {
            Event::Validated { complete, error_free } => if complete && error_free {
                with_stage(m, Stage::Done)
            } else {
                with_stage(m, Stage::Failed(DrawBufferError::FramebufferIncomplete))
            },
            _ => m,
        },
        Stage::Done => m,
        Stage::Failed(_) => m,
    }
}

/// The action that a construction asks for at its stage.
pub open spec fn spec_action(m: ConstructionModel) -> Action {
    match m.stage {
        Stage::Activate => Action::MakeCurrent,
        Stage::Color => Action::AllocateRenderbuffer {
            format: RenderbufferFormat::Rgba4,
            size: m.buffer.size,
        },
        Stage::Depth => Action::AllocateRenderbuffer {
            format: RenderbufferFormat::DepthComponent16,
            size: m.buffer.size,
        },
        Stage::Stencil => Action::AllocateRenderbuffer {
            format: RenderbufferFormat::StencilIndex8,
            size: m.buffer.size,
        },
        Stage::Framebuffer => Action::AllocateFramebuffer,
        Stage::Validate => Action::AttachAndValidate,
        Stage::Done => Action::Finished,
        Stage::Failed(e) => Action::Abandon(e),
    }
}

/// Whether a handle is held exactly where it was asked for.
pub open spec fn held_iff(asked: bool, handle: u32) -> bool {
    asked <==> handle != 0
}

/// What holds of a construction at each stage: the handles allocated so far
/// are not zero, those still to come are.
pub open spec fn construction_inv(m: ConstructionModel) -> bool {
    let b = m.buffer;
    &&& b.size.is_positive()
    &&& renderbuffers_distinct(b)
    &&& match m.stage {
        Stage::Activate => b.color == 0 && b.depth == 0 && b.stencil == 0 && b.framebuffer == 0,
        Stage::Color => b.color == 0 && b.depth == 0 && b.stencil == 0 && b.framebuffer == 0,
        Stage::Depth => b.color != 0 && m.attrs.depth && b.depth == 0 && b.stencil == 0
            && b.framebuffer == 0,
        Stage::Stencil => b.color != 0 && held_iff(m.attrs.depth, b.depth) && m.attrs.stencil
            && b.stencil == 0 && b.framebuffer == 0,
        Stage::Framebuffer => b.color != 0 && held_iff(m.attrs.depth, b.depth) && held_iff(
            m.attrs.stencil,
            b.stencil,
        ) && b.framebuffer == 0,
        Stage::Validate => b.color != 0 && held_iff(m.attrs.depth, b.depth) && held_iff(
            m.attrs.stencil,
            b.stencil,
        ) && b.framebuffer != 0,
        Stage::Done => b.color != 0 && held_iff(m.attrs.depth, b.depth) && held_iff(
            m.attrs.stencil,
            b.stencil,
        ) && b.framebuffer != 0,
        Stage::Failed(_) => true,
    }
}

/// A draw buffer being built. The caller asks `action` what to do, does it
/// against the context and the GPU, and reports the outcome to `on_event`,
/// until the action is `Finished` or `Abandon`.
pub struct Construction {
    attrs: ContextAttributes,
    stage: Stage,
    buffer: DrawBuffer,
}

impl View for Construction {
    type V = ConstructionModel;

    closed spec fn view(&self) -> ConstructionModel {
        ConstructionModel { attrs: self.attrs, stage: self.stage, buffer: self.buffer@ }
    }
}

fn next_after_depth(attrs: &ContextAttributes) -> (r: Stage)
    ensures
        r == stage_after_depth(*attrs),
{
    if attrs.stencil {
        Stage::Stencil
    } else {
        Stage::Framebuffer
    }
}

fn next_after_color(attrs: &ContextAttributes) -> (r: Stage)
    ensures
        r == stage_after_color(*attrs),
{
    if attrs.depth {
        Stage::Depth
    } else {
        next_after_depth(attrs)
    }
}

impl Construction {
    pub open spec fn wf(&self) -> bool {
        construction_inv(self@)
    }

    /// The stage reached.
    pub fn stage(&self) -> (r: Stage)
        ensures
            r == self@.stage,
    {
        self.stage
    }

    /// The attributes the buffer is built for.
    pub fn attributes(&self) -> (r: ContextAttributes)
        ensures
            r == self@.attrs,
    {
        self.attrs
    }

    /// The work to do next.
    pub fn action(&self) -> (r: Action)
        ensures
            r == spec_action(self@),
    {
        match self.stage {
            Stage::Activate => Action::MakeCurrent,
            Stage::Color => Action::AllocateRenderbuffer {
                format: RenderbufferFormat::Rgba4,
                size: self.buffer.size,
            },
            Stage::Depth => Action::AllocateRenderbuffer {
                format: RenderbufferFormat::DepthComponent16,
                size: self.buffer.size,
            },
            Stage::Stencil => Action::AllocateRenderbuffer {
                format: RenderbufferFormat::StencilIndex8,
                size: self.buffer.size,
            },
            Stage::Framebuffer => Action::AllocateFramebuffer,
            Stage::Validate => Action::AttachAndValidate,
            Stage::Done => Action::Finished,
            Stage::Failed(e) => Action::Abandon(e),
        }
    }

    /// Takes in the outcome of the last action.
    pub fn on_event(&mut self, event: Event)
        requires
            old(self).wf(),
        ensures
            final(self).wf(),
            final(self)@ == spec_step(old(self)@, event),
    {
        match self.stage {
            Stage::Activate => {
                if let Event::ContextActivated(outcome) = event {
                    self.stage = match outcome {
                        Ok(_) => Stage::Color,
                        Err(reason) => Stage::Failed(
                            DrawBufferError::ContextActivationFailed(reason),
                        ),
                    };
                }
            },
            Stage::Color => {
                if let Event::Allocated(h) = event {
                    if h == 0 {
                        self.stage = Stage::Failed(DrawBufferError::RenderbufferAllocationFailed);
                    } else {
                        self.buffer.color_render_buffer = h;
                        self.stage = next_after_color(&self.attrs);
                    }
                }
            },
            Stage::Depth => {
                if let Event::Allocated(h) = event {
                    if h == 0 || h == self.buffer.color_render_buffer {
                        self.stage = Stage::Failed(DrawBufferError::RenderbufferAllocationFailed);
                    } else {
                        self.buffer.depth_render_buffer = h;
                        self.stage = next_after_depth(&self.attrs);
                    }
                }
            },
            Stage::Stencil => {
                if let Event::Allocated(h) = event {
                    if h == 0 || h == self.buffer.color_render_buffer
                        || h == self.buffer.depth_render_buffer {
                        self.stage = Stage::Failed(DrawBufferError::RenderbufferAllocationFailed);
                    } else {
                        self.buffer.stencil_render_buffer = h;
                        self.stage = Stage::Framebuffer;
                    }
                }
            },
            Stage::Framebuffer => {
                if let Event::Allocated(h) = event {
                    if h == 0 {
                        self.stage = Stage::Failed(DrawBufferError::FramebufferAllocationFailed);
                    } else {
                        self.buffer.framebuffer = h;
                        self.stage = Stage::Validate;
                    }
                }
            },
            Stage::Validate => {
                if let Event::Validated { complete, error_free } = event {
                    self.stage = if complete && error_free {
                        Stage::Done
                    } else {
                        Stage::Failed(DrawBufferError::FramebufferIncomplete)
                    };
                }
            },
            Stage::Done => {},
            Stage::Failed(_) => {},
        }
    }

    /// The attachments to make at the `AttachAndValidate` action.
    pub fn attach_plan(&self) -> (r: AttachPlan)
        ensures
            r.framebuffer == self@.buffer.framebuffer,
            r.bindings@ == spec_bindings(self@.buffer),
    {
        self.buffer.attach_plan()
    }

    /// The handles allocated so far, to delete at the `Abandon` action.
    pub fn release_plan(&self) -> (r: ReleasePlan)
        requires
            self.wf(),
        ensures
            r.framebuffer == spec_released_framebuffer(self@.buffer),
            r.renderbuffers@ == spec_released_renderbuffers(self@.buffer),
            r.renderbuffers@.no_duplicates(),
    {
        self.buffer.release_plan()
    }

    /// The built buffer, once the action is `Finished`.
    pub fn finish(self) -> (r: DrawBuffer)
        requires
            self.wf(),
            self@.stage == Stage::Done,
        ensures
            r@ == self@.buffer,
            r.wf(),
            held_iff(self@.attrs.depth, r@.depth),
            held_iff(self@.attrs.stencil, r@.stencil),
    {
        self.buffer
    }
}

} // verus!
