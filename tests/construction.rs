use offscreen_draw_buffer::{
    Action, AttachmentPoint, Binding, ContextAttributes, ContextCapabilities, DrawBuffer,
    DrawBufferError, Event, RenderbufferFormat, Size, Stage,
};

fn attrs(alpha: bool, depth: bool, stencil: bool, antialias: bool) -> ContextAttributes {
    ContextAttributes { alpha, depth, stencil, antialias }
}

/// Runs a construction against a backend that activates and hands out the
/// handles 1, 2, 3, ... in order, recording every action asked for.
fn build(
    a: ContextAttributes,
    caps: ContextCapabilities,
    size: Size,
) -> (Result<DrawBuffer, DrawBufferError>, Vec<Action>) {
    let mut actions = Vec::new();
    let mut c = match DrawBuffer::new(&a, &caps, size) {
        Ok(c) => c,
        Err(e) => return (Err(e), actions),
    };
    let mut next: u32 = 1;
    loop {
        let action = c.action();
        actions.push(action);
        match action {
            Action::MakeCurrent => c.on_event(Event::ContextActivated(Ok(()))),
            Action::AllocateRenderbuffer { .. } | Action::AllocateFramebuffer => {
                c.on_event(Event::Allocated(next));
                next += 1;
            }
            Action::AttachAndValidate => {
                c.on_event(Event::Validated { complete: true, error_free: true })
            }
            Action::Finished => return (Ok(c.finish()), actions),
            Action::Abandon(e) => return (Err(e), actions),
        }
    }
}

#[test]
fn color_and_depth_scenario() {
    let size = Size::new(256, 256);
    let (r, actions) = build(attrs(true, true, false, false), ContextCapabilities { max_samples: 0 }, size);
    let b = r.unwrap();
    assert_ne!(b.color_render_buffer(), 0);
    assert_ne!(b.depth_render_buffer(), 0);
    assert_eq!(b.stencil_render_buffer(), 0);
    assert_ne!(b.framebuffer(), 0);
    assert_eq!(b.size(), size);
    let plan = b.attach_plan();
    assert_eq!(plan.framebuffer, b.framebuffer());
    assert_eq!(
        plan.bindings,
        vec![
            Binding { point: AttachmentPoint::Color0, renderbuffer: b.color_render_buffer() },
            Binding { point: AttachmentPoint::Depth, renderbuffer: b.depth_render_buffer() },
        ]
    );
    assert_eq!(
        actions,
        vec![
            Action::MakeCurrent,
            Action::AllocateRenderbuffer { format: RenderbufferFormat::Rgba4, size },
            Action::AllocateRenderbuffer { format: RenderbufferFormat::DepthComponent16, size },
            Action::AllocateFramebuffer,
            Action::AttachAndValidate,
            Action::Finished,
        ]
    );
}

#[test]
fn antialias_without_samples_fails_before_any_work() {
    let (r, actions) = build(
        attrs(true, false, false, true),
        ContextCapabilities { max_samples: 0 },
        Size::new(64, 64),
    );
    assert_eq!(r.err(), Some(DrawBufferError::UnsupportedAntialiasing));
    assert!(actions.is_empty());
}

#[test]
fn antialias_with_samples_is_accepted() {
    let (r, _) = build(
        attrs(true, false, false, true),
        ContextCapabilities { max_samples: 4 },
        Size::new(64, 64),
    );
    assert!(r.is_ok());
}

#[test]
fn activation_failure_allocates_nothing() {
    let a = attrs(true, true, true, false);
    let mut c = DrawBuffer::new(&a, &ContextCapabilities { max_samples: 0 }, Size::new(32, 32)).unwrap();
    assert_eq!(c.action(), Action::MakeCurrent);
    c.on_event(Event::ContextActivated(Err("no display")));
    assert_eq!(c.stage(), Stage::Failed(DrawBufferError::ContextActivationFailed("no display")));
    assert_eq!(c.action(), Action::Abandon(DrawBufferError::ContextActivationFailed("no display")));
    assert_eq!(DrawBufferError::ContextActivationFailed("no display").message(), "no display");
    c.on_event(Event::Allocated(4));
    assert_eq!(c.action(), Action::Abandon(DrawBufferError::ContextActivationFailed("no display")));
    let release = c.release_plan();
    assert_eq!(release.framebuffer, None);
    assert!(release.renderbuffers.is_empty());
}

#[test]
fn every_attribute_combination_without_antialias_builds() {
    for bits in 0u32..16 {
        let a = attrs(bits & 1 != 0, bits & 2 != 0, bits & 4 != 0, false);
        let (r, _) = build(a, ContextCapabilities { max_samples: 0 }, Size::new(1, 1 + bits as i32));
        let b = r.unwrap();
        assert_ne!(b.color_render_buffer(), 0);
        assert_ne!(b.framebuffer(), 0);
        assert_eq!(b.depth_render_buffer() != 0, a.depth);
        assert_eq!(b.stencil_render_buffer() != 0, a.stencil);
    }
}

#[test]
fn all_buffers_are_allocated_in_order() {
    let (r, actions) = build(attrs(false, true, true, false), ContextCapabilities { max_samples: 0 }, Size::new(8, 4));
    let b = r.unwrap();
    assert_eq!(b.color_render_buffer(), 1);
    assert_eq!(b.depth_render_buffer(), 2);
    assert_eq!(b.stencil_render_buffer(), 3);
    assert_eq!(b.framebuffer(), 4);
    assert_eq!(
        actions[3],
        Action::AllocateRenderbuffer { format: RenderbufferFormat::StencilIndex8, size: Size::new(8, 4) }
    );
    let plan = b.attach_plan();
    assert_eq!(
        plan.bindings,
        vec![
            Binding { point: AttachmentPoint::Color0, renderbuffer: 1 },
            Binding { point: AttachmentPoint::Depth, renderbuffer: 2 },
            Binding { point: AttachmentPoint::Stencil, renderbuffer: 3 },
        ]
    );
}

#[test]
fn attaching_twice_gives_the_same_attachments() {
    let (r, _) = build(attrs(true, false, true, false), ContextCapabilities { max_samples: 0 }, Size::new(16, 16));
    let b = r.unwrap();
    let first = b.attach_plan();
    let second = b.attach_plan();
    assert_eq!(first.framebuffer, second.framebuffer);
    assert_eq!(first.bindings, second.bindings);
    assert_eq!(
        first.bindings,
        vec![
            Binding { point: AttachmentPoint::Color0, renderbuffer: 1 },
            Binding { point: AttachmentPoint::Stencil, renderbuffer: 2 },
        ]
    );
}

#[test]
fn release_skips_zero_handles() {
    let (r, _) = build(attrs(true, false, false, false), ContextCapabilities { max_samples: 0 }, Size::new(16, 16));
    let b = r.unwrap();
    let plan = b.release_plan();
    assert_eq!(plan.framebuffer, Some(2));
    assert_eq!(plan.renderbuffers, vec![1]);
}

#[test]
fn release_lists_every_handle_once() {
    let (r, _) = build(attrs(true, true, true, false), ContextCapabilities { max_samples: 0 }, Size::new(16, 16));
    let plan = r.unwrap().release_plan();
    assert_eq!(plan.framebuffer, Some(4));
    assert_eq!(plan.renderbuffers, vec![1, 2, 3]);
}

#[test]
fn zero_color_handle_fails() {
    let mut c = DrawBuffer::new(&attrs(true, true, false, false), &ContextCapabilities { max_samples: 0 }, Size::new(2, 2)).unwrap();
    c.on_event(Event::ContextActivated(Ok(())));
    c.on_event(Event::Allocated(0));
    assert_eq!(c.action(), Action::Abandon(DrawBufferError::RenderbufferAllocationFailed));
    assert!(c.release_plan().renderbuffers.is_empty());
}

#[test]
fn zero_depth_handle_fails_and_releases_color() {
    let mut c = DrawBuffer::new(&attrs(true, true, false, false), &ContextCapabilities { max_samples: 0 }, Size::new(2, 2)).unwrap();
    c.on_event(Event::ContextActivated(Ok(())));
    c.on_event(Event::Allocated(9));
    c.on_event(Event::Allocated(0));
    assert_eq!(c.action(), Action::Abandon(DrawBufferError::RenderbufferAllocationFailed));
    let plan = c.release_plan();
    assert_eq!(plan.renderbuffers, vec![9]);
    assert_eq!(plan.framebuffer, None);
}

#[test]
fn zero_framebuffer_handle_fails() {
    let mut c = DrawBuffer::new(&attrs(true, false, false, false), &ContextCapabilities { max_samples: 0 }, Size::new(2, 2)).unwrap();
    c.on_event(Event::ContextActivated(Ok(())));
    c.on_event(Event::Allocated(5));
    assert_eq!(c.action(), Action::AllocateFramebuffer);
    c.on_event(Event::Allocated(0));
    assert_eq!(c.action(), Action::Abandon(DrawBufferError::FramebufferAllocationFailed));
    assert_eq!(c.release_plan().renderbuffers, vec![5]);
}

#[test]
fn incomplete_framebuffer_fails_and_releases_everything() {
    for (complete, error_free) in [(false, true), (true, false), (false, false)] {
        let mut c = DrawBuffer::new(&attrs(true, false, false, false), &ContextCapabilities { max_samples: 0 }, Size::new(2, 2)).unwrap();
        c.on_event(Event::ContextActivated(Ok(())));
        c.on_event(Event::Allocated(5));
        c.on_event(Event::Allocated(6));
        assert_eq!(c.action(), Action::AttachAndValidate);
        assert_eq!(c.attach_plan().framebuffer, 6);
        c.on_event(Event::Validated { complete, error_free });
        assert_eq!(c.action(), Action::Abandon(DrawBufferError::FramebufferIncomplete));
        let plan = c.release_plan();
        assert_eq!(plan.framebuffer, Some(6));
        assert_eq!(plan.renderbuffers, vec![5]);
    }
}

#[test]
fn an_event_that_does_not_answer_is_ignored() {
    let mut c = DrawBuffer::new(&attrs(true, false, false, false), &ContextCapabilities { max_samples: 0 }, Size::new(2, 2)).unwrap();
    c.on_event(Event::Allocated(3));
    assert_eq!(c.stage(), Stage::Activate);
    c.on_event(Event::ContextActivated(Ok(())));
    c.on_event(Event::Validated { complete: true, error_free: true });
    assert_eq!(c.stage(), Stage::Color);
    assert_eq!(c.attributes(), attrs(true, false, false, false));
}

#[test]
fn error_messages_differ() {
    let all = [
        DrawBufferError::UnsupportedAntialiasing,
        DrawBufferError::InvalidSize,
        DrawBufferError::ContextActivationFailed("context lost"),
        DrawBufferError::RenderbufferAllocationFailed,
        DrawBufferError::FramebufferAllocationFailed,
        DrawBufferError::FramebufferIncomplete,
    ];
    for i in 0..all.len() {
        for j in 0..all.len() {
            assert_eq!(i == j, all[i].message() == all[j].message());
        }
    }
}

#[test]
fn error_message_texts() {
    assert_eq!(
        DrawBufferError::UnsupportedAntialiasing.message(),
        "the context does not support the requested antialiasing"
    );
    assert_eq!(DrawBufferError::InvalidSize.message(), "the size of a draw buffer must be positive");
    assert_eq!(DrawBufferError::RenderbufferAllocationFailed.message(), "a renderbuffer could not be allocated");
    assert_eq!(DrawBufferError::FramebufferAllocationFailed.message(), "the framebuffer could not be allocated");
    assert_eq!(DrawBufferError::FramebufferIncomplete.message(), "the framebuffer is not complete");
}

#[test]
fn repeated_renderbuffer_handle_fails() {
    let mut c = DrawBuffer::new(&attrs(true, true, true, false), &ContextCapabilities { max_samples: 0 }, Size::new(2, 2)).unwrap();
    c.on_event(Event::ContextActivated(Ok(())));
    c.on_event(Event::Allocated(5));
    c.on_event(Event::Allocated(5));
    assert_eq!(c.action(), Action::Abandon(DrawBufferError::RenderbufferAllocationFailed));
    assert_eq!(c.release_plan().renderbuffers, vec![5]);

    let mut c = DrawBuffer::new(&attrs(true, true, true, false), &ContextCapabilities { max_samples: 0 }, Size::new(2, 2)).unwrap();
    c.on_event(Event::ContextActivated(Ok(())));
    c.on_event(Event::Allocated(5));
    c.on_event(Event::Allocated(6));
    c.on_event(Event::Allocated(6));
    assert_eq!(c.action(), Action::Abandon(DrawBufferError::RenderbufferAllocationFailed));
    assert_eq!(c.release_plan().renderbuffers, vec![5, 6]);
}

#[test]
fn framebuffer_may_share_a_renderbuffer_number() {
    let mut c = DrawBuffer::new(&attrs(true, false, false, false), &ContextCapabilities { max_samples: 0 }, Size::new(2, 2)).unwrap();
    c.on_event(Event::ContextActivated(Ok(())));
    c.on_event(Event::Allocated(1));
    c.on_event(Event::Allocated(1));
    assert_eq!(c.action(), Action::AttachAndValidate);
}

#[test]
fn non_positive_size_is_refused() {
    let caps = ContextCapabilities { max_samples: 0 };
    let a = attrs(true, false, false, false);
    for size in [Size::new(0, 4), Size::new(4, 0), Size::new(-1, 4), Size::new(4, -7)] {
        assert_eq!(DrawBuffer::new(&a, &caps, size).err(), Some(DrawBufferError::InvalidSize));
    }
    assert_eq!(
        DrawBuffer::new(&attrs(true, false, false, true), &caps, Size::new(0, 0)).err(),
        Some(DrawBufferError::UnsupportedAntialiasing)
    );
}
