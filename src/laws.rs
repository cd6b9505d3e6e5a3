use vstd::prelude::*;

use crate::draw_buffer::{
    buffer_valid, spec_action, spec_bindings, spec_new, spec_released_framebuffer,
    spec_released_renderbuffers, spec_step, Action, BufferModel, ConstructionModel, Event, Stage,
};
use crate::types::{
    AttachmentPoint, Binding, ContextAttributes, ContextCapabilities, DrawBufferError, Size,
};

verus! {

/// The construction reached by feeding `events` in order.
pub open spec fn run(m: ConstructionModel, events: Seq<Event>) -> ConstructionModel
    decreases events.len(),
{
    if events.len() == 0 {
        m
    } else {
        run(spec_step(m, events[0]), events.drop_first())
    }
}

/// The events of a construction in which the context is made current, every
/// allocation asked for gives the handle named here, and the framebuffer checks
/// out complete.
pub open spec fn success_events(
    attrs: ContextAttributes,
    color: u32,
    depth: u32,
    stencil: u32,
    framebuffer: u32,
) -> Seq<Event> {
    let head = seq![Event::ContextActivated(Ok(())), Event::Allocated(color)];
    let with_depth = if attrs.depth { head.push(Event::Allocated(depth)) } else { head };
    let with_stencil = if attrs.stencil {
        with_depth.push(Event::Allocated(stencil))
    } else {
        with_depth
    };
    with_stencil.push(Event::Allocated(framebuffer)).push(
        Event::Validated { complete: true, error_free: true },
    )
}

proof fn lemma_run_two(m: ConstructionModel, a: Event, rest: Seq<Event>)
    ensures
        run(m, seq![a].add(rest)) == run(spec_step(m, a), rest),
{
    assert(seq![a].add(rest).drop_first() =~= rest);
}

/// Without antialiasing, a positive size and any attributes, a construction in
/// which the context activates and the backend hands out non-zero, distinct
/// renderbuffer handles ends built: the color handle and the framebuffer are held, and the depth and
/// stencil handles are held exactly where they were asked for.
pub proof fn lemma_build_succeeds(
    attrs: ContextAttributes,
    caps: ContextCapabilities,
    size: Size,
    color: u32,
    depth: u32,
    stencil: u32,
    framebuffer: u32,
)
    requires
        size.is_positive(),
        !attrs.antialias,
        color != 0,
        depth != 0,
        stencil != 0,
        framebuffer != 0,
        color != depth,
        color != stencil,
        depth != stencil,
    ensures
        spec_new(attrs, caps, size) is Ok,
        ({
            let done = run(
                spec_new(attrs, caps, size)->Ok_0,
                success_events(attrs, color, depth, stencil, framebuffer),
            );
            &&& done.stage == Stage::Done
            &&& buffer_valid(done.buffer)
            &&& done.buffer.size == size
            &&& done.buffer.color == color
            &&& done.buffer.depth == (if attrs.depth { depth } else { 0 })
            &&& done.buffer.stencil == (if attrs.stencil { stencil } else { 0 })
            &&& done.buffer.framebuffer == framebuffer
        }),
{
    let m0 = spec_new(attrs, caps, size)->Ok_0;
    let evs = success_events(attrs, color, depth, stencil, framebuffer);
    let fin = seq![
        Event::Allocated(framebuffer),
        Event::Validated { complete: true, error_free: true },
    ];
    let after_stencil: Seq<Event> = if attrs.stencil {
        seq![Event::Allocated(stencil)].add(fin)
    } else {
        fin
    };
    let after_depth: Seq<Event> = if attrs.depth {
        seq![Event::Allocated(depth)].add(after_stencil)
    } else {
        after_stencil
    };
    assert(evs =~= seq![Event::ContextActivated(Ok(()))].add(
        seq![Event::Allocated(color)].add(after_depth),
    ));
    let m1 = spec_step(m0, Event::ContextActivated(Ok(())));
    let m2 = spec_step(m1, Event::Allocated(color));
    lemma_run_two(m0, Event::ContextActivated(Ok(())), seq![Event::Allocated(color)].add(after_depth));
    lemma_run_two(m1, Event::Allocated(color), after_depth);
    let m3 = if attrs.depth {
        lemma_run_two(m2, Event::Allocated(depth), after_stencil);
        spec_step(m2, Event::Allocated(depth))
    } else {
        m2
    };
    assert(run(m0, evs) == run(m3, after_stencil));
    let m4 = if attrs.stencil {
        lemma_run_two(m3, Event::Allocated(stencil), fin);
        spec_step(m3, Event::Allocated(stencil))
    } else {
        m3
    };
    assert(run(m0, evs) == run(m4, fin));
    assert(m4.stage == Stage::Framebuffer);
    let m5 = spec_step(m4, Event::Allocated(framebuffer));
    lemma_run_two(
        m4,
        Event::Allocated(framebuffer),
        seq![Event::Validated { complete: true, error_free: true }],
    );
    assert(fin =~= seq![Event::Allocated(framebuffer)].add(
        seq![Event::Validated { complete: true, error_free: true }],
    ));
    lemma_run_two(
        m5,
        Event::Validated { complete: true, error_free: true },
        Seq::empty(),
    );
    assert(seq![Event::Validated { complete: true, error_free: true }] =~= seq![
        Event::Validated { complete: true, error_free: true },
    ].add(Seq::<Event>::empty()));
}

/// The attachment state of a framebuffer after binding each of `bindings` in
/// order, starting from `state`: a later binding replaces an earlier one at
/// the same point.
pub open spec fn apply_bindings(
    state: Map<AttachmentPoint, u32>,
    bindings: Seq<Binding>,
) -> Map<AttachmentPoint, u32>
    decreases bindings.len(),
{
    if bindings.len() == 0 {
        state
    } else {
        apply_bindings(
            state.insert(bindings[0].point, bindings[0].renderbuffer),
            bindings.drop_first(),
        )
    }
}

/// The attachment state after one binding, then the others.
proof fn lemma_apply_one(state: Map<AttachmentPoint, u32>, a: Binding, rest: Seq<Binding>)
    ensures
        apply_bindings(state, seq![a].add(rest)) == apply_bindings(
            state.insert(a.point, a.renderbuffer),
            rest,
        ),
{
    assert(seq![a].add(rest).drop_first() =~= rest);
}

/// What attaching a buffer's renderbuffers does to a framebuffer's attachment
/// state: each point whose handle is not zero gets that handle, the others
/// keep what they had.
proof fn lemma_attach_result(state: Map<AttachmentPoint, u32>, b: BufferModel)
    ensures
        apply_bindings(state, spec_bindings(b)) =~= attached(state, b),
{
    let c = Binding { point: AttachmentPoint::Color0, renderbuffer: b.color };
    let d = Binding { point: AttachmentPoint::Depth, renderbuffer: b.depth };
    let t = Binding { point: AttachmentPoint::Stencil, renderbuffer: b.stencil };
    let tail_t: Seq<Binding> = if b.stencil != 0 { seq![t] } else { Seq::empty() };
    let tail_d: Seq<Binding> = if b.depth != 0 { seq![d].add(tail_t) } else { tail_t };
    let all: Seq<Binding> = if b.color != 0 { seq![c].add(tail_d) } else { tail_d };
    assert(spec_bindings(b) =~= all);
    let s1 = if b.color != 0 {
        lemma_apply_one(state, c, tail_d);
        state.insert(c.point, c.renderbuffer)
    } else {
        state
    };
    let s2 = if b.depth != 0 {
        lemma_apply_one(s1, d, tail_t);
        s1.insert(d.point, d.renderbuffer)
    } else {
        s1
    };
    if b.stencil != 0 {
        lemma_apply_one(s2, t, Seq::empty());
        assert(seq![t] =~= seq![t].add(Seq::<Binding>::empty()));
    }
    assert(apply_bindings(state, all) == apply_bindings(s2, tail_t));
}

/// The attachment state that results from attaching `b` to `state`.
pub open spec fn attached(state: Map<AttachmentPoint, u32>, b: BufferModel) -> Map<
    AttachmentPoint,
    u32,
> {
    let s1 = if b.color != 0 { state.insert(AttachmentPoint::Color0, b.color) } else { state };
    let s2 = if b.depth != 0 { s1.insert(AttachmentPoint::Depth, b.depth) } else { s1 };
    if b.stencil != 0 { s2.insert(AttachmentPoint::Stencil, b.stencil) } else { s2 }
}

/// Attaching a buffer's renderbuffers a second time, with the buffer unchanged,
/// leaves the framebuffer's attachments as the first time left them: the same
/// handles at the same points, each non-zero handle at its own point.
pub proof fn lemma_reattach_idempotent(state: Map<AttachmentPoint, u32>, b: BufferModel)
    ensures
        apply_bindings(apply_bindings(state, spec_bindings(b)), spec_bindings(b))
            == apply_bindings(state, spec_bindings(b)),
        ({
            let once = apply_bindings(state, spec_bindings(b));
            &&& b.color != 0 ==> once.contains_key(AttachmentPoint::Color0) && once[AttachmentPoint::Color0] == b.color
            &&& b.depth != 0 ==> once.contains_key(AttachmentPoint::Depth) && once[AttachmentPoint::Depth] == b.depth
            &&& b.stencil != 0 ==> once.contains_key(AttachmentPoint::Stencil) && once[AttachmentPoint::Stencil] == b.stencil
            &&& b.color == 0 ==> once.contains_key(AttachmentPoint::Color0) == state.contains_key(AttachmentPoint::Color0) && once[AttachmentPoint::Color0] == state[AttachmentPoint::Color0]
            &&& b.depth == 0 ==> once.contains_key(AttachmentPoint::Depth) == state.contains_key(AttachmentPoint::Depth) && once[AttachmentPoint::Depth] == state[AttachmentPoint::Depth]
            &&& b.stencil == 0 ==> once.contains_key(AttachmentPoint::Stencil) == state.contains_key(AttachmentPoint::Stencil) && once[AttachmentPoint::Stencil] == state[AttachmentPoint::Stencil]
        }),
{
    let once = apply_bindings(state, spec_bindings(b));
    lemma_attach_result(state, b);
    lemma_attach_result(once, b);
    assert(attached(once, b) =~= once);
}

/// Tearing a buffer down deletes every handle it holds that is not zero and
/// never a zero handle; where its handles differ from one another, each is
/// deleted exactly once.
pub proof fn lemma_release_each_once(b: BufferModel)
    ensures
        spec_released_framebuffer(b) == (if b.framebuffer != 0 {
            Some(b.framebuffer)
        } else {
            None::<u32>
        }),
        forall|i: int|
            0 <= i < spec_released_renderbuffers(b).len() ==> spec_released_renderbuffers(b)[i]
                != 0,
        forall|h: u32|
            h != 0 ==> (spec_released_renderbuffers(b).contains(h) <==> (h == b.color || h
                == b.depth || h == b.stencil)),
        spec_released_renderbuffers(b).len() == (if b.color != 0 { 1int } else { 0 }) + (if b.depth
            != 0 { 1int } else { 0 }) + (if b.stencil != 0 { 1int } else { 0 }),
        (b.color != b.depth || b.color == 0) && (b.color != b.stencil || b.color == 0) && (b.depth
            != b.stencil || b.depth == 0) ==> spec_released_renderbuffers(b).no_duplicates(),
{
    let r = spec_released_renderbuffers(b);
    let with_color: Seq<u32> = if b.color != 0 { seq![b.color] } else { Seq::empty() };
    let with_depth: Seq<u32> = if b.depth != 0 { with_color.push(b.depth) } else { with_color };
    assert forall|h: u32| h != 0 implies (r.contains(h) <==> (h == b.color || h == b.depth || h
        == b.stencil)) by {
        if h == b.color {
            assert(with_color[0] == h);
            assert(r[0] == h);
        } else if h == b.depth {
            assert(with_depth[with_depth.len() - 1] == h);
            assert(r[with_depth.len() - 1] == h);
        } else if h == b.stencil {
            assert(r[r.len() - 1] == h);
        }
    }
}

/// Where antialiasing is asked of a context that reports no samples, a draw
/// buffer is refused with `UnsupportedAntialiasing`, whatever the size and the
/// other attributes, and no construction exists to ask for any GPU work.
pub proof fn lemma_antialias_needs_samples(
    attrs: ContextAttributes,
    caps: ContextCapabilities,
    size: Size,
)
    requires
        attrs.antialias,
        caps.max_samples == 0,
    ensures
        spec_new(attrs, caps, size) == Err::<ConstructionModel, DrawBufferError>(
            DrawBufferError::UnsupportedAntialiasing,
        ),
{
}

/// A construction first asks for its context to be made current. Where that
/// fails, it fails with the context's own error, asks for nothing but to give
/// up, and holds no handle to release.
pub proof fn lemma_activation_failure(
    attrs: ContextAttributes,
    caps: ContextCapabilities,
    size: Size,
    reason: &'static str,
)
    requires
        spec_new(attrs, caps, size) is Ok,
    ensures
        ({
            let start = spec_new(attrs, caps, size)->Ok_0;
            let failed = spec_step(start, Event::ContextActivated(Err(reason)));
            &&& spec_action(start) == Action::MakeCurrent
            &&& failed.stage == Stage::Failed(DrawBufferError::ContextActivationFailed(reason))
            &&& spec_action(failed) == Action::Abandon(
                DrawBufferError::ContextActivationFailed(reason),
            )
            &&& spec_released_framebuffer(failed.buffer) == None::<u32>
            &&& spec_released_renderbuffers(failed.buffer).len() == 0
            &&& forall|e: Event| #[trigger] spec_step(failed, e) == failed
        }),
{
}

} // verus!
