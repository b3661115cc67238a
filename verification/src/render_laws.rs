//! What holds of a frame from its start to its end.
use crate::render::{
    bits_unsigned, chosen_display_time, headset_views_of, low_bits_signed, orientation_flag,
    render_accepts, render_next, size_signed, ComposedFrame, DecodedFrame, RenderAction,
    RenderContext, RenderEvent, RenderFrame, RenderPhase, Stereo, StreamViewParams,
    MAX_DISPLAY_LAG_NS,
};
use vstd::prelude::*;

verus! {

/// Whether what was decided about a frame fits together.
pub open spec fn composed_well<V, M, P>(
    ctx: RenderContext<V, M, P>,
    vsync_time: u128,
    composed: ComposedFrame<V>,
) -> bool {
    &&& composed.display_time == chosen_display_time(
        ctx.use_custom_reprojection,
        composed.selected.timestamp,
        vsync_time,
    )
    &&& !ctx.use_custom_reprojection ==> composed.output_views == composed.selected.input_views
    &&& composed.selected.input_views == ctx.last_good_view_params
}

/// What holds of a frame in every phase. From the choice of what is shown on, it
/// is seen from the remembered views.
pub open spec fn frame_wf<V, M, P>(ctx: RenderContext<V, M, P>, frame: RenderFrame<V>) -> bool {
    match frame.phase {
        RenderPhase::Images { selected } => selected.input_views == ctx.last_good_view_params,
        RenderPhase::Views { selected, .. } => selected.input_views == ctx.last_good_view_params,
        RenderPhase::Drawing { composed } => composed_well(ctx, frame.vsync_time, composed),
        RenderPhase::Releasing { composed } => composed_well(ctx, frame.vsync_time, composed),
        RenderPhase::RuntimeClock { composed } => composed_well(ctx, frame.vsync_time, composed)
            && composed.selected.buffer != 0,
        RenderPhase::Submitting { composed } => composed_well(ctx, frame.vsync_time, composed)
            && composed.selected.buffer != 0,
        _ => true,
    }
}

/// What the stream and a frame have become after a sequence of outcomes.
pub open spec fn run<V, M, P>(
    ctx: RenderContext<V, M, P>,
    frame: RenderFrame<V>,
    events: Seq<RenderEvent<V>>,
) -> (RenderContext<V, M, P>, RenderFrame<V>)
    decreases events.len(),
{
    if events.len() == 0 {
        (ctx, frame)
    } else {
        let (c, f) = run(ctx, frame, events.drop_last());
        let outcome = render_next(c, f, events.last());
        (
            RenderContext { last_good_view_params: outcome.last_good_view_params, ..c },
            outcome.frame,
        )
    }
}

/// The work that the last of some outcomes led to.
pub open spec fn last_action<V, M, P>(
    ctx: RenderContext<V, M, P>,
    frame: RenderFrame<V>,
    events: Seq<RenderEvent<V>>,
) -> RenderAction<V, M, P>
    recommends
        events.len() > 0,
{
    let (c, f) = run(ctx, frame, events.drop_last());
    render_next(c, f, events.last()).action
}

/// Whatever outcomes come, a frame fits together, keeps its vsync, and leaves
/// all of the stream but the remembered views as it was.
pub proof fn law_frame_stays_well_formed<V, M, P>(
    ctx: RenderContext<V, M, P>,
    frame: RenderFrame<V>,
    events: Seq<RenderEvent<V>>,
)
    requires
        frame_wf(ctx, frame),
    ensures
        ({
            let (c, f) = run(ctx, frame, events);
            &&& frame_wf(c, f)
            &&& f.vsync_time == frame.vsync_time
            &&& c == (RenderContext { last_good_view_params: c.last_good_view_params, ..ctx })
        }),
    decreases events.len(),
{
    if events.len() > 0 {
        law_frame_stays_well_formed(ctx, frame, events.drop_last());
    }
}

/// The compositor never gets a time more than a second before the vsync, and
/// exactly the vsync where the views are those of the headset.
pub proof fn law_display_time_never_lags_far<V, M, P>(
    ctx: RenderContext<V, M, P>,
    frame: RenderFrame<V>,
    events: Seq<RenderEvent<V>>,
)
    requires
        frame_wf(ctx, frame),
        events.len() > 0,
    ensures
        last_action(ctx, frame, events) matches RenderAction::Finish { layer, display_time } ==> {
            &&& display_time + MAX_DISPLAY_LAG_NS >= frame.vsync_time
            &&& ctx.use_custom_reprojection ==> display_time == frame.vsync_time
            &&& layer.rect == ctx.rect
            &&& layer.alpha == ctx.alpha
            &&& layer.post_processing == ctx.post_processing
        },
{
    law_frame_stays_well_formed(ctx, frame, events.drop_last());
}

/// That a frame is on its way is reported only if there is a new one, and the
/// time until the vsync is never more than the vsync itself.
pub proof fn law_only_new_frames_are_reported<V, M, P>(
    ctx: RenderContext<V, M, P>,
    frame: RenderFrame<V>,
    events: Seq<RenderEvent<V>>,
)
    requires
        frame_wf(ctx, frame),
        events.len() > 0,
    ensures
        last_action(ctx, frame, events) matches RenderAction::ReportSubmit { vsync_queue, .. } ==> {
            &&& run(ctx, frame, events).1.phase matches RenderPhase::Submitting { composed }
            &&& composed.selected.buffer != 0
            &&& vsync_queue <= frame.vsync_time
        },
{
    law_frame_stays_well_formed(ctx, frame, events.drop_last());
}

/// When a frame stops looking for a new one, while it looks.
pub open spec fn deadline_of<V>(phase: RenderPhase<V>) -> Option<u128> {
    match phase {
        RenderPhase::PollClock { deadline } => Some(deadline),
        RenderPhase::PollFrame { deadline } => Some(deadline),
        RenderPhase::PollPause { deadline, .. } => Some(deadline),
        _ => None,
    }
}

/// The decoder is asked for a frame only before the deadline, which is set at
/// the start by the time that there is, and does not move.
pub proof fn law_no_look_after_the_deadline<V, M, P>(
    ctx: RenderContext<V, M, P>,
    frame: RenderFrame<V>,
    event: RenderEvent<V>,
)
    requires
        render_accepts(ctx, event),
    ensures
        ({
            let after = render_next(ctx, frame, event);
            let deadline = deadline_of(frame.phase);
            &&& after.action is PollFrame ==> {
                &&& deadline matches Some(end)
                &&& event matches RenderEvent::Clock { now }
                &&& now < end
            }
            &&& deadline is Some && deadline_of(after.frame.phase) is Some ==> deadline_of(
                after.frame.phase,
            ) == deadline
            &&& deadline is None && deadline_of(after.frame.phase) is Some ==> {
                &&& ctx.has_decoder
                &&& event matches RenderEvent::Begin { now, timeout }
                &&& deadline_of(after.frame.phase)->0 == now + timeout
            }
        }),
{
}

/// Where a frame is found, it is the one that is drawn, from the views that
/// belong to it, and those views are remembered; without other views of its own
/// the stream shows it from where it was rendered.
pub proof fn law_found_frame_is_shown<V, M, P>(
    ctx: RenderContext<V, M, P>,
    vsync_time: u128,
    deadline: u128,
    found: DecodedFrame,
    views: Stereo<V>,
    images: (u32, u32),
    located: (u64, Vec<V>, V),
)
    ensures
        ({
            let looked = RenderFrame {
                vsync_time,
                phase: RenderPhase::PollPause { deadline, found: Some(found) },
            };
            let start = render_next(ctx, looked, RenderEvent::Paused);
            let chosen = render_next(
                ctx,
                start.frame,
                RenderEvent::CompositorStarted { views },
            );
            let after = RenderContext {
                last_good_view_params: chosen.last_good_view_params,
                ..ctx
            };
            let ready = render_next(
                after,
                chosen.frame,
                RenderEvent::ImagesReady { left: images.0, right: images.1 },
            );
            let drawn = render_next(
                after,
                ready.frame,
                RenderEvent::ViewsLocated {
                    flags: located.0,
                    views: located.1,
                    fallback: located.2,
                },
            );
            let shown_from = if ctx.use_custom_reprojection {
                headset_views_of(located.0, located.1@, located.2)
            } else {
                views
            };
            &&& start.action == RenderAction::<V, M, P>::ReportCompositorStart {
                timestamp: found.timestamp,
            }
            &&& chosen.last_good_view_params == views
            &&& drawn.action matches RenderAction::Draw { buffer, left, right, passthrough }
            &&& passthrough == ctx.passthrough
            &&& buffer == found.buffer
            &&& left.swapchain_index == images.0 && right.swapchain_index == images.1
            &&& left.input_view_params == views.left && right.input_view_params == views.right
            &&& left.output_view_params == shown_from.left && right.output_view_params
                == shown_from.right
            &&& drawn.frame.phase matches RenderPhase::Drawing { composed }
            &&& composed.display_time == chosen_display_time(
                ctx.use_custom_reprojection,
                found.timestamp,
                vsync_time,
            )
        }),
{
}

/// Without a new frame the last one is shown again, from its own views, at the
/// vsync, and nothing is reported about it.
pub proof fn law_missing_frame_repeats_the_last<V, M, P>(
    ctx: RenderContext<V, M, P>,
    vsync_time: u128,
    deadline: u128,
    now: u128,
    images: (u32, u32),
    located: (u64, Vec<V>, V),
)
    requires
        now >= deadline,
    ensures
        ({
            let polled = RenderFrame { vsync_time, phase: RenderPhase::PollClock { deadline } };
            let given_up = render_next(ctx, polled, RenderEvent::Clock { now });
            let ready = render_next(
                ctx,
                given_up.frame,
                RenderEvent::ImagesReady { left: images.0, right: images.1 },
            );
            let drawn = render_next(
                ctx,
                ready.frame,
                RenderEvent::ViewsLocated {
                    flags: located.0,
                    views: located.1,
                    fallback: located.2,
                },
            );
            let released = render_next(ctx, drawn.frame, RenderEvent::Drawn);
            let finished = render_next(ctx, released.frame, RenderEvent::Released);
            &&& given_up.last_good_view_params == ctx.last_good_view_params
            &&& drawn.action matches RenderAction::Draw { buffer, left, right, passthrough }
            &&& passthrough == ctx.passthrough
            &&& buffer == 0
            &&& left.input_view_params == ctx.last_good_view_params.left
            &&& right.input_view_params == ctx.last_good_view_params.right
            &&& finished.action matches RenderAction::Finish { display_time, .. }
            &&& display_time == vsync_time
            &&& finished.frame.phase is Finished
        }),
{
}

/// The remembered views change only when a new frame brings its own.
pub proof fn law_views_are_remembered<V, M, P>(
    ctx: RenderContext<V, M, P>,
    frame: RenderFrame<V>,
    event: RenderEvent<V>,
)
    ensures
        frame.phase is CompositorStart && event is CompositorStarted ==> (event matches
            RenderEvent::CompositorStarted { views } && render_next(
            ctx,
            frame,
            event,
        ).last_good_view_params == views),
        !(frame.phase is CompositorStart && event is CompositorStarted) ==> render_next(
            ctx,
            frame,
            event,
        ).last_good_view_params == ctx.last_good_view_params,
{
}

/// The views that came in last with a new frame while a frame was on its way, if
/// any did.
pub open spec fn views_brought<V, M, P>(
    ctx: RenderContext<V, M, P>,
    frame: RenderFrame<V>,
    events: Seq<RenderEvent<V>>,
) -> Option<Stereo<V>>
    decreases events.len(),
{
    if events.len() == 0 {
        None
    } else {
        match (run(ctx, frame, events.drop_last()).1.phase, events.last()) {
            (
                RenderPhase::CompositorStart { .. },
                RenderEvent::CompositorStarted { views },
            ) => Some(views),
            _ => views_brought(ctx, frame, events.drop_last()),
        }
    }
}

/// A frame from its start on: how the stream stood, and the outcomes that came.
pub struct FrameRun<V, M, P> {
    /// How the stream stood, but for the remembered views.
    pub settings: RenderContext<V, M, P>,
    /// The time of the vsync, in nanoseconds.
    pub vsync_time: u128,
    /// The outcomes.
    pub events: Seq<RenderEvent<V>>,
}

impl<V, M, P> FrameRun<V, M, P> {
    /// How the stream stood, with the remembered views.
    pub open spec fn context(self, remembered: Stereo<V>) -> RenderContext<V, M, P> {
        RenderContext { last_good_view_params: remembered, ..self.settings }
    }

    /// The frame at its start.
    pub open spec fn start(self) -> RenderFrame<V> {
        RenderFrame { vsync_time: self.vsync_time, phase: RenderPhase::Begin }
    }
}

/// The views that are remembered after a sequence of frames.
pub open spec fn views_after_frames<V, M, P>(
    initial: Stereo<V>,
    frames: Seq<FrameRun<V, M, P>>,
) -> Stereo<V>
    decreases frames.len(),
{
    if frames.len() == 0 {
        initial
    } else {
        let last = frames.last();
        let ctx = last.context(views_after_frames(initial, frames.drop_last()));
        run(ctx, last.start(), last.events).0.last_good_view_params
    }
}

/// The views that the latest new frame brought over a sequence of frames, or the
/// initial ones if there was none.
pub open spec fn latest_views<V, M, P>(
    initial: Stereo<V>,
    frames: Seq<FrameRun<V, M, P>>,
) -> Stereo<V>
    decreases frames.len(),
{
    if frames.len() == 0 {
        initial
    } else {
        let last = frames.last();
        let before = latest_views(initial, frames.drop_last());
        match views_brought(last.context(before), last.start(), last.events) {
            Some(views) => views,
            None => before,
        }
    }
}

/// One frame remembers the views that came in with a new frame last, and those
/// from before if none did.
proof fn lemma_frame_remembers<V, M, P>(
    ctx: RenderContext<V, M, P>,
    frame: RenderFrame<V>,
    events: Seq<RenderEvent<V>>,
)
    ensures
        run(ctx, frame, events).0.last_good_view_params == match views_brought(
            ctx,
            frame,
            events,
        ) {
            Some(views) => views,
            None => ctx.last_good_view_params,
        },
    decreases events.len(),
{
    if events.len() > 0 {
        lemma_frame_remembers(ctx, frame, events.drop_last());
    }
}

/// Over any number of frames, however the settings change in between, the views
/// of the latest new frame are remembered, and whatever is drawn, a new frame or
/// the last one again, is drawn as seen from them.
pub proof fn law_latest_views_are_shown<V, M, P>(
    initial: Stereo<V>,
    frames: Seq<FrameRun<V, M, P>>,
)
    ensures
        views_after_frames(initial, frames) == latest_views(initial, frames),
        frames.len() > 0 && frames.last().events.len() > 0 ==> ({
            let last = frames.last();
            let ctx = last.context(latest_views(initial, frames.drop_last()));
            last_action(ctx, last.start(), last.events) matches RenderAction::Draw {
                left,
                right,
                ..
            } ==> {
                &&& left.input_view_params == latest_views(initial, frames).left
                &&& right.input_view_params == latest_views(initial, frames).right
            }
        }),
    decreases frames.len(),
{
    if frames.len() > 0 {
        let last = frames.last();
        law_latest_views_are_shown(initial, frames.drop_last());
        let ctx = last.context(latest_views(initial, frames.drop_last()));
        lemma_frame_remembers(ctx, last.start(), last.events);
        law_frame_stays_well_formed(ctx, last.start(), last.events);
        if last.events.len() > 0 {
            law_frame_stays_well_formed(ctx, last.start(), last.events.drop_last());
        }
    }
}

/// Times and sizes keep their bits in the form of the runtime: they differ from
/// what they stand for by whole rounds, and lie within the range of the form.
pub proof fn law_numbers_keep_their_bits(ns: u128, time: i64, size: u32)
    ensures
        (ns - low_bits_signed(ns)) % 0x1_0000_0000_0000_0000 == 0,
        i64::MIN <= low_bits_signed(ns) <= i64::MAX,
        (bits_unsigned(time) - time) % 0x1_0000_0000_0000_0000 == 0,
        0 <= bits_unsigned(time) <= u64::MAX,
        (size - size_signed(size)) % 0x1_0000_0000 == 0,
        i32::MIN <= size_signed(size) <= i32::MAX,
{
}

/// The orientations are valid exactly if the lowest bit of the flags is set.
pub proof fn law_orientation_is_the_lowest_bit(flags: u64)
    ensures
        orientation_flag(flags) <==> flags & 1 == 1,
{
    assert((flags % 2 == 1) == (flags & 1 == 1)) by (bit_vector);
}

/// The display time is the vsync where the views are those of the headset.
/// Elsewhere it is the time of the frame, moved forward only as far as a second
/// before the vsync asks for.
pub proof fn law_display_time_is_the_frame_or_a_second_before(timestamp: u128, vsync_time: u128)
    ensures
        chosen_display_time(true, timestamp, vsync_time) == vsync_time,
        ({
            let time = chosen_display_time(false, timestamp, vsync_time);
            &&& time >= timestamp
            &&& time + 1_000_000_000 >= vsync_time
            &&& time == timestamp || time + 1_000_000_000 == vsync_time
        }),
{
}

/// Whether an outcome is the one that a phase waits for.
pub open spec fn is_awaited<V>(phase: RenderPhase<V>, event: RenderEvent<V>) -> bool {
    match event {
        RenderEvent::Begin { .. } => phase is Begin,
        RenderEvent::Clock { .. } => phase is PollClock,
        RenderEvent::FramePolled { .. } => phase is PollFrame,
        RenderEvent::Paused => phase is PollPause,
        RenderEvent::CompositorStarted { .. } => phase is CompositorStart,
        RenderEvent::ImagesReady { .. } => phase is Images,
        RenderEvent::ViewsLocated { .. } => phase is Views,
        RenderEvent::Drawn => phase is Drawing,
        RenderEvent::Released => phase is Releasing,
        RenderEvent::RuntimeClock { .. } => phase is RuntimeClock,
        RenderEvent::Submitted => phase is Submitting,
    }
}

/// An outcome that is not waited for changes nothing, and every one that is leads
/// on. No outcome is waited for once the frame is handed over.
pub proof fn law_only_awaited_outcomes_count<V, M, P>(
    ctx: RenderContext<V, M, P>,
    frame: RenderFrame<V>,
    event: RenderEvent<V>,
)
    ensures
        ({
            let after = render_next(ctx, frame, event);
            &&& after.action is Unexpected <==> !is_awaited(frame.phase, event)
            &&& !is_awaited(frame.phase, event) ==> after.frame == frame
                && after.last_good_view_params == ctx.last_good_view_params
            &&& after.action is Finish ==> after.frame.phase is Finished
            &&& after.frame.vsync_time == frame.vsync_time
        }),
{
}

/// The last outcome of a run at which something was drawn, with the order to draw
/// it.
pub open spec fn last_draw<V, M, P>(
    ctx: RenderContext<V, M, P>,
    frame: RenderFrame<V>,
    events: Seq<RenderEvent<V>>,
) -> Option<(RenderEvent<V>, StreamViewParams<V>, StreamViewParams<V>)>
    decreases events.len(),
{
    if events.len() == 0 {
        None
    } else {
        match last_action(ctx, frame, events) {
            RenderAction::Draw { left, right, .. } => Some((events.last(), left, right)),
            _ => last_draw(ctx, frame, events.drop_last()),
        }
    }
}

/// Whether what was decided about a frame is what was drawn of it.
pub open spec fn was_drawn<V>(
    composed: ComposedFrame<V>,
    draw: Option<(RenderEvent<V>, StreamViewParams<V>, StreamViewParams<V>)>,
) -> bool {
    &&& draw matches Some((_, left, right))
    &&& composed.output_views.left == left.output_view_params
    &&& composed.output_views.right == right.output_view_params
}

/// From drawing on, what was decided about a frame is what was drawn of it.
proof fn lemma_decided_is_drawn<V, M, P>(
    ctx: RenderContext<V, M, P>,
    frame: RenderFrame<V>,
    events: Seq<RenderEvent<V>>,
)
    requires
        frame.phase is Begin,
    ensures
        ({
            let draw = last_draw(ctx, frame, events);
            match run(ctx, frame, events).1.phase {
                RenderPhase::Drawing { composed } => was_drawn(composed, draw),
                RenderPhase::Releasing { composed } => was_drawn(composed, draw),
                RenderPhase::RuntimeClock { composed } => was_drawn(composed, draw),
                RenderPhase::Submitting { composed } => was_drawn(composed, draw),
                _ => true,
            }
        }),
    decreases events.len(),
{
    if events.len() > 0 {
        lemma_decided_is_drawn(ctx, frame, events.drop_last());
    }
}

/// Whatever is drawn is shown from the views that were located for it, where the
/// stream uses those of the headset: each eye its own, or the fallback for both
/// where the orientation is not valid. Elsewhere it is shown from the views that
/// the server rendered.
pub proof fn law_drawn_from_the_headset_or_the_server<V, M, P>(
    ctx: RenderContext<V, M, P>,
    frame: RenderFrame<V>,
    event: RenderEvent<V>,
)
    ensures
        render_next(ctx, frame, event).action matches RenderAction::Draw {
            left,
            right,
            passthrough,
            ..
        } ==> {
            &&& event matches RenderEvent::ViewsLocated { flags, views, fallback }
            &&& passthrough == ctx.passthrough
            &&& ctx.use_custom_reprojection && flags & 1 == 1 ==> left.output_view_params
                == views@[0] && right.output_view_params == views@[1]
            &&& ctx.use_custom_reprojection && flags & 1 != 1 ==> left.output_view_params
                == fallback && right.output_view_params == fallback
            &&& !ctx.use_custom_reprojection ==> left.output_view_params == left.input_view_params
                && right.output_view_params == right.input_view_params
        },
{
    if let RenderEvent::ViewsLocated { flags, .. } = event {
        law_orientation_is_the_lowest_bit(flags);
    }
}

/// The compositor is told the views that the image was drawn for. Over any run of
/// a frame, when its layer is handed over, the views of the layer are those that
/// the frame was last drawn from: the located ones of the headset, or the
/// fallback for both eyes, where the stream uses them, and otherwise the views
/// that the server rendered.
pub proof fn law_layer_has_the_views_it_was_drawn_for<V, M, P>(
    ctx: RenderContext<V, M, P>,
    frame: RenderFrame<V>,
    events: Seq<RenderEvent<V>>,
)
    requires
        frame.phase is Begin,
        events.len() > 0,
        last_action(ctx, frame, events) is Finish,
    ensures
        ({
            let layer = last_action(ctx, frame, events)->layer;
            &&& last_draw(ctx, frame, events) matches Some((at, left, right))
            &&& layer.views.left == left.output_view_params
            &&& layer.views.right == right.output_view_params
            &&& at matches RenderEvent::ViewsLocated { flags, views, fallback }
            &&& ctx.use_custom_reprojection && flags & 1 == 1 ==> layer.views.left == views@[0]
                && layer.views.right == views@[1]
            &&& ctx.use_custom_reprojection && flags & 1 != 1 ==> layer.views.left == fallback
                && layer.views.right == fallback
            &&& !ctx.use_custom_reprojection ==> layer.views.left == left.input_view_params
                && layer.views.right == right.input_view_params
        }),
{
    lemma_decided_is_drawn(ctx, frame, events.drop_last());
    lemma_draw_is_from_its_event(ctx, frame, events);
}

/// What was drawn last was drawn at the outcome that is remembered with it.
proof fn lemma_draw_is_from_its_event<V, M, P>(
    ctx: RenderContext<V, M, P>,
    frame: RenderFrame<V>,
    events: Seq<RenderEvent<V>>,
)
    ensures
        last_draw(ctx, frame, events) matches Some((at, left, right)) ==> {
            &&& at matches RenderEvent::ViewsLocated { flags, views, fallback }
            &&& ctx.use_custom_reprojection && flags & 1 == 1 ==> left.output_view_params
                == views@[0] && right.output_view_params == views@[1]
            &&& ctx.use_custom_reprojection && flags & 1 != 1 ==> left.output_view_params
                == fallback && right.output_view_params == fallback
            &&& !ctx.use_custom_reprojection ==> left.output_view_params == left.input_view_params
                && right.output_view_params == right.input_view_params
        },
    decreases events.len(),
{
    if events.len() > 0 {
        let before = events.drop_last();
        lemma_draw_is_from_its_event(ctx, frame, before);
        lemma_run_keeps_the_settings(ctx, frame, before);
        let (c, f) = run(ctx, frame, before);
        law_drawn_from_the_headset_or_the_server(c, f, events.last());
    }
}

/// A frame leaves all of the stream but the remembered views as it was.
proof fn lemma_run_keeps_the_settings<V, M, P>(
    ctx: RenderContext<V, M, P>,
    frame: RenderFrame<V>,
    events: Seq<RenderEvent<V>>,
)
    ensures
        run(ctx, frame, events).0 == (RenderContext {
            last_good_view_params: run(ctx, frame, events).0.last_good_view_params,
            ..ctx
        }),
    decreases events.len(),
{
    if events.len() > 0 {
        lemma_run_keeps_the_settings(ctx, frame, events.drop_last());
    }
}

/// A look that finds nothing leaves the frame as it was before: it pauses for
/// half a millisecond and reads the clock again.
pub proof fn law_vain_look_changes_nothing<V, M, P>(
    ctx: RenderContext<V, M, P>,
    vsync_time: u128,
    begin: (u128, u128),
    now: u128,
)
    requires
        ctx.has_decoder,
        begin.0 + begin.1 <= u128::MAX,
        now < begin.0 + begin.1,
    ensures
        ({
            let start = RenderFrame::<V>::at_start(vsync_time);
            let begun = render_next(
                ctx,
                start,
                RenderEvent::Begin { now: begin.0, timeout: begin.1 },
            );
            let looking = render_next(ctx, begun.frame, RenderEvent::Clock { now });
            let looked = render_next(
                ctx,
                looking.frame,
                RenderEvent::FramePolled { frame: None },
            );
            let paused = render_next(ctx, looked.frame, RenderEvent::Paused);
            &&& begun.action is ReadClock
            &&& looking.action is PollFrame
            &&& looked.action == RenderAction::<V, M, P>::Pause { duration: 500_000 }
            &&& paused.action is ReadClock
            &&& paused.frame == begun.frame
            &&& paused.last_good_view_params == ctx.last_good_view_params
        }),
{
}

/// A frame that finds a new image runs its course: the image is asked for before
/// the time is over, its views are asked for by its time and remembered, both
/// images are acquired, the headset is located for the vsync, the image is drawn,
/// and the layer is handed over with the time of the image. If the image has a
/// buffer and the runtime tells its time, the time left to the vsync is reported
/// in between.
pub proof fn law_new_image_runs_its_course<V, M, P>(
    ctx: RenderContext<V, M, P>,
    vsync_time: u128,
    begin: (u128, u128),
    now: u128,
    found: DecodedFrame,
    views: Stereo<V>,
    images: (u32, u32),
    located: (u64, Vec<V>, V),
    clock: Option<i64>,
)
    requires
        ctx.has_decoder,
        begin.0 + begin.1 <= u128::MAX,
        now < begin.0 + begin.1,
    ensures
        ({
            let start = RenderFrame::<V>::at_start(vsync_time);
            let s1 = render_next(ctx, start, RenderEvent::Begin { now: begin.0, timeout: begin.1 });
            let s2 = render_next(ctx, s1.frame, RenderEvent::Clock { now });
            let s3 = render_next(ctx, s2.frame, RenderEvent::FramePolled { frame: Some(found) });
            let s4 = render_next(ctx, s3.frame, RenderEvent::Paused);
            let s5 = render_next(ctx, s4.frame, RenderEvent::CompositorStarted { views });
            let later = RenderContext { last_good_view_params: s5.last_good_view_params, ..ctx };
            let s6 = render_next(
                later,
                s5.frame,
                RenderEvent::ImagesReady { left: images.0, right: images.1 },
            );
            let s7 = render_next(
                later,
                s6.frame,
                RenderEvent::ViewsLocated {
                    flags: located.0,
                    views: located.1,
                    fallback: located.2,
                },
            );
            let s8 = render_next(later, s7.frame, RenderEvent::Drawn);
            let s9 = render_next(later, s8.frame, RenderEvent::Released);
            let s10 = render_next(later, s9.frame, RenderEvent::RuntimeClock { now: clock });
            let s11 = render_next(later, s10.frame, RenderEvent::Submitted);
            let end = if found.buffer == 0 {
                s9
            } else if clock is None {
                s10
            } else {
                s11
            };
            &&& s1.action is ReadClock && s2.action is PollFrame
            &&& s3.action == RenderAction::<V, M, P>::Pause { duration: 500_000 }
            &&& s4.action == RenderAction::<V, M, P>::ReportCompositorStart {
                timestamp: found.timestamp,
            }
            &&& s5.action is AcquireImages && s5.last_good_view_params == views
            &&& s6.action matches RenderAction::LocateViews { time }
            &&& (vsync_time - time) % 0x1_0000_0000_0000_0000 == 0
            &&& s7.action matches RenderAction::Draw { buffer, left, right, passthrough }
            &&& buffer == found.buffer && passthrough == ctx.passthrough
            &&& left.swapchain_index == images.0 && right.swapchain_index == images.1
            &&& left.input_view_params == views.left && right.input_view_params == views.right
            &&& s8.action is ReleaseImages
            &&& found.buffer != 0 ==> s9.action is ReadRuntimeClock
            &&& found.buffer != 0 && clock is Some ==> {
                &&& s10.action matches RenderAction::ReportSubmit { timestamp, vsync_queue }
                &&& timestamp == found.timestamp
                &&& clock->0 >= 0 && clock->0 <= vsync_time ==> vsync_queue + clock->0
                    == vsync_time
                &&& clock->0 >= 0 && clock->0 >= vsync_time ==> vsync_queue == 0
                &&& clock->0 < 0 && vsync_time <= u64::MAX + clock->0 + 1 ==> vsync_queue == 0
                &&& clock->0 < 0 && vsync_time > u64::MAX + clock->0 + 1 ==> vsync_queue
                    + u64::MAX + clock->0 + 1 == vsync_time
            }
            &&& end.action matches RenderAction::Finish { layer, display_time }
            &&& layer.views.left == left.output_view_params
            &&& layer.views.right == right.output_view_params
            &&& layer.rect == ctx.rect && layer.alpha == ctx.alpha
            &&& layer.post_processing == ctx.post_processing
            &&& ctx.use_custom_reprojection ==> display_time == vsync_time
            &&& !ctx.use_custom_reprojection ==> {
                &&& display_time >= found.timestamp
                &&& display_time + 1_000_000_000 >= vsync_time
                &&& display_time == found.timestamp || display_time + 1_000_000_000 == vsync_time
            }
            &&& end.last_good_view_params == views
        }),
{
    law_numbers_keep_their_bits(vsync_time, 0, 0);
}

/// A frame without a new image runs its course: where there is no decoder, or the
/// time is over before a look, the last image is drawn again from its remembered
/// views and handed over for the vsync, and nothing is reported.
pub proof fn law_no_new_image_runs_its_course<V, M, P>(
    ctx: RenderContext<V, M, P>,
    vsync_time: u128,
    begin: (u128, u128),
    now: u128,
    images: (u32, u32),
    located: (u64, Vec<V>, V),
)
    requires
        begin.0 + begin.1 <= u128::MAX,
        now >= begin.0 + begin.1,
    ensures
        ({
            let start = RenderFrame::<V>::at_start(vsync_time);
            let s1 = render_next(ctx, start, RenderEvent::Begin { now: begin.0, timeout: begin.1 });
            let s2 = if ctx.has_decoder {
                render_next(ctx, s1.frame, RenderEvent::Clock { now })
            } else {
                s1
            };
            let s3 = render_next(
                ctx,
                s2.frame,
                RenderEvent::ImagesReady { left: images.0, right: images.1 },
            );
            let s4 = render_next(
                ctx,
                s3.frame,
                RenderEvent::ViewsLocated {
                    flags: located.0,
                    views: located.1,
                    fallback: located.2,
                },
            );
            let s5 = render_next(ctx, s4.frame, RenderEvent::Drawn);
            let s6 = render_next(ctx, s5.frame, RenderEvent::Released);
            &&& ctx.has_decoder ==> s1.action is ReadClock
            &&& s2.action is AcquireImages
            &&& s3.action matches RenderAction::LocateViews { time }
            &&& (vsync_time - time) % 0x1_0000_0000_0000_0000 == 0
            &&& s4.action matches RenderAction::Draw { buffer, left, right, passthrough }
            &&& buffer == 0 && passthrough == ctx.passthrough
            &&& left.swapchain_index == images.0 && right.swapchain_index == images.1
            &&& left.input_view_params == ctx.last_good_view_params.left
            &&& right.input_view_params == ctx.last_good_view_params.right
            &&& s5.action is ReleaseImages
            &&& s6.action matches RenderAction::Finish { layer, display_time }
            &&& layer.views.left == left.output_view_params
            &&& layer.views.right == right.output_view_params
            &&& layer.rect == ctx.rect && layer.alpha == ctx.alpha
            &&& layer.post_processing == ctx.post_processing
            &&& display_time == vsync_time
            &&& s6.last_good_view_params == ctx.last_good_view_params
        }),
{
    law_numbers_keep_their_bits(vsync_time, 0, 0);
}

} // verus!
