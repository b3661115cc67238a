//! One frame, from polling the decoder to the layer that is handed to the
//! compositor.
//!
//! Rendering alternates between work for the runtime, the decoder and the
//! graphics, and decisions on what comes back. The decisions are steps of a
//! machine: a step takes the outcome of the work that was asked for, and asks
//! for the next.
use crate::config::{PassthroughMode, Resolution, StreamTypes};
use vstd::prelude::*;

verus! {

/// How long to wait between two looks for a frame, in nanoseconds.
pub const POLL_PAUSE_NS: u128 = 500_000;

/// How far the display time may lag behind the coming vsync, in nanoseconds.
pub const MAX_DISPLAY_LAG_NS: u128 = 1_000_000_000;

/// One value for each eye.
#[derive(Clone, Copy, Debug)]
pub struct Stereo<V> {
    /// For the left eye.
    pub left: V,
    /// For the right eye.
    pub right: V,
}

/// A frame out of the decoder.
#[derive(Clone, Copy, Debug, PartialEq, Eq, Structural)]
pub struct DecodedFrame {
    /// The time that the frame was made for, in nanoseconds.
    pub timestamp: u128,
    /// The address of its buffer; 0 if it has none.
    pub buffer: usize,
}

/// What is shown, and from where it was seen.
#[derive(Clone, Copy, Debug)]
pub struct SelectedFrame<V> {
    /// The time that the frame was made for, in nanoseconds.
    pub timestamp: u128,
    /// The views that the server rendered.
    pub input_views: Stereo<V>,
    /// The address of the buffer; 0 if there is no new frame.
    pub buffer: usize,
}

/// A frame with all that was decided about showing it.
#[derive(Clone, Copy, Debug)]
pub struct ComposedFrame<V> {
    /// The frame.
    pub selected: SelectedFrame<V>,
    /// The views to show it from.
    pub output_views: Stereo<V>,
    /// The time to give to the compositor, in nanoseconds.
    pub display_time: u128,
}

/// What a frame is waiting for.
#[derive(Clone, Copy, Debug)]
pub enum RenderPhase<V> {
    /// The start.
    Begin,
    /// The clock, to see whether there is time for another look.
    PollClock {
        /// When to stop looking for a frame.
        deadline: u128,
    },
    /// A look for a frame.
    PollFrame {
        /// When to stop looking for a frame.
        deadline: u128,
    },
    /// The end of the pause after a look.
    PollPause {
        /// When to stop looking for a frame.
        deadline: u128,
        /// What the look found.
        found: Option<DecodedFrame>,
    },
    /// The views that belong to a frame.
    CompositorStart {
        /// The frame.
        frame: DecodedFrame,
    },
    /// An image of each swapchain.
    Images {
        /// What is shown.
        selected: SelectedFrame<V>,
    },
    /// Where the headset will be.
    Views {
        /// What is shown.
        selected: SelectedFrame<V>,
        /// The image for the left eye.
        left_image: u32,
        /// The image for the right eye.
        right_image: u32,
    },
    /// The end of drawing.
    Drawing {
        /// What is drawn.
        composed: ComposedFrame<V>,
    },
    /// The images to be given back.
    Releasing {
        /// What was drawn.
        composed: ComposedFrame<V>,
    },
    /// The time of the runtime.
    RuntimeClock {
        /// What was drawn.
        composed: ComposedFrame<V>,
    },
    /// The report to go out.
    Submitting {
        /// What was drawn.
        composed: ComposedFrame<V>,
    },
    /// Nothing more.
    Finished,
}

/// The outcome of work.
pub enum RenderEvent<V> {
    /// The frame starts.
    Begin {
        /// The time, in nanoseconds.
        now: u128,
        /// How long to look for a frame, in nanoseconds.
        timeout: u128,
    },
    /// The clock was read.
    Clock {
        /// The time, in nanoseconds.
        now: u128,
    },
    /// The decoder was asked for a frame.
    FramePolled {
        /// The frame that it had.
        frame: Option<DecodedFrame>,
    },
    /// The pause is over.
    Paused,
    /// The start of composing was reported.
    CompositorStarted {
        /// The views that the server rendered the frame for.
        views: Stereo<V>,
    },
    /// The images can be drawn to.
    ImagesReady {
        /// The image for the left eye.
        left: u32,
        /// The image for the right eye.
        right: u32,
    },
    /// The headset was located.
    ViewsLocated {
        /// The state flags of the runtime.
        flags: u64,
        /// The views of both eyes.
        views: Vec<V>,
        /// The view to use in place of one that is not valid.
        fallback: V,
    },
    /// The frame is drawn.
    Drawn,
    /// The images are given back.
    Released,
    /// The time of the runtime was read.
    RuntimeClock {
        /// The time, in nanoseconds, if the runtime tells it.
        now: Option<i64>,
    },
    /// The report went out.
    Submitted,
}

/// What is drawn for one eye.
#[derive(Clone, Copy, Debug)]
pub struct StreamViewParams<V> {
    /// The image to draw to.
    pub swapchain_index: u32,
    /// The view that the server rendered.
    pub input_view_params: V,
    /// The view to show it from.
    pub output_view_params: V,
}

/// A rectangle of an image.
#[derive(Clone, Copy, Debug, PartialEq, Eq, Structural)]
pub struct ImageRect {
    /// The left edge.
    pub x: i32,
    /// The upper edge.
    pub y: i32,
    /// The width.
    pub width: i32,
    /// The height.
    pub height: i32,
}

/// How the alpha of a layer is used.
#[derive(Clone, Copy, Debug, PartialEq, Eq, Structural)]
pub struct ProjectionLayerAlphaConfig {
    /// Whether the colours come multiplied by alpha.
    pub premultiplied: bool,
}

/// What is handed to the compositor.
#[derive(Clone, Copy, Debug)]
pub struct ProjectionLayer<V, P> {
    /// The views of both eyes.
    pub views: Stereo<V>,
    /// The part of the images that is shown.
    pub rect: ImageRect,
    /// How alpha is used, if it is.
    pub alpha: Option<ProjectionLayerAlphaConfig>,
    /// How the compositor processes the layer, if it does.
    pub post_processing: Option<P>,
}

/// Work to do next. `M` says how the room shows through the stream, and `P` how
/// the compositor processes the layer; neither is looked into.
#[derive(Clone, Copy, Debug)]
pub enum RenderAction<V, M, P> {
    /// Read the clock.
    ReadClock,
    /// Ask the decoder for a frame.
    PollFrame,
    /// Pause.
    Pause {
        /// How long, in nanoseconds.
        duration: u128,
    },
    /// Report the start of composing, and get the views of the frame.
    ReportCompositorStart {
        /// The time that the frame was made for, in nanoseconds.
        timestamp: u128,
    },
    /// Acquire an image of each swapchain, and wait for both.
    AcquireImages,
    /// Locate the headset.
    LocateViews {
        /// At this time of the runtime, in nanoseconds.
        time: i64,
    },
    /// Draw.
    Draw {
        /// The address of the buffer; 0 if there is no new frame.
        buffer: usize,
        /// For the left eye.
        left: StreamViewParams<V>,
        /// For the right eye.
        right: StreamViewParams<V>,
        /// How the room shows through, if it does.
        passthrough: Option<M>,
    },
    /// Give the images back.
    ReleaseImages,
    /// Read the time of the runtime.
    ReadRuntimeClock,
    /// Report that the frame is on its way.
    ReportSubmit {
        /// The time that the frame was made for, in nanoseconds.
        timestamp: u128,
        /// How long it is until the vsync, in nanoseconds.
        vsync_queue: u128,
    },
    /// Hand the layer to the compositor.
    Finish {
        /// The layer.
        layer: ProjectionLayer<V, P>,
        /// The time to give with it, in nanoseconds.
        display_time: u128,
    },
    /// Nothing: this outcome was not waited for.
    Unexpected,
}

/// A frame on its way.
#[derive(Clone, Copy, Debug)]
pub struct RenderFrame<V> {
    /// The time of the coming vsync, in nanoseconds.
    pub vsync_time: u128,
    /// What the frame is waiting for.
    pub phase: RenderPhase<V>,
}

/// What rendering needs to know of the stream. `M` says how the room shows
/// through it, and `P` how the compositor processes the layer.
#[derive(Clone, Copy, Debug)]
pub struct RenderContext<V, M, P> {
    /// Whether there is a decoder.
    pub has_decoder: bool,
    /// Whether the views are replaced by those of the headset.
    pub use_custom_reprojection: bool,
    /// The views of the last frame.
    pub last_good_view_params: Stereo<V>,
    /// The part of the images that is shown.
    pub rect: ImageRect,
    /// How the room shows through, if it does.
    pub passthrough: Option<M>,
    /// How alpha is used, if it is.
    pub alpha: Option<ProjectionLayerAlphaConfig>,
    /// How the compositor processes the layer, if it does.
    pub post_processing: Option<P>,
}

/// A time without what lies before another; nothing if it is the earlier one.
pub open spec fn time_left(t: u128, other: u128) -> u128 {
    if t >= other {
        (t - other) as u128
    } else {
        0
    }
}

/// The last 64 bits of a number, read with a sign.
pub open spec fn low_bits_signed(n: u128) -> int {
    let low = n % 0x1_0000_0000_0000_0000;
    if low < 0x8000_0000_0000_0000 {
        low as int
    } else {
        low - 0x1_0000_0000_0000_0000
    }
}

/// A number with a sign, read without.
pub open spec fn bits_unsigned(n: i64) -> int {
    if n >= 0 {
        n as int
    } else {
        n + 0x1_0000_0000_0000_0000
    }
}

/// The last 32 bits of a number, read with a sign.
pub open spec fn size_signed(n: u32) -> int {
    if n < 0x8000_0000 {
        n as int
    } else {
        n - 0x1_0000_0000
    }
}

/// A time in the form of the runtime: the last 64 bits of the nanoseconds.
pub fn runtime_time(ns: u128) -> (time: i64)
    ensures
        time == low_bits_signed(ns),
{
    let low: u128 = ns % 0x1_0000_0000_0000_0000;
    if low < 0x8000_0000_0000_0000 {
        low as i64
    } else {
        (low - 0x8000_0000_0000_0000) as i64 + i64::MIN
    }
}

/// How long it is from the time of the runtime to the vsync. A negative time of
/// the runtime counts as one far ahead.
pub fn vsync_queue(vsync_time: u128, runtime_now: i64) -> (queue: u128)
    ensures
        queue == time_left(vsync_time, bits_unsigned(runtime_now) as u128),
{
    let now: u128 = if runtime_now >= 0 {
        runtime_now as u128
    } else {
        (runtime_now - i64::MIN) as u128 + 0x8000_0000_0000_0000
    };
    vsync_time.saturating_sub(now)
}

/// The time that a frame is shown at: the time it was made for, but not more
/// than a second before the vsync, since some runtimes dislike a time that is
/// repeated for too long.
pub open spec fn lagged_display_time(timestamp: u128, vsync_time: u128) -> u128 {
    if timestamp >= time_left(vsync_time, MAX_DISPLAY_LAG_NS) {
        timestamp
    } else {
        time_left(vsync_time, MAX_DISPLAY_LAG_NS)
    }
}

/// The time to give to the compositor. Where the views are those of the headset
/// at the vsync, it is the vsync.
pub open spec fn chosen_display_time(custom: bool, timestamp: u128, vsync_time: u128) -> u128 {
    if custom {
        vsync_time
    } else {
        lagged_display_time(timestamp, vsync_time)
    }
}

/// The time to give to the compositor.
pub fn display_time(custom: bool, timestamp: u128, vsync_time: u128) -> (time: u128)
    ensures
        time == chosen_display_time(custom, timestamp, vsync_time),
{
    if custom {
        return vsync_time;
    }
    let earliest: u128 = vsync_time.saturating_sub(MAX_DISPLAY_LAG_NS);
    if timestamp >= earliest {
        timestamp
    } else {
        earliest
    }
}

/// Whether the first state flag of the runtime is set: the orientations of the
/// views are valid.
pub open spec fn orientation_flag(flags: u64) -> bool {
    flags % 2 == 1
}

/// `ViewStateFlags::contains` of openxr, asked for `ORIENTATION_VALID`. The
/// contract claims that this flag is the lowest bit of the raw flags.
#[verifier::external_body]
fn orientation_valid(flags: u64) -> (valid: bool)
    ensures
        valid == orientation_flag(flags),
{
    openxr::ViewStateFlags::from_raw(flags).contains(openxr::ViewStateFlags::ORIENTATION_VALID)
}

/// Where the headset is: the located views, or the fallback for both eyes where
/// they are not valid.
pub open spec fn headset_views_of<V>(flags: u64, views: Seq<V>, fallback: V) -> Stereo<V> {
    if orientation_flag(flags) {
        Stereo { left: views[0], right: views[1] }
    } else {
        Stereo { left: fallback, right: fallback }
    }
}

/// Where the headset is.
pub fn headset_views<V: Copy>(flags: u64, views: &Vec<V>, fallback: V) -> (headset: Stereo<V>)
    requires
        orientation_flag(flags) ==> views.len() >= 2,
    ensures
        headset == headset_views_of(flags, views@, fallback),
{
    if orientation_valid(flags) {
        Stereo { left: views[0], right: views[1] }
    } else {
        Stereo { left: fallback, right: fallback }
    }
}

/// The whole of an image.
pub fn image_rect(resolution: Resolution) -> (rect: ImageRect)
    ensures
        rect.x == 0,
        rect.y == 0,
        rect.width == size_signed(resolution.x),
        rect.height == size_signed(resolution.y),
{
    ImageRect { x: 0, y: 0, width: signed_size(resolution.x), height: signed_size(resolution.y) }
}

/// A size in the form of the runtime.
fn signed_size(n: u32) -> (size: i32)
    ensures
        size == size_signed(n),
{
    if n < 0x8000_0000 {
        n as i32
    } else {
        (n - 0x8000_0000) as i32 + i32::MIN
    }
}

/// Whether a mode gives colours that are multiplied by alpha. Chroma keys do.
pub open spec fn gives_premultiplied<T: StreamTypes>(mode: PassthroughMode<T>) -> bool {
    match mode {
        PassthroughMode::Blend { premultiplied_alpha, .. } => premultiplied_alpha,
        _ => true,
    }
}

/// How a layer uses alpha: if the room shows through, as the mode says.
pub open spec fn alpha_of<T: StreamTypes>(mode: Option<PassthroughMode<T>>) -> Option<
    ProjectionLayerAlphaConfig,
> {
    match mode {
        Some(m) => Some(ProjectionLayerAlphaConfig { premultiplied: gives_premultiplied(m) }),
        None => None,
    }
}

/// How a layer uses alpha.
pub fn layer_alpha<T: StreamTypes>(mode: &Option<PassthroughMode<T>>) -> (alpha: Option<
    ProjectionLayerAlphaConfig,
>)
    ensures
        alpha == alpha_of(*mode),
{
    match mode {
        Some(PassthroughMode::Blend { premultiplied_alpha, .. }) => Some(
            ProjectionLayerAlphaConfig { premultiplied: *premultiplied_alpha },
        ),
        Some(PassthroughMode::RgbChromaKey(_)) => Some(
            ProjectionLayerAlphaConfig { premultiplied: true },
        ),
        Some(PassthroughMode::HsvChromaKey(_)) => Some(
            ProjectionLayerAlphaConfig { premultiplied: true },
        ),
        None => None,
    }
}

/// What a step leaves behind.
pub struct RenderOutcome<V, M, P> {
    /// The frame.
    pub frame: RenderFrame<V>,
    /// The views of the last frame.
    pub last_good_view_params: Stereo<V>,
    /// The work to do next.
    pub action: RenderAction<V, M, P>,
}

/// What is shown where no new frame was found: the last one, from its views.
pub open spec fn repeated_frame<V, M, P>(
    ctx: RenderContext<V, M, P>,
    frame: RenderFrame<V>,
) -> SelectedFrame<V> {
    SelectedFrame {
        timestamp: frame.vsync_time,
        input_views: ctx.last_good_view_params,
        buffer: 0,
    }
}

/// What is shown of a new frame.
pub open spec fn new_frame<V>(frame: DecodedFrame, views: Stereo<V>) -> SelectedFrame<V> {
    SelectedFrame { timestamp: frame.timestamp, input_views: views, buffer: frame.buffer }
}

/// How a frame is shown, with the headset at the given views.
pub open spec fn composed_frame<V, M, P>(
    ctx: RenderContext<V, M, P>,
    vsync_time: u128,
    selected: SelectedFrame<V>,
    headset: Stereo<V>,
) -> ComposedFrame<V> {
    ComposedFrame {
        selected,
        output_views: if ctx.use_custom_reprojection {
            headset
        } else {
            selected.input_views
        },
        display_time: chosen_display_time(
            ctx.use_custom_reprojection,
            selected.timestamp,
            vsync_time,
        ),
    }
}

/// The order to draw a frame.
pub open spec fn draw_action<V, M, P>(
    ctx: RenderContext<V, M, P>,
    composed: ComposedFrame<V>,
    left_image: u32,
    right_image: u32,
) -> RenderAction<V, M, P> {
    RenderAction::Draw {
        buffer: composed.selected.buffer,
        left: StreamViewParams {
            swapchain_index: left_image,
            input_view_params: composed.selected.input_views.left,
            output_view_params: composed.output_views.left,
        },
        right: StreamViewParams {
            swapchain_index: right_image,
            input_view_params: composed.selected.input_views.right,
            output_view_params: composed.output_views.right,
        },
        passthrough: ctx.passthrough,
    }
}

/// The order to hand a frame to the compositor.
pub open spec fn finish_action<V, M, P>(
    ctx: RenderContext<V, M, P>,
    composed: ComposedFrame<V>,
) -> RenderAction<V, M, P> {
    RenderAction::Finish {
        layer: ProjectionLayer {
            views: composed.output_views,
            rect: ctx.rect,
            alpha: ctx.alpha,
            post_processing: ctx.post_processing,
        },
        display_time: composed.display_time,
    }
}

/// The phase that follows, and the work that leads on from it, when a frame in
/// `phase` gets the outcome that it waits for; nothing for any other outcome.
pub open spec fn render_transition<V, M, P>(
    ctx: RenderContext<V, M, P>,
    frame: RenderFrame<V>,
    event: RenderEvent<V>,
) -> Option<(RenderPhase<V>, RenderAction<V, M, P>)> {
    let repeat = (
        RenderPhase::Images { selected: repeated_frame(ctx, frame) },
        RenderAction::AcquireImages,
    );
    match (frame.phase, event) {
        (RenderPhase::Begin, RenderEvent::Begin { now, timeout }) => Some(
            if ctx.has_decoder {
                (
                    RenderPhase::PollClock { deadline: (now + timeout) as u128 },
                    RenderAction::ReadClock,
                )
            } else {
                repeat
            },
        ),
        (RenderPhase::PollClock { deadline }, RenderEvent::Clock { now }) => Some(
            if now < deadline {
                (RenderPhase::PollFrame { deadline }, RenderAction::PollFrame)
            } else {
                repeat
            },
        ),
        (RenderPhase::PollFrame { deadline }, RenderEvent::FramePolled { frame: found }) => Some(
            (
                RenderPhase::PollPause { deadline, found },
                RenderAction::Pause { duration: POLL_PAUSE_NS },
            ),
        ),
        (RenderPhase::PollPause { deadline, found }, RenderEvent::Paused) => Some(
            match found {
                Some(new) => (
                    RenderPhase::CompositorStart { frame: new },
                    RenderAction::ReportCompositorStart { timestamp: new.timestamp },
                ),
                None => (RenderPhase::PollClock { deadline }, RenderAction::ReadClock),
            },
        ),
        (RenderPhase::CompositorStart { frame: new }, RenderEvent::CompositorStarted { views }) => {
            Some(
                (
                    RenderPhase::Images { selected: new_frame(new, views) },
                    RenderAction::AcquireImages,
                ),
            )
        },
        (RenderPhase::Images { selected }, RenderEvent::ImagesReady { left, right }) => Some(
            (
                RenderPhase::Views { selected, left_image: left, right_image: right },
                RenderAction::LocateViews { time: low_bits_signed(frame.vsync_time) as i64 },
            ),
        ),
        (
            RenderPhase::Views { selected, left_image, right_image },
            RenderEvent::ViewsLocated { flags, views, fallback },
        ) => {
            let headset = headset_views_of(flags, views@, fallback);
            let composed = composed_frame(ctx, frame.vsync_time, selected, headset);
            Some(
                (
                    RenderPhase::Drawing { composed },
                    draw_action(ctx, composed, left_image, right_image),
                ),
            )
        },
        (RenderPhase::Drawing { composed }, RenderEvent::Drawn) => Some(
            (RenderPhase::Releasing { composed }, RenderAction::ReleaseImages),
        ),
        (RenderPhase::Releasing { composed }, RenderEvent::Released) => Some(
            if composed.selected.buffer != 0 {
                (RenderPhase::RuntimeClock { composed }, RenderAction::ReadRuntimeClock)
            } else {
                (RenderPhase::Finished, finish_action(ctx, composed))
            },
        ),
        (RenderPhase::RuntimeClock { composed }, RenderEvent::RuntimeClock { now }) => Some(
            match now {
                Some(time) => (
                    RenderPhase::Submitting { composed },
                    RenderAction::ReportSubmit {
                        timestamp: composed.selected.timestamp,
                        vsync_queue: time_left(frame.vsync_time, bits_unsigned(time) as u128),
                    },
                ),
                None => (RenderPhase::Finished, finish_action(ctx, composed)),
            },
        ),
        (RenderPhase::Submitting { composed }, RenderEvent::Submitted) => Some(
            (RenderPhase::Finished, finish_action(ctx, composed)),
        ),
        _ => None,
    }
}

/// What a step leaves behind. An outcome that was not waited for changes
/// nothing. The views of a new frame are remembered as soon as they are known.
pub open spec fn render_next<V, M, P>(
    ctx: RenderContext<V, M, P>,
    frame: RenderFrame<V>,
    event: RenderEvent<V>,
) -> RenderOutcome<V, M, P> {
    match render_transition(ctx, frame, event) {
        Some((phase, action)) => RenderOutcome {
            frame: RenderFrame { phase, ..frame },
            last_good_view_params: match event {
                RenderEvent::CompositorStarted { views } => views,
                _ => ctx.last_good_view_params,
            },
            action,
        },
        None => RenderOutcome {
            frame,
            last_good_view_params: ctx.last_good_view_params,
            action: RenderAction::Unexpected,
        },
    }
}

/// Whether an outcome lies within the limits of what can be counted, and tells
/// of both eyes where it matters.
pub open spec fn render_accepts<V, M, P>(
    ctx: RenderContext<V, M, P>,
    event: RenderEvent<V>,
) -> bool {
    match event {
        RenderEvent::Begin { now, timeout } => now + timeout <= u128::MAX,
        RenderEvent::ViewsLocated { flags, views, .. } => ctx.use_custom_reprojection
            && orientation_flag(flags) ==> views.len() >= 2,
        _ => true,
    }
}

impl<V> RenderFrame<V> {
    /// A frame at its start.
    pub open spec fn at_start(vsync_time: u128) -> RenderFrame<V> {
        RenderFrame { vsync_time, phase: RenderPhase::Begin }
    }
}

impl<V: Copy> RenderFrame<V> {
    /// A frame for a vsync.
    pub fn new(vsync_time: u128) -> (frame: RenderFrame<V>)
        ensures
            frame == RenderFrame::<V>::at_start(vsync_time),
    {
        RenderFrame { vsync_time, phase: RenderPhase::Begin }
    }

    /// Goes on to another phase.
    fn enter<M: Copy, P: Copy>(
        &mut self,
        phase: RenderPhase<V>,
        action: RenderAction<V, M, P>,
    ) -> (next: RenderAction<V, M, P>)
        ensures
            *final(self) == (RenderFrame { phase, ..*old(self) }),
            next == action,
    {
        self.phase = phase;
        action
    }

    /// Shows the last frame again.
    fn repeat_last<M: Copy, P: Copy>(
        &mut self,
        ctx: &RenderContext<V, M, P>,
    ) -> (next: RenderAction<V, M, P>)
        ensures
            *final(self) == (RenderFrame {
                phase: RenderPhase::Images { selected: repeated_frame(*ctx, *old(self)) },
                ..*old(self)
            }),
            next == RenderAction::<V, M, P>::AcquireImages,
    {
        let selected = SelectedFrame {
            timestamp: self.vsync_time,
            input_views: ctx.last_good_view_params,
            buffer: 0,
        };
        self.enter(RenderPhase::Images { selected }, RenderAction::AcquireImages)
    }

    /// Hands the frame to the compositor.
    fn finish<M: Copy, P: Copy>(
        &mut self,
        ctx: &RenderContext<V, M, P>,
        composed: ComposedFrame<V>,
    ) -> (next: RenderAction<V, M, P>)
        ensures
            *final(self) == (RenderFrame { phase: RenderPhase::Finished, ..*old(self) }),
            next == finish_action(*ctx, composed),
    {
        let layer = ProjectionLayer {
            views: composed.output_views,
            rect: ctx.rect,
            alpha: ctx.alpha,
            post_processing: ctx.post_processing,
        };
        self.enter(
            RenderPhase::Finished,
            RenderAction::Finish { layer, display_time: composed.display_time },
        )
    }

    /// Decides how a frame is shown, and draws it.
    fn draw<M: Copy, P: Copy>(
        &mut self,
        ctx: &RenderContext<V, M, P>,
        selected: SelectedFrame<V>,
        images: (u32, u32),
        headset: Option<Stereo<V>>,
    ) -> (next: RenderAction<V, M, P>)
        requires
            ctx.use_custom_reprojection == (headset is Some),
        ensures
            ({
                let composed = composed_frame(
                    *ctx,
                    old(self).vsync_time,
                    selected,
                    headset->0,
                );
                &&& *final(self) == (RenderFrame {
                    phase: RenderPhase::Drawing { composed },
                    ..*old(self)
                })
                &&& next == draw_action(*ctx, composed, images.0, images.1)
            }),
    {
        let output_views = match headset {
            Some(views) => views,
            None => selected.input_views,
        };
        let composed = ComposedFrame {
            selected,
            output_views,
            display_time: display_time(
                ctx.use_custom_reprojection,
                selected.timestamp,
                self.vsync_time,
            ),
        };
        let left = StreamViewParams {
            swapchain_index: images.0,
            input_view_params: selected.input_views.left,
            output_view_params: output_views.left,
        };
        let right = StreamViewParams {
            swapchain_index: images.1,
            input_view_params: selected.input_views.right,
            output_view_params: output_views.right,
        };
        self.enter(
            RenderPhase::Drawing { composed },
            RenderAction::Draw {
                buffer: selected.buffer,
                left,
                right,
                passthrough: ctx.passthrough,
            },
        )
    }

    /// Takes the outcome of the work that was asked for, and asks for the next.
    pub fn step<M: Copy, P: Copy>(
        &mut self,
        ctx: &mut RenderContext<V, M, P>,
        event: RenderEvent<V>,
    ) -> (next: RenderAction<V, M, P>)
        requires
            render_accepts(*old(ctx), event),
        ensures
            ({
                let outcome = render_next(*old(ctx), *old(self), event);
                &&& *final(self) == outcome.frame
                &&& *final(ctx) == (RenderContext {
                    last_good_view_params: outcome.last_good_view_params,
                    ..*old(ctx)
                })
                &&& next == outcome.action
            }),
    {
        match (self.phase, event) {
            (RenderPhase::Begin, RenderEvent::Begin { now, timeout }) => {
                if ctx.has_decoder {
                    self.enter(
                        RenderPhase::PollClock { deadline: now + timeout },
                        RenderAction::ReadClock,
                    )
                } else {
                    self.repeat_last(ctx)
                }
            },
            (RenderPhase::PollClock { deadline }, RenderEvent::Clock { now }) => {
                if now < deadline {
                    self.enter(RenderPhase::PollFrame { deadline }, RenderAction::PollFrame)
                } else {
                    self.repeat_last(ctx)
                }
            },
            (RenderPhase::PollFrame { deadline }, RenderEvent::FramePolled { frame: found }) => {
                self.enter(
                    RenderPhase::PollPause { deadline, found },
                    RenderAction::Pause { duration: POLL_PAUSE_NS },
                )
            },
            (RenderPhase::PollPause { deadline, found }, RenderEvent::Paused) => {
                match found {
                    Some(new) => self.enter(
                        RenderPhase::CompositorStart { frame: new },
                        RenderAction::ReportCompositorStart { timestamp: new.timestamp },
                    ),
                    None => self.enter(
                        RenderPhase::PollClock { deadline },
                        RenderAction::ReadClock,
                    ),
                }
            },
            (
                RenderPhase::CompositorStart { frame: new },
                RenderEvent::CompositorStarted { views },
            ) => {
                ctx.last_good_view_params = views;
                let selected = SelectedFrame {
                    timestamp: new.timestamp,
                    input_views: views,
                    buffer: new.buffer,
                };
                self.enter(RenderPhase::Images { selected }, RenderAction::AcquireImages)
            },
            (RenderPhase::Images { selected }, RenderEvent::ImagesReady { left, right }) => {
                let time: i64 = runtime_time(self.vsync_time);
                self.enter(
                    RenderPhase::Views { selected, left_image: left, right_image: right },
                    RenderAction::LocateViews { time },
                )
            },
            (
                RenderPhase::Views { selected, left_image, right_image },
                RenderEvent::ViewsLocated { flags, views, fallback },
            ) => {
                let headset = if ctx.use_custom_reprojection {
                    Some(headset_views(flags, &views, fallback))
                } else {
                    None
                };
                self.draw(ctx, selected, (left_image, right_image), headset)
            },
            (RenderPhase::Drawing { composed }, RenderEvent::Drawn) => {
                self.enter(RenderPhase::Releasing { composed }, RenderAction::ReleaseImages)
            },
            (RenderPhase::Releasing { composed }, RenderEvent::Released) => {
                if composed.selected.buffer != 0 {
                    self.enter(
                        RenderPhase::RuntimeClock { composed },
                        RenderAction::ReadRuntimeClock,
                    )
                } else {
                    self.finish(ctx, composed)
                }
            },
            (RenderPhase::RuntimeClock { composed }, RenderEvent::RuntimeClock { now }) => {
                match now {
                    Some(time) => {
                        let queue: u128 = vsync_queue(self.vsync_time, time);
                        self.enter(
                            RenderPhase::Submitting { composed },
                            RenderAction::ReportSubmit {
                                timestamp: composed.selected.timestamp,
                                vsync_queue: queue,
                            },
                        )
                    },
                    None => self.finish(ctx, composed),
                }
            },
            (RenderPhase::Submitting { composed }, RenderEvent::Submitted) => {
                self.finish(ctx, composed)
            },
            _ => RenderAction::Unexpected,
        }
    }
}

} // verus!
