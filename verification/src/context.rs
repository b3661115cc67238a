//! The state of a running stream.
use crate::config::{
    ClientsideFoveationConfig, ClientsideFoveationMode, ParsedStreamConfig, PassthroughMode,
    RealTimeConfig, Resolution, StreamTypes,
};
use crate::decoder::{wanted_decoder, CodecType, DecoderModel, VideoDecoderConfig};
use crate::float32::Float32;
use crate::guardian::{
    apply_guardian_mode, guardian_cycle, guardian_cycle_at, playspace_area, PlayspaceArea,
    GUARDIAN_CYCLE_LEN,
};
use crate::render::{
    alpha_of, image_rect, layer_alpha, render_accepts, render_next, size_signed, ImageRect,
    RenderAction, RenderContext, RenderEvent, RenderFrame, Stereo,
};
use vstd::prelude::*;

verus! {

/// Which extensions the runtime offers.
#[derive(Clone, Copy, Debug, PartialEq, Eq, Structural)]
pub struct Extensions {
    /// The refresh rate can be chosen.
    pub display_refresh_rate: bool,
    /// Swapchains can be changed.
    pub swapchain_update_state: bool,
    /// Swapchains can be foveated.
    pub foveation: bool,
    /// The foveation can be configured.
    pub foveation_configuration: bool,
    /// Layers can be post processed.
    pub composition_layer_settings: bool,
}

/// What matters of the headset that the client runs on.
#[derive(Clone, Copy, Debug, PartialEq, Eq, Structural)]
pub struct PlatformTraits {
    /// It is one of the Pico headsets.
    pub is_pico: bool,
    /// It is one of the YVR headsets.
    pub is_yvr: bool,
    /// It is the Samsung Galaxy XR.
    pub is_samsung_galaxy_xr: bool,
}

/// A foveation profile, in the numbers of the runtime.
#[derive(Clone, Copy, Debug, PartialEq, Eq, Structural)]
pub struct FoveationLevelProfile {
    /// The level.
    pub level: i32,
    /// How far the centre lies above the middle, in degrees.
    pub vertical_offset: Float32,
    /// 1 if the runtime may choose a lower level, otherwise 0.
    pub dynamic: i32,
}

/// What is asked of the runtime and of the renderer when a stream starts.
#[derive(Clone, Copy, Debug, PartialEq, Eq, Structural)]
pub struct StreamSetup {
    /// The refresh rate to ask for, if it can be chosen.
    pub refresh_rate_request: Option<Float32>,
    /// The foveation profile to create, if there is to be one.
    pub foveation_profile: Option<FoveationLevelProfile>,
    /// Whether the renderer corrects the colour space.
    pub srgb_correction: bool,
    /// Whether the renderer repairs a limited range of colours.
    pub fix_limited_range: bool,
}

/// The foveation profile to create: the configured one, where the runtime can.
pub open spec fn wanted_foveation(
    config: Option<ClientsideFoveationConfig>,
    extensions: Extensions,
) -> Option<FoveationLevelProfile> {
    match config {
        Some(c) => if extensions.swapchain_update_state && extensions.foveation
            && extensions.foveation_configuration {
            Some(
                FoveationLevelProfile {
                    level: match c.mode {
                        ClientsideFoveationMode::Static { level } => level,
                        ClientsideFoveationMode::Dynamic { max_level } => max_level,
                    },
                    vertical_offset: c.vertical_offset_deg,
                    dynamic: if c.mode is Dynamic {
                        1
                    } else {
                        0
                    },
                },
            )
        } else {
            None
        },
        None => None,
    }
}

/// The foveation profile to create.
fn foveation_profile(
    config: &Option<ClientsideFoveationConfig>,
    extensions: &Extensions,
) -> (profile: Option<FoveationLevelProfile>)
    ensures
        profile == wanted_foveation(*config, *extensions),
{
    match config {
        Some(c) => {
            if extensions.swapchain_update_state && extensions.foveation
                && extensions.foveation_configuration {
                match c.mode {
                    ClientsideFoveationMode::Static { level } => Some(
                        FoveationLevelProfile {
                            level,
                            vertical_offset: c.vertical_offset_deg,
                            dynamic: 0,
                        },
                    ),
                    ClientsideFoveationMode::Dynamic { max_level } => Some(
                        FoveationLevelProfile {
                            level: max_level,
                            vertical_offset: c.vertical_offset_deg,
                            dynamic: 1,
                        },
                    ),
                }
            } else {
                None
            }
        },
        None => None,
    }
}

/// What is asked for when a stream starts. Some headsets do without the
/// correction of the colour space when the video has a high dynamic range, and
/// without the repair of the range.
pub open spec fn wanted_setup<T: StreamTypes>(
    config: ParsedStreamConfig<T>,
    extensions: Extensions,
    platform: PlatformTraits,
) -> StreamSetup {
    StreamSetup {
        refresh_rate_request: if extensions.display_refresh_rate {
            Some(config.refresh_rate_hint)
        } else {
            None
        },
        foveation_profile: wanted_foveation(config.clientside_foveation_config, extensions),
        srgb_correction: !(config.enable_hdr && (platform.is_pico
            || platform.is_samsung_galaxy_xr)),
        fix_limited_range: !config.enable_hdr && !platform.is_samsung_galaxy_xr,
    }
}

impl StreamSetup {
    /// Decides what to ask for.
    pub fn new<T: StreamTypes>(
        config: &ParsedStreamConfig<T>,
        extensions: &Extensions,
        platform: &PlatformTraits,
    ) -> (setup: StreamSetup)
        ensures
            setup == wanted_setup(*config, *extensions, *platform),
    {
        StreamSetup {
            refresh_rate_request: if extensions.display_refresh_rate {
                Some(config.refresh_rate_hint)
            } else {
                None
            },
            foveation_profile: foveation_profile(&config.clientside_foveation_config, extensions),
            srgb_correction: !((platform.is_pico || platform.is_samsung_galaxy_xr)
                && config.enable_hdr),
            fix_limited_range: !platform.is_samsung_galaxy_xr && !config.enable_hdr,
        }
    }
}

/// Work around the input thread and the reference spaces.
#[derive(Clone, Copy, Debug, PartialEq, Eq, Structural)]
pub enum ContextAction {
    /// Tell the input thread to run, or to end.
    SetInputRunning(bool),
    /// Put a newly created reference space of the stage in the place of the old
    /// one.
    ReplaceStageSpace,
    /// Put a newly created reference space of the view in the place of the old
    /// one.
    ReplaceViewSpace,
    /// Tell the server the area.
    SendPlayspace(PlayspaceArea),
    /// Wait for the input thread to end.
    JoinInputThread,
    /// Start an input thread.
    SpawnInputThread {
        /// Frames per second.
        refresh_rate: Float32,
    },
}

/// The area of a client without a guardian of its own: 20 by 20 metres.
pub open spec fn desktop_area() -> PlayspaceArea {
    PlayspaceArea { x: Float32 { bits: 0x41a0_0000 }, y: Float32 { bits: 0x41a0_0000 } }
}

/// The area that the server is told when the reference space is renewed.
pub open spec fn reported_area(headset: bool, mode_idx: int) -> PlayspaceArea {
    if headset {
        playspace_area(guardian_cycle_at(mode_idx))
    } else {
        desktop_area()
    }
}

/// How the reference space is renewed: the old input thread ends before a new
/// one starts.
pub open spec fn reference_space_plan(
    has_thread: bool,
    area: PlayspaceArea,
    refresh_rate: Float32,
) -> Seq<ContextAction> {
    seq![
        ContextAction::SetInputRunning(false),
        ContextAction::ReplaceStageSpace,
        ContextAction::ReplaceViewSpace,
        ContextAction::SendPlayspace(area),
    ] + (if has_thread {
        seq![ContextAction::JoinInputThread]
    } else {
        Seq::empty()
    }) + seq![
        ContextAction::SetInputRunning(true),
        ContextAction::SpawnInputThread { refresh_rate },
    ]
}

/// How a stream is ended.
pub open spec fn shutdown_plan() -> Seq<ContextAction> {
    seq![ContextAction::SetInputRunning(false), ContextAction::JoinInputThread]
}

/// How the room shows after the guardian has asked for it, or no longer does. It
/// changes nothing where the stream shows the room anyway, and takes back what
/// looks like its own: a blend that shows all of the room.
pub open spec fn guardian_passthrough<T: StreamTypes>(
    mode: Option<PassthroughMode<T>>,
    active: bool,
) -> Option<PassthroughMode<T>> {
    if active && mode is None {
        Some(
            PassthroughMode::Blend {
                premultiplied_alpha: false,
                threshold: Float32 { bits: 0x3f80_0000 },
            },
        )
    } else if !active && shows_all(mode) {
        None
    } else {
        mode
    }
}

/// Whether a mode blends all of the room in: its threshold is 1, up to less than
/// the machine epsilon.
pub open spec fn shows_all<T: StreamTypes>(mode: Option<PassthroughMode<T>>) -> bool {
    match mode {
        Some(PassthroughMode::Blend { threshold, .. }) => threshold.is_within_epsilon_of_one(),
        _ => false,
    }
}

/// What rendering needs to know of a stream, borrowed from it.
pub type StreamRenderContext<'a, T> = RenderContext<
    <T as StreamTypes>::ViewParams,
    &'a PassthroughMode<T>,
    &'a <T as StreamTypes>::PostProcessing,
>;

/// Work to do next for a frame, with what it borrows from the stream.
pub type StreamRenderAction<'a, T> = RenderAction<
    <T as StreamTypes>::ViewParams,
    &'a PassthroughMode<T>,
    &'a <T as StreamTypes>::PostProcessing,
>;

/// What an optional value is when it is borrowed.
pub open spec fn borrowed<'a, A>(value: Option<A>) -> Option<&'a A> {
    match value {
        Some(content) => Some(&content),
        None => None,
    }
}

/// What a stream holds.
pub struct ContextModel<T: StreamTypes> {
    /// The settings.
    pub config: ParsedStreamConfig<T>,
    /// The resolution that is drawn, for one eye.
    pub target_view_resolution: Resolution,
    /// The views of the last frame.
    pub last_good_view_params: Stereo<T::ViewParams>,
    /// Whether there is an input thread to wait for.
    pub has_input_thread: bool,
    /// Whether the input thread is told to run.
    pub input_thread_running: bool,
    /// What the decoder was created from, if there is one.
    pub decoder: Option<DecoderModel>,
    /// Whether the views are replaced by those of the headset.
    pub use_custom_reprojection: bool,
    /// Whether layers can be post processed.
    pub composition_layer_settings: bool,
}

/// A running stream.
pub struct StreamContext<T: StreamTypes> {
    config: ParsedStreamConfig<T>,
    target_view_resolution: Resolution,
    last_good_view_params: Stereo<T::ViewParams>,
    has_input_thread: bool,
    input_thread_running: bool,
    decoder: Option<VideoDecoderConfig>,
    use_custom_reprojection: bool,
    composition_layer_settings: bool,
}

impl<T: StreamTypes> View for StreamContext<T> {
    type V = ContextModel<T>;

    closed spec fn view(&self) -> ContextModel<T> {
        ContextModel {
            config: self.config,
            target_view_resolution: self.target_view_resolution,
            last_good_view_params: self.last_good_view_params,
            has_input_thread: self.has_input_thread,
            input_thread_running: self.input_thread_running,
            decoder: match self.decoder {
                Some(present) => Some(present@),
                None => None,
            },
            use_custom_reprojection: self.use_custom_reprojection,
            composition_layer_settings: self.composition_layer_settings,
        }
    }
}

impl<T: StreamTypes> ContextModel<T> {
    /// What rendering needs to know of the stream.
    pub open spec fn render_context<'a>(self) -> StreamRenderContext<'a, T> {
        RenderContext {
            has_decoder: self.decoder is Some,
            use_custom_reprojection: self.use_custom_reprojection,
            last_good_view_params: self.last_good_view_params,
            rect: ImageRect {
                x: 0,
                y: 0,
                width: size_signed(self.target_view_resolution.x) as i32,
                height: size_signed(self.target_view_resolution.y) as i32,
            },
            passthrough: borrowed(self.config.passthrough),
            alpha: alpha_of(self.config.passthrough),
            post_processing: if self.composition_layer_settings {
                borrowed(self.config.clientside_post_processing)
            } else {
                None
            },
        }
    }
}

impl<T: StreamTypes> ContextModel<T> {
    /// The stream after the guardian has asked for the room, or no longer does.
    pub open spec fn after_guardian(self, active: bool) -> ContextModel<T> {
        ContextModel {
            config: ParsedStreamConfig {
                passthrough: guardian_passthrough(self.config.passthrough, active),
                ..self.config
            },
            ..self
        }
    }

    /// A stream before its input thread is started.
    pub open spec fn before_start(
        config: ParsedStreamConfig<T>,
        extensions: Extensions,
        platform: PlatformTraits,
        target_view_resolution: Resolution,
        initial_views: Stereo<T::ViewParams>,
    ) -> ContextModel<T> {
        ContextModel {
            config,
            target_view_resolution,
            last_good_view_params: initial_views,
            has_input_thread: false,
            input_thread_running: false,
            decoder: None,
            use_custom_reprojection: platform.is_yvr,
            composition_layer_settings: extensions.composition_layer_settings,
        }
    }

    /// How the reference space is renewed, with the size of the guardian in force.
    pub open spec fn renewal_plan(self, headset: bool, mode_idx: int) -> Seq<ContextAction> {
        reference_space_plan(
            self.has_input_thread,
            reported_area(headset, mode_idx),
            self.config.refresh_rate_hint,
        )
    }

    /// Whether the room shows through the stream.
    pub open spec fn shows_the_room(self) -> bool {
        self.config.passthrough is Some
    }

    /// The stream after it was ended.
    pub open spec fn after_shutdown(self) -> ContextModel<T> {
        ContextModel { has_input_thread: false, input_thread_running: false, ..self }
    }

    /// The stream after its reference space was renewed.
    pub open spec fn after_renewal(self) -> ContextModel<T> {
        ContextModel { has_input_thread: true, input_thread_running: true, ..self }
    }

    /// Whether a request for a decoder leads to a new one: there is none yet, or
    /// the one there is was created from something else.
    pub open spec fn creates_decoder(self, codec: CodecType, config_nal: Seq<u8>) -> bool {
        match self.decoder {
            Some(present) => !wanted_decoder(self.config, codec, config_nal).same_as(present),
            None => true,
        }
    }

    /// The stream after a request for a decoder.
    pub open spec fn after_decoder_request(
        self,
        codec: CodecType,
        config_nal: Seq<u8>,
    ) -> ContextModel<T> {
        if self.creates_decoder(codec, config_nal) {
            ContextModel {
                decoder: Some(wanted_decoder(self.config, codec, config_nal)),
                ..self
            }
        } else {
            self
        }
    }

    /// The stream after new settings.
    pub open spec fn after_real_time_config(self, config: RealTimeConfig<T>) -> ContextModel<T> {
        ContextModel {
            config: ParsedStreamConfig {
                passthrough: config.passthrough,
                clientside_post_processing: config.clientside_post_processing,
                ..self.config
            },
            ..self
        }
    }

    /// The stream after a step of a frame.
    pub open spec fn after_render(
        self,
        frame: RenderFrame<T::ViewParams>,
        event: RenderEvent<T::ViewParams>,
    ) -> ContextModel<T> {
        ContextModel {
            last_good_view_params: render_next(
                self.render_context(),
                frame,
                event,
            ).last_good_view_params,
            ..self
        }
    }
}

impl<T: StreamTypes> StreamContext<T> {
    /// Starts a stream: its state, and the work that starts the input thread.
    /// `target_view_resolution` is the resolution after upscaling, and
    /// `initial_views` stands in until a frame brings its views.
    pub fn new(
        config: ParsedStreamConfig<T>,
        extensions: &Extensions,
        platform: &PlatformTraits,
        target_view_resolution: Resolution,
        initial_views: Stereo<T::ViewParams>,
        headset: bool,
        mode_idx: usize,
    ) -> (started: (StreamContext<T>, Vec<ContextAction>))
        requires
            headset ==> mode_idx < GUARDIAN_CYCLE_LEN,
        ensures
            ({
                let before = ContextModel::<T>::before_start(
                    config,
                    *extensions,
                    *platform,
                    target_view_resolution,
                    initial_views,
                );
                &&& started.0@ == before.after_renewal()
                &&& started.1@ == before.renewal_plan(headset, mode_idx as int)
            }),
    {
        let mut context = StreamContext {
            config,
            target_view_resolution,
            last_good_view_params: initial_views,
            has_input_thread: false,
            input_thread_running: false,
            decoder: None,
            use_custom_reprojection: platform.is_yvr,
            composition_layer_settings: extensions.composition_layer_settings,
        };
        let plan = context.update_reference_space(headset, mode_idx);
        (context, plan)
    }

    /// Whether the room shows through the stream.
    pub fn uses_passthrough(&self) -> (uses: bool)
        ensures
            uses == self@.shows_the_room(),
    {
        self.config.passthrough.is_some()
    }

    /// Shows the room for the guardian, or no longer.
    pub fn set_guardian_passthrough(&mut self, active: bool)
        ensures
            final(self)@ == old(self)@.after_guardian(active),
    {
        if active {
            if self.config.passthrough.is_none() {
                self.config.passthrough =
                Some(
                    PassthroughMode::Blend {
                        premultiplied_alpha: false,
                        threshold: Float32 { bits: 0x3f80_0000 },
                    },
                );
            }
        } else {
            let own = match &self.config.passthrough {
                Some(PassthroughMode::Blend { threshold, .. }) => threshold.is_about_one(),
                _ => false,
            };
            if own {
                self.config.passthrough = None;
            }
        }
    }

    /// Renews the reference space, and the input thread with it. `mode_idx` is
    /// the size of the guardian in force once the new spaces are created.
    pub fn update_reference_space(&mut self, headset: bool, mode_idx: usize) -> (plan: Vec<
        ContextAction,
    >)
        requires
            headset ==> mode_idx < GUARDIAN_CYCLE_LEN,
        ensures
            plan@ == old(self)@.renewal_plan(headset, mode_idx as int),
            final(self)@ == old(self)@.after_renewal(),
    {
        let mut plan: Vec<ContextAction> = Vec::new();
        plan.push(ContextAction::SetInputRunning(false));
        plan.push(ContextAction::ReplaceStageSpace);
        plan.push(ContextAction::ReplaceViewSpace);
        let area = if headset {
            apply_guardian_mode(guardian_cycle(mode_idx))
        } else {
            PlayspaceArea { x: Float32 { bits: 0x41a0_0000 }, y: Float32 { bits: 0x41a0_0000 } }
        };
        plan.push(ContextAction::SendPlayspace(area));
        if self.has_input_thread {
            plan.push(ContextAction::JoinInputThread);
        }
        plan.push(ContextAction::SetInputRunning(true));
        plan.push(
            ContextAction::SpawnInputThread { refresh_rate: self.config.refresh_rate_hint },
        );
        self.has_input_thread = true;
        self.input_thread_running = true;
        assert(plan@ =~= reference_space_plan(
            old(self)@.has_input_thread,
            reported_area(headset, mode_idx as int),
            old(self)@.config.refresh_rate_hint,
        ));
        plan
    }

    /// Decides whether a decoder is to be created, and from what: there is none
    /// yet, or the one there is was created from something else.
    pub fn maybe_initialize_decoder(&mut self, codec: CodecType, config_nal: Vec<u8>) -> (create:
        Option<VideoDecoderConfig>)
        ensures
            create is Some == old(self)@.creates_decoder(codec, config_nal@),
            create matches Some(config) ==> config@ == wanted_decoder(
                old(self)@.config,
                codec,
                config_nal@,
            ),
            final(self)@ == old(self)@.after_decoder_request(codec, config_nal@),
    {
        let wanted = VideoDecoderConfig::wanted(&self.config, codec, config_nal);
        let create = match &self.decoder {
            Some(present) => !wanted.same_as(present),
            None => true,
        };
        if create {
            self.decoder = Some(wanted.duplicate());
            Some(wanted)
        } else {
            None
        }
    }

    /// Takes over the settings that can change while the stream runs.
    pub fn update_real_time_config(&mut self, config: RealTimeConfig<T>)
        ensures
            final(self)@ == old(self)@.after_real_time_config(config),
    {
        self.config.passthrough = config.passthrough;
        self.config.clientside_post_processing = config.clientside_post_processing;
    }

    /// Takes a frame one step further: the outcome of the work that was asked
    /// for goes in, the work to do next comes out.
    pub fn render(
        &mut self,
        frame: &mut RenderFrame<T::ViewParams>,
        event: RenderEvent<T::ViewParams>,
    ) -> (next: StreamRenderAction<'_, T>)
        requires
            render_accepts(old(self)@.render_context(), event),
        ensures
            ({
                let outcome = render_next(old(self)@.render_context(), *old(frame), event);
                &&& next == outcome.action
                &&& *final(frame) == outcome.frame
                &&& final(self)@ == old(self)@.after_render(*old(frame), event)
            }),
    {
        let mut ctx = RenderContext {
            has_decoder: self.decoder.is_some(),
            use_custom_reprojection: self.use_custom_reprojection,
            last_good_view_params: self.last_good_view_params,
            rect: image_rect(self.target_view_resolution),
            passthrough: self.config.passthrough.as_ref(),
            alpha: layer_alpha(&self.config.passthrough),
            post_processing: if self.composition_layer_settings {
                self.config.clientside_post_processing.as_ref()
            } else {
                None
            },
        };
        let next = frame.step(&mut ctx, event);
        self.last_good_view_params = ctx.last_good_view_params;
        next
    }

    /// Ends the stream.
    pub fn shut_down(&mut self) -> (plan: Vec<ContextAction>)
        requires
            old(self)@.has_input_thread,
        ensures
            plan@ == shutdown_plan(),
            final(self)@ == old(self)@.after_shutdown(),
    {
        let mut plan: Vec<ContextAction> = Vec::new();
        plan.push(ContextAction::SetInputRunning(false));
        plan.push(ContextAction::JoinInputThread);
        self.input_thread_running = false;
        self.has_input_thread = false;
        assert(plan@ =~= shutdown_plan());
        plan
    }
}

} // verus!
