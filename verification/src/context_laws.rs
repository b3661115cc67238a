//! What holds of a stream over several calls.
use crate::config::{
    ClientsideFoveationMode, ParsedStreamConfig, PassthroughMode, RealTimeConfig, Resolution,
    StreamTypes,
};
use crate::context::{
    desktop_area, guardian_passthrough, reference_space_plan, reported_area, shows_all,
    shutdown_plan, wanted_setup, ContextAction, ContextModel, Extensions, PlatformTraits,
};
use crate::decoder::{wanted_decoder, CodecType, DecoderModel};
use crate::float32::{one_in_units, Float32};
use crate::float32_laws::law_two_singles_are_about_one;
use crate::guardian::{GuardianEffect, GuardianInput, GuardianState, PlayspaceArea};
use crate::guardian_laws::{law_areas_in_metres, law_missing_area_is_a_millimetre};
use crate::render::{RenderEvent, RenderFrame, RenderPhase, Stereo};
use vstd::arithmetic::power2::pow2;
use vstd::prelude::*;

verus! {

/// The guardian leaves the stream as it found it: what showed before the
/// guardian asked for the room shows again afterwards. A stream that is set to
/// blend in all of the room looks like the guardian's own doing, and is left
/// out.
pub proof fn law_guardian_gives_the_stream_back<T: StreamTypes>(mode: Option<PassthroughMode<T>>)
    requires
        !shows_all(mode),
    ensures
        guardian_passthrough(guardian_passthrough(mode, true), false) == mode,
{
    lemma_one_is_within_epsilon();
}

/// The number 1 lies within the machine epsilon of itself.
proof fn lemma_one_is_within_epsilon()
    ensures
        (Float32 { bits: 0x3f80_0000 }).is_within_epsilon_of_one(),
{
    let one = Float32 { bits: 0x3f80_0000 };
    vstd::arithmetic::power2::lemma_pow2_pos(126);
    crate::float32::lemma_pow2_product(126, 23);
    assert(one.exponent() == 127 && one.fraction() == 0);
}

/// When the guardian asks for the room, it shows; when it no longer does, a
/// blend of all of the room is gone.
pub proof fn law_guardian_is_obeyed<T: StreamTypes>(mode: Option<PassthroughMode<T>>)
    ensures
        guardian_passthrough(mode, true) is Some,
        !shows_all(guardian_passthrough(mode, false)),
{
}

/// Asking twice is asking once.
pub proof fn law_guardian_may_ask_twice<T: StreamTypes>(
    mode: Option<PassthroughMode<T>>,
    active: bool,
)
    ensures
        guardian_passthrough(guardian_passthrough(mode, active), active) == guardian_passthrough(
            mode,
            active,
        ),
{
}

/// A decoder is not created again for the same configuration, as long as its
/// numbers are numbers.
pub proof fn law_same_configuration_keeps_the_decoder(config: DecoderModel)
    ensures
        config.same_as(config) == (!config.max_buffering_frames.is_not_a_number()
            && !config.buffering_history_weight.is_not_a_number()),
{
}

/// It does not matter which of two configurations was there first.
pub proof fn law_sameness_is_mutual(a: DecoderModel, b: DecoderModel, c: DecoderModel)
    ensures
        a.same_as(b) == b.same_as(a),
        a.same_as(b) && b.same_as(c) ==> a.same_as(c),
{
}

/// A call on a running stream.
pub enum StreamCall<T: StreamTypes> {
    /// `set_guardian_passthrough`.
    Guardian(bool),
    /// `update_reference_space`.
    ReferenceSpace,
    /// `maybe_initialize_decoder`.
    Decoder {
        /// The codec.
        codec: CodecType,
        /// The data that the stream starts with.
        config_nal: Seq<u8>,
    },
    /// `update_real_time_config`.
    RealTimeConfig(RealTimeConfig<T>),
    /// `render`, with a frame and the outcome that it gets.
    Render {
        /// The frame.
        frame: RenderFrame<T::ViewParams>,
        /// The outcome.
        event: RenderEvent<T::ViewParams>,
    },
}

/// The stream after a call.
pub open spec fn after_call<T: StreamTypes>(
    stream: ContextModel<T>,
    call: StreamCall<T>,
) -> ContextModel<T> {
    match call {
        StreamCall::Guardian(active) => stream.after_guardian(active),
        StreamCall::ReferenceSpace => stream.after_renewal(),
        StreamCall::Decoder { codec, config_nal } => stream.after_decoder_request(
            codec,
            config_nal,
        ),
        StreamCall::RealTimeConfig(config) => stream.after_real_time_config(config),
        StreamCall::Render { frame, event } => stream.after_render(frame, event),
    }
}

/// The stream after a sequence of calls.
pub open spec fn after_calls<T: StreamTypes>(
    stream: ContextModel<T>,
    calls: Seq<StreamCall<T>>,
) -> ContextModel<T>
    decreases calls.len(),
{
    if calls.len() == 0 {
        stream
    } else {
        after_call(after_calls(stream, calls.drop_last()), calls.last())
    }
}

/// The codec and the data of the last request for a decoder, if there is one.
pub open spec fn last_request<T: StreamTypes>(calls: Seq<StreamCall<T>>) -> Option<
    (CodecType, Seq<u8>),
>
    decreases calls.len(),
{
    if calls.len() == 0 {
        None
    } else {
        match calls.last() {
            StreamCall::Decoder { codec, config_nal } => Some((codec, config_nal)),
            _ => last_request(calls.drop_last()),
        }
    }
}

/// No call changes what a request for a decoder asks for.
pub proof fn law_wanted_decoder_stays<T: StreamTypes>(
    stream: ContextModel<T>,
    calls: Seq<StreamCall<T>>,
    codec: CodecType,
    config_nal: Seq<u8>,
)
    ensures
        wanted_decoder(after_calls(stream, calls).config, codec, config_nal) == wanted_decoder(
            stream.config,
            codec,
            config_nal,
        ),
    decreases calls.len(),
{
    if calls.len() > 0 {
        law_wanted_decoder_stays(stream, calls.drop_last(), codec, config_nal);
    }
}

/// The decoder stays: whatever is called on a stream, only a request for a
/// decoder brings another.
pub proof fn law_decoder_stays<T: StreamTypes>(stream: ContextModel<T>, calls: Seq<StreamCall<T>>)
    requires
        last_request(calls) is None,
    ensures
        after_calls(stream, calls).decoder == stream.decoder,
    decreases calls.len(),
{
    if calls.len() > 0 {
        law_decoder_stays(stream, calls.drop_last());
    }
}

/// The decoder is the one that the last request asked for, whatever else was
/// called before and after: it was created from that, or from the same in other
/// bits.
pub proof fn law_decoder_follows_the_last_request<T: StreamTypes>(
    stream: ContextModel<T>,
    calls: Seq<StreamCall<T>>,
)
    ensures
        last_request(calls) matches Some(request) ==> {
            let wanted = wanted_decoder(stream.config, request.0, request.1);
            &&& after_calls(stream, calls).decoder matches Some(present)
            &&& present == wanted || wanted.same_as(present)
        },
    decreases calls.len(),
{
    if calls.len() > 0 {
        let before = calls.drop_last();
        law_decoder_follows_the_last_request(stream, before);
        if let StreamCall::Decoder { codec, config_nal } = calls.last() {
            law_wanted_decoder_stays(stream, before, codec, config_nal);
        }
    }
}

/// A request that is repeated leads to no new decoder, whatever is called in
/// between, unless a setting of the decoder is not a number.
pub proof fn law_repeated_request_keeps_the_decoder<T: StreamTypes>(
    stream: ContextModel<T>,
    calls: Seq<StreamCall<T>>,
    codec: CodecType,
    config_nal: Seq<u8>,
)
    requires
        last_request(calls) is None,
    ensures
        ({
            let first = stream.after_decoder_request(codec, config_nal);
            let later = after_calls(first, calls);
            let odd = stream.config.max_buffering_frames.is_not_a_number()
                || stream.config.buffering_history_weight.is_not_a_number();
            &&& later.creates_decoder(codec, config_nal) == odd
            &&& !odd ==> later.after_decoder_request(codec, config_nal).decoder == first.decoder
        }),
{
    let first = stream.after_decoder_request(codec, config_nal);
    law_decoder_stays(first, calls);
    law_wanted_decoder_stays(first, calls, codec, config_nal);
}

/// The views that a call makes the remembered ones: those that belong to a new
/// frame, when they come in.
pub open spec fn views_brought<T: StreamTypes>(call: StreamCall<T>) -> Option<
    Stereo<T::ViewParams>,
> {
    match call {
        StreamCall::Render { frame, event } => match (frame.phase, event) {
            (
                RenderPhase::CompositorStart { .. },
                RenderEvent::CompositorStarted { views },
            ) => Some(views),
            _ => None,
        },
        _ => None,
    }
}

/// The views that came in last, or the given ones if none did.
pub open spec fn latest_views<T: StreamTypes>(
    initial: Stereo<T::ViewParams>,
    calls: Seq<StreamCall<T>>,
) -> Stereo<T::ViewParams>
    decreases calls.len(),
{
    if calls.len() == 0 {
        initial
    } else {
        match views_brought(calls.last()) {
            Some(views) => views,
            None => latest_views(initial, calls.drop_last()),
        }
    }
}

/// A stream remembers the views of its latest new frame, over any number of
/// frames and whatever else is called in between.
pub proof fn law_latest_views_are_remembered<T: StreamTypes>(
    stream: ContextModel<T>,
    calls: Seq<StreamCall<T>>,
)
    ensures
        after_calls(stream, calls).last_good_view_params == latest_views(
            stream.last_good_view_params,
            calls,
        ),
    decreases calls.len(),
{
    if calls.len() > 0 {
        law_latest_views_are_remembered(stream, calls.drop_last());
    }
}

/// What a stream was started with stays, whatever is called on it: only the
/// room, the post processing, the decoder, the remembered views and the input
/// thread change.
pub proof fn law_settings_stay<T: StreamTypes>(stream: ContextModel<T>, calls: Seq<StreamCall<T>>)
    ensures
        ({
            let later = after_calls(stream, calls);
            later == (ContextModel::<T> {
                config: ParsedStreamConfig {
                    passthrough: later.config.passthrough,
                    clientside_post_processing: later.config.clientside_post_processing,
                    ..stream.config
                },
                decoder: later.decoder,
                last_good_view_params: later.last_good_view_params,
                has_input_thread: later.has_input_thread,
                input_thread_running: later.input_thread_running,
                ..stream
            })
        }),
    decreases calls.len(),
{
    if calls.len() > 0 {
        law_settings_stay(stream, calls.drop_last());
    }
}

/// The area of a client without a guardian of its own is 20 metres on each axis.
pub proof fn law_desktop_area_is_twenty_metres()
    ensures
        !desktop_area().x.is_not_a_number() && !desktop_area().x.is_negative(),
        desktop_area().x.magnitude() == 20 * one_in_units(),
        desktop_area().y == desktop_area().x,
{
    let extent = desktop_area().x;
    crate::float32::lemma_pow2_product(126, 23);
    vstd::arithmetic::power2::lemma_pow2_unfold(127);
    vstd::arithmetic::power2::lemma_pow2_unfold(128);
    vstd::arithmetic::power2::lemma_pow2_unfold(129);
    vstd::arithmetic::power2::lemma_pow2_unfold(130);
    assert(pow2(130) == 16 * pow2(126));
    assert(one_in_units() == 0x80_0000 * pow2(126));
    assert(extent.exponent() == 131 && extent.fraction() == 0x20_0000);
    assert(extent.magnitude() == 0xa0_0000 * pow2(130));
}

/// How many input threads there are after an action.
pub open spec fn threads_after_one(threads: int, action: ContextAction) -> int {
    match action {
        ContextAction::JoinInputThread => threads - 1,
        ContextAction::SpawnInputThread { .. } => threads + 1,
        _ => threads,
    }
}

/// How many input threads there are after a plan.
pub open spec fn threads_after(threads: int, plan: Seq<ContextAction>) -> int
    decreases plan.len(),
{
    if plan.len() == 0 {
        threads
    } else {
        threads_after_one(threads_after(threads, plan.drop_last()), plan.last())
    }
}

/// Whether input threads are told to run after a plan.
pub open spec fn running_after(running: bool, plan: Seq<ContextAction>) -> bool
    decreases plan.len(),
{
    if plan.len() == 0 {
        running
    } else {
        match plan.last() {
            ContextAction::SetInputRunning(on) => on,
            _ => running_after(running, plan.drop_last()),
        }
    }
}

/// Whether a plan never has two input threads at once, never waits for one that
/// is told to run, and never starts one that is told to end.
pub open spec fn keeps_one_thread(
    has_thread: bool,
    running: bool,
    plan: Seq<ContextAction>,
) -> bool {
    let threads = if has_thread {
        1int
    } else {
        0int
    };
    &&& forall|k: int|
        0 <= k <= plan.len() ==> 0 <= #[trigger] threads_after(threads, plan.take(k)) <= 1
    &&& forall|k: int|
        0 <= k < plan.len() && (#[trigger] plan[k]) is JoinInputThread ==> !running_after(
            running,
            plan.take(k),
        )
    &&& forall|k: int|
        0 <= k < plan.len() && (#[trigger] plan[k]) is SpawnInputThread ==> running_after(
            running,
            plan.take(k),
        )
}

/// A plan is worked off action by action.
proof fn lemma_one_more(threads: int, running: bool, plan: Seq<ContextAction>, k: int)
    requires
        0 <= k < plan.len(),
    ensures
        threads_after(threads, plan.take(k + 1)) == threads_after_one(
            threads_after(threads, plan.take(k)),
            plan[k],
        ),
        running_after(running, plan.take(k + 1)) == match plan[k] {
            ContextAction::SetInputRunning(on) => on,
            _ => running_after(running, plan.take(k)),
        },
        threads_after(threads, plan.take(0)) == threads,
        running_after(running, plan.take(0)) == running,
{
    assert(plan.take(k + 1).drop_last() =~= plan.take(k));
    assert(plan.take(k + 1).last() == plan[k]);
}

/// Renewing the reference space replaces the input thread: there are never two
/// of them, the old one is waited for only once it is told to end, and the new
/// one is left running.
pub proof fn law_renewal_replaces_the_input_thread(
    has_thread: bool,
    running: bool,
    area: PlayspaceArea,
    refresh_rate: Float32,
)
    ensures
        ({
            let plan = reference_space_plan(has_thread, area, refresh_rate);
            let threads = if has_thread {
                1int
            } else {
                0int
            };
            &&& keeps_one_thread(has_thread, running, plan)
            &&& threads_after(threads, plan) == 1
            &&& running_after(running, plan)
        }),
{
    let plan = reference_space_plan(has_thread, area, refresh_rate);
    let threads = if has_thread {
        1int
    } else {
        0int
    };
    lemma_one_more(threads, running, plan, 0);
    lemma_one_more(threads, running, plan, 1);
    lemma_one_more(threads, running, plan, 2);
    lemma_one_more(threads, running, plan, 3);
    lemma_one_more(threads, running, plan, 4);
    lemma_one_more(threads, running, plan, 5);
    if has_thread {
        lemma_one_more(threads, running, plan, 6);
    }
    assert(plan.take(plan.len() as int) =~= plan);
    assert forall|k: int| 0 <= k <= plan.len() implies 0 <= #[trigger] threads_after(
        threads,
        plan.take(k),
    ) <= 1 by {
        assert(k == 0 || k == 1 || k == 2 || k == 3 || k == 4 || k == 5 || k == 6 || k == 7);
    }
}

/// Ending a stream leaves no input thread behind, and does not wait for one that
/// is told to run.
pub proof fn law_shutdown_leaves_no_thread(running: bool)
    ensures
        keeps_one_thread(true, running, shutdown_plan()),
        threads_after(1, shutdown_plan()) == 0,
        !running_after(running, shutdown_plan()),
{
    let plan = shutdown_plan();
    lemma_one_more(1, running, plan, 0);
    lemma_one_more(1, running, plan, 1);
    assert(plan.take(2) =~= plan);
    assert forall|k: int| 0 <= k <= plan.len() implies 0 <= #[trigger] threads_after(
        1,
        plan.take(k),
    ) <= 1 by {
        assert(k == 0 || k == 1 || k == 2);
    }
}

/// What a stream starts with: its settings and views as given, no decoder, views
/// replaced by those of the headset on a YVR, layers processed where the runtime
/// can, and an input thread that runs.
pub proof fn law_stream_starts_as_asked<T: StreamTypes>(
    config: ParsedStreamConfig<T>,
    extensions: Extensions,
    platform: PlatformTraits,
    target_view_resolution: Resolution,
    initial_views: Stereo<T::ViewParams>,
)
    ensures
        ({
            let before = ContextModel::<T>::before_start(
                config,
                extensions,
                platform,
                target_view_resolution,
                initial_views,
            );
            let started = before.after_renewal();
            &&& !before.has_input_thread
            &&& before.config.refresh_rate_hint == config.refresh_rate_hint
            &&& started.config == config
            &&& started.target_view_resolution == target_view_resolution
            &&& started.last_good_view_params == initial_views
            &&& started.decoder is None
            &&& started.use_custom_reprojection == platform.is_yvr
            &&& started.composition_layer_settings == extensions.composition_layer_settings
            &&& started.has_input_thread && started.input_thread_running
        }),
{
}

/// What is asked of the runtime and of the renderer: the refresh rate where it
/// can be chosen; a foveation profile exactly where one is configured and all
/// three extensions are there, with the configured level and offset, dynamic as
/// configured; no correction of the colour space exactly with a high dynamic
/// range on a Pico or a Galaxy XR; the repair of the range exactly without a high
/// dynamic range off the Galaxy XR.
pub proof fn law_setup_follows_settings_and_platform<T: StreamTypes>(
    config: ParsedStreamConfig<T>,
    extensions: Extensions,
    platform: PlatformTraits,
)
    ensures
        ({
            let setup = wanted_setup(config, extensions, platform);
            &&& extensions.display_refresh_rate ==> setup.refresh_rate_request == Some(
                config.refresh_rate_hint,
            )
            &&& !extensions.display_refresh_rate ==> setup.refresh_rate_request is None
            &&& setup.foveation_profile is Some <==> config.clientside_foveation_config is Some
                && extensions.swapchain_update_state && extensions.foveation
                && extensions.foveation_configuration
            &&& setup.foveation_profile matches Some(profile) ==> {
                &&& config.clientside_foveation_config matches Some(wanted)
                &&& profile.vertical_offset == wanted.vertical_offset_deg
                &&& wanted.mode matches ClientsideFoveationMode::Static { level } ==> profile.level
                    == level && profile.dynamic == 0
                &&& wanted.mode matches ClientsideFoveationMode::Dynamic { max_level }
                    ==> profile.level == max_level && profile.dynamic == 1
            }
            &&& !setup.srgb_correction <==> config.enable_hdr && (platform.is_pico
                || platform.is_samsung_galaxy_xr)
            &&& setup.fix_limited_range <==> !config.enable_hdr && !platform.is_samsung_galaxy_xr
        }),
{
}

/// Renewing the reference space tells the server one area: on a headset the one
/// of the size in force, 20, 15, 10, 5 or 2.5 metres on each axis or about a
/// millimetre, and elsewhere 20 metres. On a headset it is the same that the
/// guardian announces when a tap selects that size.
pub proof fn law_renewal_tells_the_area_in_force<T: StreamTypes>(
    stream: ContextModel<T>,
    headset: bool,
    mode_idx: int,
    told: PlayspaceArea,
    guardian: GuardianState,
    input: GuardianInput,
)
    requires
        headset ==> 0 <= mode_idx < 6,
        stream.renewal_plan(headset, mode_idx).contains(ContextAction::SendPlayspace(told)),
        guardian.wf(),
    ensures
        told.y == told.x && !told.x.is_not_a_number() && !told.x.is_negative(),
        !headset || mode_idx == 1 ==> told.x.magnitude() == 20 * one_in_units(),
        headset && mode_idx == 2 ==> told.x.magnitude() == 15 * one_in_units(),
        headset && mode_idx == 3 ==> told.x.magnitude() == 10 * one_in_units(),
        headset && mode_idx == 4 ==> told.x.magnitude() == 5 * one_in_units(),
        headset && mode_idx == 5 ==> 2 * told.x.magnitude() == 5 * one_in_units(),
        headset && mode_idx == 0 ==> -1000 * pow2(116) <= 2 * (1000 * told.x.magnitude()
            - one_in_units()) <= 1000 * pow2(116),
        headset && (guardian.effect(input) matches GuardianEffect::SelectMode {
            mode_idx: selected,
            ..
        } && selected == mode_idx) ==> guardian.effect(input)->area == told,
{
    let area = reported_area(headset, mode_idx);
    law_renewal_plan_holds_each_action_once(stream, headset, mode_idx);
    assert(told == area);
    if !headset {
        law_desktop_area_is_twenty_metres();
    } else if mode_idx > 0 {
        law_areas_in_metres(mode_idx);
    } else {
        law_missing_area_is_a_millimetre();
    }
}

/// The place of an action in the renewal of the reference space: the old input
/// thread is told to end, the spaces are replaced, the area is told, the old
/// thread is waited for, and a new one is let run and started.
pub open spec fn place_in_renewal(action: ContextAction) -> int {
    match action {
        ContextAction::SetInputRunning(false) => 0,
        ContextAction::ReplaceStageSpace => 1,
        ContextAction::ReplaceViewSpace => 2,
        ContextAction::SendPlayspace(_) => 3,
        ContextAction::JoinInputThread => 4,
        ContextAction::SetInputRunning(true) => 5,
        ContextAction::SpawnInputThread { .. } => 6,
    }
}

/// Renewing the reference space holds every action once and in its place: one
/// area is told, the new input thread polls at the rate of the settings, and the
/// old one is waited for exactly if there is one.
pub proof fn law_renewal_plan_holds_each_action_once<T: StreamTypes>(
    stream: ContextModel<T>,
    headset: bool,
    mode_idx: int,
)
    ensures
        ({
            let plan = stream.renewal_plan(headset, mode_idx);
            &&& forall|i: int, j: int|
                0 <= i < j < plan.len() ==> place_in_renewal(#[trigger] plan[i])
                    < place_in_renewal(#[trigger] plan[j])
            &&& plan.contains(ContextAction::SetInputRunning(false))
            &&& plan.contains(ContextAction::ReplaceStageSpace)
            &&& plan.contains(ContextAction::ReplaceViewSpace)
            &&& exists|area: PlayspaceArea| #[trigger]
                plan.contains(ContextAction::SendPlayspace(area))
            &&& forall|area: PlayspaceArea| #[trigger]
                plan.contains(ContextAction::SendPlayspace(area)) ==> area
                    == reported_area(headset, mode_idx)
            &&& plan.contains(ContextAction::JoinInputThread) <==> stream.has_input_thread
            &&& plan.contains(ContextAction::SetInputRunning(true))
            &&& plan.contains(
                ContextAction::SpawnInputThread { refresh_rate: stream.config.refresh_rate_hint },
            )
        }),
{
    let plan = stream.renewal_plan(headset, mode_idx);
    let area = reported_area(headset, mode_idx);
    assert(plan[0] == ContextAction::SetInputRunning(false));
    assert(plan[1] is ReplaceStageSpace);
    assert(plan[2] is ReplaceViewSpace);
    assert(plan[3] == ContextAction::SendPlayspace(area));
    assert(plan.contains(ContextAction::SendPlayspace(area)));
    if stream.has_input_thread {
        assert(plan[4] is JoinInputThread);
        assert(plan[5] == ContextAction::SetInputRunning(true));
        assert(plan[6] is SpawnInputThread);
    } else {
        assert(plan[4] == ContextAction::SetInputRunning(true));
        assert(plan[5] is SpawnInputThread);
    }
}

/// Ending a stream tells the input thread to end, then waits for it, and does
/// nothing else. The stream is left without one and otherwise as it was.
pub proof fn law_shutdown_only_ends_the_thread<T: StreamTypes>(stream: ContextModel<T>)
    ensures
        shutdown_plan().len() == 2,
        shutdown_plan()[0] == ContextAction::SetInputRunning(false),
        shutdown_plan()[1] is JoinInputThread,
        !stream.after_shutdown().has_input_thread,
        !stream.after_shutdown().input_thread_running,
        stream.after_shutdown() == (ContextModel::<T> {
            has_input_thread: false,
            input_thread_running: false,
            ..stream
        }),
{
}

/// What the guardian does to each kind of passthrough. Asking for the room shows
/// all of it where nothing was shown, unmultiplied, and changes nothing else.
/// Taking it back removes a blend whose threshold is 1 or the single just below,
/// and nothing else.
pub proof fn law_guardian_touches_its_own_passthrough_only<T: StreamTypes>(
    stream: ContextModel<T>,
)
    ensures
        ({
            let before = stream.config.passthrough;
            let on = stream.after_guardian(true).config.passthrough;
            let off = stream.after_guardian(false).config.passthrough;
            &&& before is Some ==> on == before
            &&& before is None ==> on == Some(
                PassthroughMode::<T>::Blend {
                    premultiplied_alpha: false,
                    threshold: Float32 { bits: 0x3f80_0000 },
                },
            )
            &&& off is None <==> (before is None || (before matches Some(PassthroughMode::Blend {
                threshold,
                ..
            }) && (threshold.bits == 0x3f80_0000 || threshold.bits == 0x3f7f_ffff)))
            &&& off is Some ==> off == before
        }),
{
    if let Some(PassthroughMode::Blend { threshold, .. }) = stream.config.passthrough {
        law_two_singles_are_about_one(threshold);
    }
}

/// New settings replace how the room shows and how layers are processed, both as
/// they came, whatever was there before; a second update leaves nothing of the
/// first.
pub proof fn law_new_settings_replace_the_old<T: StreamTypes>(
    stream: ContextModel<T>,
    first: RealTimeConfig<T>,
    second: RealTimeConfig<T>,
)
    ensures
        ({
            let after = stream.after_real_time_config(first);
            &&& after.config.passthrough == first.passthrough
            &&& after.config.clientside_post_processing == first.clientside_post_processing
            &&& after.after_real_time_config(second) == stream.after_real_time_config(second)
        }),
{
}

/// A request leads to a new decoder exactly if there is none, or the one there is
/// differs in the codec, the data or a setting; the new one has all of them as
/// asked for.
pub proof fn law_request_is_met<T: StreamTypes>(
    stream: ContextModel<T>,
    codec: CodecType,
    config_nal: Seq<u8>,
    i: int,
)
    ensures
        ({
            let after = stream.after_decoder_request(codec, config_nal);
            let options = stream.config.decoder_options@;
            &&& stream.decoder is None ==> stream.creates_decoder(codec, config_nal)
            &&& stream.decoder matches Some(present) ==> {
                &&& present.codec != codec ==> stream.creates_decoder(codec, config_nal)
                &&& present.config_buffer != config_nal ==> stream.creates_decoder(
                    codec,
                    config_nal,
                )
                &&& present.force_software_decoder != stream.config.force_software_decoder
                    ==> stream.creates_decoder(codec, config_nal)
                &&& present.options.len() != options.len() ==> stream.creates_decoder(
                    codec,
                    config_nal,
                )
            }
            &&& stream.creates_decoder(codec, config_nal) ==> {
                &&& after.decoder matches Some(created)
                &&& created.codec == codec
                &&& created.config_buffer == config_nal
                &&& created.force_software_decoder == stream.config.force_software_decoder
                &&& created.max_buffering_frames == stream.config.max_buffering_frames
                &&& created.buffering_history_weight == stream.config.buffering_history_weight
                &&& created.options.len() == options.len()
                &&& 0 <= i < options.len() ==> {
                    &&& created.options[i].0 == options[i].0@
                    &&& created.options[i].1.type_tag == options[i].1.type_tag
                    &&& created.options[i].1.value == options[i].1.value@
                }
            }
            &&& !stream.creates_decoder(codec, config_nal) ==> after == stream
        }),
{
    crate::decoder::law_decoder_has_what_was_asked_for(stream.config, codec, config_nal, i);
}

/// Rendering sees the stream as it is: whether there is a decoder, the remembered
/// views, how the room shows, the whole of the images, and the post processing
/// where the runtime can.
pub proof fn law_rendering_sees_the_stream<T: StreamTypes>(stream: ContextModel<T>)
    ensures
        ({
            let seen = stream.render_context();
            let size = stream.target_view_resolution;
            &&& seen.has_decoder <==> stream.decoder is Some
            &&& seen.use_custom_reprojection == stream.use_custom_reprojection
            &&& seen.last_good_view_params == stream.last_good_view_params
            &&& seen.rect.x == 0 && seen.rect.y == 0
            &&& size.x < 0x8000_0000 ==> seen.rect.width == size.x
            &&& size.y < 0x8000_0000 ==> seen.rect.height == size.y
            &&& (seen.rect.width - size.x) % 0x1_0000_0000 == 0
            &&& (seen.rect.height - size.y) % 0x1_0000_0000 == 0
            &&& stream.config.passthrough is None <==> seen.passthrough is None
            &&& stream.config.passthrough matches Some(mode) ==> seen.passthrough == Some(&mode)
            &&& seen.alpha is None <==> stream.config.passthrough is None
            &&& stream.config.passthrough matches Some(mode) ==> (seen.alpha matches Some(alpha)
                && (alpha.premultiplied <==> !(mode matches PassthroughMode::Blend {
                premultiplied_alpha,
                ..
            } && !premultiplied_alpha)))
            &&& seen.post_processing is Some <==> stream.composition_layer_settings
                && stream.config.clientside_post_processing is Some
            &&& seen.post_processing matches Some(wanted)
                ==> stream.config.clientside_post_processing == Some(*wanted)
        }),
{
}

/// Every call changes its own part of a stream and leaves the rest as it was: the
/// guardian how the room shows; renewing the reference space the input thread,
/// which then runs; a request for a decoder the decoder; new settings how the
/// room shows and how layers are processed; and rendering the remembered views.
pub proof fn law_each_call_keeps_to_its_own<T: StreamTypes>(
    stream: ContextModel<T>,
    active: bool,
    codec: CodecType,
    config_nal: Seq<u8>,
    settings: RealTimeConfig<T>,
    frame: RenderFrame<T::ViewParams>,
    event: RenderEvent<T::ViewParams>,
)
    ensures
        ({
            let after = stream.after_guardian(active);
            after == (ContextModel::<T> {
                config: ParsedStreamConfig {
                    passthrough: after.config.passthrough,
                    ..stream.config
                },
                ..stream
            })
        }),
        stream.after_renewal() == (ContextModel::<T> {
            has_input_thread: true,
            input_thread_running: true,
            ..stream
        }),
        ({
            let after = stream.after_decoder_request(codec, config_nal);
            after == (ContextModel::<T> { decoder: after.decoder, ..stream })
        }),
        ({
            let after = stream.after_real_time_config(settings);
            after == (ContextModel::<T> {
                config: ParsedStreamConfig {
                    passthrough: settings.passthrough,
                    clientside_post_processing: settings.clientside_post_processing,
                    ..stream.config
                },
                ..stream
            })
        }),
        ({
            let after = stream.after_render(frame, event);
            after == (ContextModel::<T> {
                last_good_view_params: after.last_good_view_params,
                ..stream
            })
        }),
{
}

/// The room shows exactly while there is a mode for it: always once the guardian
/// has asked for it, after new settings as they say, and as before across the
/// other calls.
pub proof fn law_room_shows_while_there_is_a_mode<T: StreamTypes>(
    stream: ContextModel<T>,
    codec: CodecType,
    config_nal: Seq<u8>,
    settings: RealTimeConfig<T>,
    frame: RenderFrame<T::ViewParams>,
    event: RenderEvent<T::ViewParams>,
)
    ensures
        stream.after_guardian(true).shows_the_room(),
        stream.after_guardian(false).shows_the_room() ==> stream.shows_the_room(),
        stream.after_real_time_config(settings).shows_the_room() <==> settings.passthrough is Some,
        stream.after_renewal().shows_the_room() <==> stream.config.passthrough is Some,
        stream.after_decoder_request(codec, config_nal).shows_the_room()
            <==> stream.config.passthrough is Some,
        stream.after_render(frame, event).shows_the_room() <==> stream.config.passthrough is Some,
        stream.render_context().alpha is Some <==> stream.shows_the_room(),
{
}

} // verus!
