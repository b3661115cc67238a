use openxr_stream::config::{
    AudioSettings, ClientsideFoveationConfig, ClientsideFoveationMode, MediacodecProperty,
    NegotiatedConfig, ParsedStreamConfig, PassthroughMode, RealTimeConfig, Resolution, Settings,
    StreamConfig, StreamTypes, Switch, VideoSettings,
};
use openxr_stream::context::{
    ContextAction, Extensions, FoveationLevelProfile, PlatformTraits, StreamContext, StreamSetup,
};
use openxr_stream::decoder::CodecType;
use openxr_stream::float32::Float32;
use openxr_stream::guardian::PlayspaceArea;
use openxr_stream::render::{
    display_time, headset_views, image_rect, layer_alpha, runtime_time, vsync_queue, DecodedFrame,
    ImageRect, ProjectionLayerAlphaConfig, RenderAction, RenderEvent, RenderFrame, Stereo,
};

const SECOND: u128 = 1_000_000_000;

struct Plain;

impl StreamTypes for Plain {
    type FoveatedEncoding = u32;
    type PostProcessing = u32;
    type Upscaling = u32;
    type RgbChromaKey = u32;
    type HsvChromaKey = u32;
    type InteractionSources = u32;
    type ViewParams = u32;
}

fn of(value: f32) -> Float32 {
    Float32 { bits: value.to_bits() }
}

fn blend(premultiplied_alpha: bool, threshold: f32) -> PassthroughMode<Plain> {
    PassthroughMode::Blend { premultiplied_alpha, threshold: of(threshold) }
}

fn settings(passthrough: Switch<PassthroughMode<Plain>>, foveated: bool) -> StreamConfig<Plain> {
    StreamConfig {
        negotiated_config: NegotiatedConfig {
            view_resolution: Resolution { x: 2000, y: 1900 },
            refresh_rate_hint: of(72.0),
            encoding_gamma: of(1.5),
            enable_foveated_encoding: foveated,
            enable_hdr: true,
        },
        settings: Settings {
            video: VideoSettings {
                passthrough,
                foveated_encoding: Switch::Enabled(11),
                clientside_foveation: Switch::Enabled(ClientsideFoveationConfig {
                    mode: ClientsideFoveationMode::Dynamic { max_level: 3 },
                    vertical_offset_deg: of(2.0),
                }),
                clientside_post_processing: Switch::Enabled(12),
                upscaling: Switch::Disabled,
                force_software_decoder: true,
                max_buffering_frames: of(2.0),
                buffering_history_weight: of(0.9),
                mediacodec_extra_options: vec![(
                    "operating-rate".to_string(),
                    MediacodecProperty { type_tag: 1, value: "32767".to_string() },
                )],
            },
            audio: AudioSettings { boundary_alert_enabled: true },
        },
    }
}

fn extensions(all: bool) -> Extensions {
    Extensions {
        display_refresh_rate: all,
        swapchain_update_state: all,
        foveation: all,
        foveation_configuration: all,
        composition_layer_settings: all,
    }
}

fn platform(is_pico: bool, is_yvr: bool, is_samsung_galaxy_xr: bool) -> PlatformTraits {
    PlatformTraits { is_pico, is_yvr, is_samsung_galaxy_xr }
}

fn context(passthrough: Switch<PassthroughMode<Plain>>, is_yvr: bool) -> StreamContext<Plain> {
    let config = ParsedStreamConfig::new(settings(passthrough, true), 99);
    StreamContext::new(
        config,
        &extensions(true),
        &platform(false, is_yvr, false),
        Resolution { x: 3000, y: 2850 },
        Stereo { left: 1, right: 2 },
        true,
        2,
    )
    .0
}

fn square(extent: f32) -> PlayspaceArea {
    PlayspaceArea { x: of(extent), y: of(extent) }
}

#[test]
fn settings_are_picked_out() {
    let parsed = ParsedStreamConfig::new(settings(Switch::Enabled(blend(true, 0.5)), true), 99);
    assert_eq!(parsed.view_resolution, Resolution { x: 2000, y: 1900 });
    assert_eq!(parsed.refresh_rate_hint, of(72.0));
    assert_eq!(parsed.encoding_gamma, of(1.5));
    assert!(parsed.enable_hdr);
    assert!(matches!(
        parsed.passthrough,
        Some(PassthroughMode::Blend { premultiplied_alpha: true, .. })
    ));
    assert_eq!(parsed.foveated_encoding_config, Some(11));
    assert!(parsed.clientside_foveation_config.is_some());
    assert_eq!(parsed.clientside_post_processing, Some(12));
    assert_eq!(parsed.upscaling, None);
    assert!(parsed.force_software_decoder);
    assert_eq!(parsed.max_buffering_frames, of(2.0));
    assert_eq!(parsed.buffering_history_weight, of(0.9));
    assert_eq!(parsed.decoder_options.len(), 1);
    assert_eq!(parsed.decoder_options[0].0, "operating-rate");
    assert_eq!(parsed.decoder_options[0].1.value, "32767");
    assert_eq!(parsed.interaction_sources, 99);
    assert!(parsed.boundary_alert_enabled);
}

#[test]
fn foveated_encoding_must_be_negotiated() {
    let parsed = ParsedStreamConfig::new(settings(Switch::Disabled, false), 99);
    assert_eq!(parsed.foveated_encoding_config, None);
    assert!(parsed.passthrough.is_none());
}

#[test]
fn setup_follows_the_extensions() {
    let parsed = ParsedStreamConfig::new(settings(Switch::Disabled, true), 99);
    let setup = StreamSetup::new(&parsed, &extensions(true), &platform(false, false, false));
    assert_eq!(setup.refresh_rate_request, Some(of(72.0)));
    assert_eq!(
        setup.foveation_profile,
        Some(FoveationLevelProfile { level: 3, vertical_offset: of(2.0), dynamic: 1 })
    );
    let bare = StreamSetup::new(&parsed, &extensions(false), &platform(false, false, false));
    assert_eq!(bare.refresh_rate_request, None);
    assert_eq!(bare.foveation_profile, None);
    let partial = Extensions { foveation: false, ..extensions(true) };
    let setup = StreamSetup::new(&parsed, &partial, &platform(false, false, false));
    assert_eq!(setup.foveation_profile, None);
}

#[test]
fn static_foveation_is_not_dynamic() {
    let mut parsed = ParsedStreamConfig::new(settings(Switch::Disabled, true), 99);
    parsed.clientside_foveation_config = Some(ClientsideFoveationConfig {
        mode: ClientsideFoveationMode::Static { level: 2 },
        vertical_offset_deg: of(0.0),
    });
    let setup = StreamSetup::new(&parsed, &extensions(true), &platform(false, false, false));
    assert_eq!(
        setup.foveation_profile,
        Some(FoveationLevelProfile { level: 2, vertical_offset: of(0.0), dynamic: 0 })
    );
    parsed.clientside_foveation_config = None;
    let setup = StreamSetup::new(&parsed, &extensions(true), &platform(false, false, false));
    assert_eq!(setup.foveation_profile, None);
}

#[test]
fn renderer_options_follow_the_platform() {
    let mut parsed = ParsedStreamConfig::new(settings(Switch::Disabled, true), 99);
    let options = |config: &ParsedStreamConfig<Plain>, traits: PlatformTraits| {
        let setup = StreamSetup::new(config, &extensions(true), &traits);
        (setup.srgb_correction, setup.fix_limited_range)
    };
    assert_eq!(options(&parsed, platform(false, false, false)), (true, false));
    assert_eq!(options(&parsed, platform(true, false, false)), (false, false));
    assert_eq!(options(&parsed, platform(false, false, true)), (false, false));
    parsed.enable_hdr = false;
    assert_eq!(options(&parsed, platform(true, false, false)), (true, true));
    assert_eq!(options(&parsed, platform(false, false, true)), (true, false));
}

#[test]
fn stream_starts_its_input_thread() {
    let config = ParsedStreamConfig::new(settings(Switch::Disabled, true), 99);
    let (mut context, plan) = StreamContext::new(
        config,
        &extensions(true),
        &platform(false, false, false),
        Resolution { x: 1, y: 1 },
        Stereo { left: 1, right: 2 },
        true,
        2,
    );
    assert_eq!(
        plan,
        vec![
            ContextAction::SetInputRunning(false),
            ContextAction::ReplaceStageSpace,
            ContextAction::ReplaceViewSpace,
            ContextAction::SendPlayspace(square(15.0)),
            ContextAction::SetInputRunning(true),
            ContextAction::SpawnInputThread { refresh_rate: of(72.0) },
        ]
    );
    assert_eq!(
        context.update_reference_space(false, 2),
        vec![
            ContextAction::SetInputRunning(false),
            ContextAction::ReplaceStageSpace,
            ContextAction::ReplaceViewSpace,
            ContextAction::SendPlayspace(square(20.0)),
            ContextAction::JoinInputThread,
            ContextAction::SetInputRunning(true),
            ContextAction::SpawnInputThread { refresh_rate: of(72.0) },
        ]
    );
    assert_eq!(
        context.update_reference_space(true, 0)[3],
        ContextAction::SendPlayspace(square(0.001))
    );
    assert_eq!(
        context.shut_down(),
        vec![ContextAction::SetInputRunning(false), ContextAction::JoinInputThread]
    );
}

#[test]
fn guardian_borrows_the_passthrough() {
    let mut context = context(Switch::Disabled, false);
    assert!(!context.uses_passthrough());
    context.set_guardian_passthrough(true);
    assert!(matches!(
        shown(&mut context).0,
        Some(PassthroughMode::Blend {
            premultiplied_alpha: false,
            threshold: Float32 { bits: 0x3f80_0000 },
        })
    ));
    context.set_guardian_passthrough(true);
    assert!(context.uses_passthrough());
    context.set_guardian_passthrough(false);
    assert!(!context.uses_passthrough());
}

#[test]
fn guardian_keeps_other_passthrough() {
    let mut context = context(Switch::Enabled(blend(true, 0.5)), false);
    context.set_guardian_passthrough(true);
    context.set_guardian_passthrough(false);
    assert!(matches!(
        shown(&mut context).0,
        Some(PassthroughMode::Blend { premultiplied_alpha: true, threshold }) if threshold == of(0.5)
    ));
}

#[test]
fn full_blend_counts_as_the_guardians() {
    let mut context = context(Switch::Enabled(blend(true, 1.0)), false);
    context.set_guardian_passthrough(false);
    assert!(!context.uses_passthrough());
}

#[test]
fn decoder_is_created_when_it_changes() {
    let mut context = context(Switch::Disabled, false);
    let created = context.maybe_initialize_decoder(CodecType::Hevc, vec![1, 2, 3]).unwrap();
    assert_eq!(created.codec, CodecType::Hevc);
    assert!(created.force_software_decoder);
    assert_eq!(created.max_buffering_frames, of(2.0));
    assert_eq!(created.buffering_history_weight, of(0.9));
    assert_eq!(created.options[0].0, "operating-rate");
    assert_eq!(created.options[0].1.type_tag, 1);
    assert_eq!(created.options[0].1.value, "32767");
    assert_eq!(created.config_buffer, vec![1, 2, 3]);
    assert!(context.maybe_initialize_decoder(CodecType::Hevc, vec![1, 2, 3]).is_none());
    assert!(context.maybe_initialize_decoder(CodecType::Hevc, vec![1, 2, 4]).is_some());
    assert!(context.maybe_initialize_decoder(CodecType::Hevc, vec![1, 2]).is_some());
    assert!(context.maybe_initialize_decoder(CodecType::AV1, vec![1, 2]).is_some());
    assert!(context.maybe_initialize_decoder(CodecType::AV1, vec![1, 2]).is_none());
}

#[test]
fn decoder_with_a_nan_is_created_again() {
    let mut config = ParsedStreamConfig::new(settings(Switch::Disabled, true), 99);
    config.max_buffering_frames = of(f32::NAN);
    let mut context: StreamContext<Plain> = StreamContext::new(
        config,
        &extensions(true),
        &platform(false, false, false),
        Resolution { x: 1, y: 1 },
        Stereo { left: 1, right: 2 },
        false,
        1,
    )
    .0;
    assert!(context.maybe_initialize_decoder(CodecType::H264, vec![]).is_some());
    assert!(context.maybe_initialize_decoder(CodecType::H264, vec![]).is_some());
}

#[test]
fn decoder_stays_across_other_calls() {
    let mut context = context(Switch::Disabled, false);
    assert!(context.maybe_initialize_decoder(CodecType::Hevc, vec![1]).is_some());
    context.set_guardian_passthrough(true);
    context.update_reference_space(true, 3);
    context.update_real_time_config(RealTimeConfig {
        passthrough: None,
        clientside_post_processing: None,
    });
    shown(&mut context);
    assert!(context.maybe_initialize_decoder(CodecType::Hevc, vec![1]).is_none());
}

/// Shows a frame without a new image, and tells how the room shows through it and
/// how its layer is processed.
fn shown(context: &mut StreamContext<Plain>) -> (Option<PassthroughMode<Plain>>, Option<u32>) {
    let mut frame = RenderFrame::new(10 * SECOND);
    context.render(&mut frame, RenderEvent::Begin { now: 100, timeout: 50 });
    context.render(&mut frame, RenderEvent::Clock { now: 150 });
    context.render(&mut frame, RenderEvent::ImagesReady { left: 0, right: 0 });
    let drawn = match context.render(&mut frame, located(1)) {
        RenderAction::Draw { passthrough, .. } => match passthrough {
            Some(PassthroughMode::Blend { premultiplied_alpha, threshold }) => {
                Some(PassthroughMode::Blend {
                    premultiplied_alpha: *premultiplied_alpha,
                    threshold: *threshold,
                })
            }
            Some(PassthroughMode::RgbChromaKey(key)) => Some(PassthroughMode::RgbChromaKey(*key)),
            Some(PassthroughMode::HsvChromaKey(key)) => Some(PassthroughMode::HsvChromaKey(*key)),
            None => None,
        },
        _ => panic!("not drawn"),
    };
    context.render(&mut frame, RenderEvent::Drawn);
    match context.render(&mut frame, RenderEvent::Released) {
        RenderAction::Finish { layer, .. } => (drawn, layer.post_processing.copied()),
        _ => panic!("not finished"),
    }
}

#[test]
fn real_time_settings_are_taken_over() {
    let mut context = context(Switch::Disabled, false);
    assert!(matches!(shown(&mut context), (None, Some(12))));
    context.update_real_time_config(RealTimeConfig {
        passthrough: Some(PassthroughMode::HsvChromaKey(5)),
        clientside_post_processing: None,
    });
    assert!(matches!(shown(&mut context), (Some(PassthroughMode::HsvChromaKey(5)), None)));
}

#[test]
fn guardian_shows_the_room_in_the_frame() {
    let mut context = context(Switch::Disabled, false);
    context.set_guardian_passthrough(true);
    match shown(&mut context).0 {
        Some(PassthroughMode::Blend { premultiplied_alpha, threshold }) => {
            assert!(!premultiplied_alpha);
            assert_eq!(threshold, of(1.0));
        }
        _ => panic!("no room"),
    }
}

#[test]
fn post_processing_needs_the_extension() {
    let config = ParsedStreamConfig::new(settings(Switch::Disabled, true), 99);
    let mut context: StreamContext<Plain> = StreamContext::new(
        config,
        &extensions(false),
        &platform(false, false, false),
        Resolution { x: 1, y: 1 },
        Stereo { left: 1, right: 2 },
        false,
        1,
    )
    .0;
    assert_eq!(shown(&mut context).1, None);
}

#[test]
fn views_are_remembered_over_frames() {
    let mut context = context(Switch::Disabled, false);
    context.maybe_initialize_decoder(CodecType::H264, vec![]);
    let mut drawn: Vec<(u32, u32)> = Vec::new();
    for found in [None, Some(30), None, None, Some(40), None] {
        let mut frame = RenderFrame::new(10 * SECOND);
        context.render(&mut frame, RenderEvent::Begin { now: 0, timeout: 50 });
        if let Some(view) = found {
            let decoded = DecodedFrame { timestamp: SECOND, buffer: 64 };
            context.render(&mut frame, RenderEvent::Clock { now: 1 });
            context.render(&mut frame, RenderEvent::FramePolled { frame: Some(decoded) });
            context.render(&mut frame, RenderEvent::Paused);
            let views = Stereo { left: view + 1, right: view + 2 };
            context.render(&mut frame, RenderEvent::CompositorStarted { views });
        } else {
            context.render(&mut frame, RenderEvent::Clock { now: 50 });
        }
        context.render(&mut frame, RenderEvent::ImagesReady { left: 0, right: 0 });
        match context.render(&mut frame, located(1)) {
            RenderAction::Draw { left, right, .. } => {
                drawn.push((left.input_view_params, right.input_view_params));
            }
            _ => panic!("not drawn"),
        }
    }
    assert_eq!(drawn, vec![(1, 2), (31, 32), (31, 32), (31, 32), (41, 42), (41, 42)]);
}

#[test]
fn display_time_lags_a_second_at_most() {
    assert_eq!(display_time(false, 5 * SECOND, 5 * SECOND + 1), 5 * SECOND);
    assert_eq!(display_time(false, 5 * SECOND, 6 * SECOND), 5 * SECOND);
    assert_eq!(display_time(false, 5 * SECOND, 7 * SECOND), 6 * SECOND);
    assert_eq!(display_time(false, 0, 500), 0);
    assert_eq!(display_time(true, 5 * SECOND, 7 * SECOND), 7 * SECOND);
}

#[test]
fn times_are_converted_bit_by_bit() {
    assert_eq!(runtime_time(5), 5);
    assert_eq!(runtime_time(u64::MAX as u128), u64::MAX as u128 as i64);
    let large: u128 = (1 << 70) + (1 << 63) + 12;
    assert_eq!(runtime_time(large), large as i64);
    assert_eq!(vsync_queue(100, 40), 60);
    assert_eq!(vsync_queue(100, 140), 0);
    assert_eq!(vsync_queue(100, -1), 0);
    assert_eq!(vsync_queue(u64::MAX as u128 + 5, -1), 5);
}

#[test]
fn rect_covers_the_image() {
    assert_eq!(
        image_rect(Resolution { x: 3000, y: u32::MAX }),
        ImageRect { x: 0, y: 0, width: 3000, height: -1 }
    );
}

#[test]
fn orientation_decides_on_the_views() {
    let valid = openxr::ViewStateFlags::ORIENTATION_VALID;
    let position = openxr::ViewStateFlags::POSITION_VALID;
    let located = vec![7u32, 8];
    for (flags, expected) in [
        (valid, (7, 8)),
        (valid | position, (7, 8)),
        (position, (0, 0)),
        (openxr::ViewStateFlags::EMPTY, (0, 0)),
    ] {
        let views = headset_views(flags.into_raw(), &located, 0);
        assert_eq!((views.left, views.right), expected);
    }
}

#[test]
fn alpha_follows_the_mode() {
    let premultiplied = |value: bool| Some(ProjectionLayerAlphaConfig { premultiplied: value });
    assert_eq!(layer_alpha::<Plain>(&None), None);
    assert_eq!(layer_alpha(&Some(blend(true, 0.5))), premultiplied(true));
    assert_eq!(layer_alpha(&Some(blend(false, 0.5))), premultiplied(false));
    assert_eq!(
        layer_alpha::<Plain>(&Some(PassthroughMode::RgbChromaKey(1))),
        premultiplied(true)
    );
    assert_eq!(
        layer_alpha::<Plain>(&Some(PassthroughMode::HsvChromaKey(1))),
        premultiplied(true)
    );
}

fn located(flags: u64) -> RenderEvent<u32> {
    RenderEvent::ViewsLocated { flags, views: vec![71, 72], fallback: 70 }
}

#[test]
fn found_frame_is_shown() {
    let mut context = context(Switch::Enabled(blend(false, 0.5)), false);
    context.maybe_initialize_decoder(CodecType::H264, vec![]);
    let mut frame = RenderFrame::new(10 * SECOND);
    let begin = RenderEvent::Begin { now: 100, timeout: 50 };
    assert!(matches!(context.render(&mut frame, begin), RenderAction::ReadClock));
    assert!(matches!(
        context.render(&mut frame, RenderEvent::Clock { now: 101 }),
        RenderAction::PollFrame
    ));
    assert!(matches!(
        context.render(&mut frame, RenderEvent::FramePolled { frame: None }),
        RenderAction::Pause { duration: 500_000 }
    ));
    assert!(matches!(
        context.render(&mut frame, RenderEvent::Paused),
        RenderAction::ReadClock
    ));
    assert!(matches!(
        context.render(&mut frame, RenderEvent::Clock { now: 149 }),
        RenderAction::PollFrame
    ));
    let found = DecodedFrame { timestamp: 9 * SECOND + 5, buffer: 4096 };
    context.render(&mut frame, RenderEvent::FramePolled { frame: Some(found) });
    assert!(matches!(
        context.render(&mut frame, RenderEvent::Paused),
        RenderAction::ReportCompositorStart { timestamp: 9_000_000_005 }
    ));
    let views = Stereo { left: 31, right: 32 };
    assert!(matches!(
        context.render(&mut frame, RenderEvent::CompositorStarted { views }),
        RenderAction::AcquireImages
    ));
    assert!(matches!(
        context.render(&mut frame, RenderEvent::ImagesReady { left: 1, right: 2 }),
        RenderAction::LocateViews { time: 10_000_000_000 }
    ));
    match context.render(&mut frame, located(1)) {
        RenderAction::Draw { buffer, left, right, .. } => {
            assert_eq!(buffer, 4096);
            assert_eq!(
                (left.swapchain_index, left.input_view_params, left.output_view_params),
                (1, 31, 31)
            );
            assert_eq!(
                (right.swapchain_index, right.input_view_params, right.output_view_params),
                (2, 32, 32)
            );
        }
        _ => panic!("not drawn"),
    }
    assert!(matches!(
        context.render(&mut frame, RenderEvent::Drawn),
        RenderAction::ReleaseImages
    ));
    assert!(matches!(
        context.render(&mut frame, RenderEvent::Released),
        RenderAction::ReadRuntimeClock
    ));
    let clock = RenderEvent::RuntimeClock { now: Some(9_999_999_990) };
    assert!(matches!(
        context.render(&mut frame, clock),
        RenderAction::ReportSubmit { timestamp: 9_000_000_005, vsync_queue: 10 }
    ));
    match context.render(&mut frame, RenderEvent::Submitted) {
        RenderAction::Finish { layer, display_time } => {
            assert_eq!((layer.views.left, layer.views.right), (31, 32));
            assert_eq!(layer.rect, ImageRect { x: 0, y: 0, width: 3000, height: 2850 });
            assert_eq!(layer.alpha, Some(ProjectionLayerAlphaConfig { premultiplied: false }));
            assert_eq!(display_time, 9 * SECOND + 5);
        }
        _ => panic!("not finished"),
    }
}

#[test]
fn missing_frame_repeats_the_last() {
    let mut context = context(Switch::Disabled, false);
    context.maybe_initialize_decoder(CodecType::H264, vec![]);
    let mut frame = RenderFrame::new(10 * SECOND);
    context.render(&mut frame, RenderEvent::Begin { now: 100, timeout: 50 });
    assert!(matches!(
        context.render(&mut frame, RenderEvent::Clock { now: 150 }),
        RenderAction::AcquireImages
    ));
    context.render(&mut frame, RenderEvent::ImagesReady { left: 0, right: 0 });
    match context.render(&mut frame, located(0)) {
        RenderAction::Draw { buffer, left, right, .. } => {
            assert_eq!(buffer, 0);
            assert_eq!((left.input_view_params, right.input_view_params), (1, 2));
        }
        _ => panic!("not drawn"),
    }
    context.render(&mut frame, RenderEvent::Drawn);
    match context.render(&mut frame, RenderEvent::Released) {
        RenderAction::Finish { layer, display_time } => {
            assert_eq!(layer.alpha, None);
            assert_eq!(display_time, 10 * SECOND);
        }
        _ => panic!("not finished"),
    }
}

#[test]
fn without_a_decoder_nothing_is_polled() {
    let mut context = context(Switch::Disabled, false);
    let mut frame = RenderFrame::new(10 * SECOND);
    assert!(matches!(
        context.render(&mut frame, RenderEvent::Begin { now: 100, timeout: 50 }),
        RenderAction::AcquireImages
    ));
    assert!(matches!(
        context.render(&mut frame, RenderEvent::Drawn),
        RenderAction::Unexpected
    ));
}

#[test]
fn custom_reprojection_uses_the_headset() {
    for (flags, expected) in [(1, (71, 72)), (2, (70, 70))] {
        let mut context = context(Switch::Disabled, true);
        let mut frame = RenderFrame::new(10 * SECOND);
        context.render(&mut frame, RenderEvent::Begin { now: 100, timeout: 50 });
        context.render(&mut frame, RenderEvent::ImagesReady { left: 0, right: 0 });
        match context.render(&mut frame, located(flags)) {
            RenderAction::Draw { left, right, .. } => {
                assert_eq!((left.input_view_params, right.input_view_params), (1, 2));
                assert_eq!((left.output_view_params, right.output_view_params), expected);
            }
            _ => panic!("not drawn"),
        }
    }
}

#[test]
fn silent_runtime_gets_no_report() {
    let mut context = context(Switch::Disabled, false);
    context.maybe_initialize_decoder(CodecType::H264, vec![]);
    let mut frame = RenderFrame::new(10 * SECOND);
    context.render(&mut frame, RenderEvent::Begin { now: 0, timeout: 50 });
    context.render(&mut frame, RenderEvent::Clock { now: 1 });
    let found = DecodedFrame { timestamp: SECOND, buffer: 64 };
    context.render(&mut frame, RenderEvent::FramePolled { frame: Some(found) });
    context.render(&mut frame, RenderEvent::Paused);
    let views = Stereo { left: 31, right: 32 };
    context.render(&mut frame, RenderEvent::CompositorStarted { views });
    context.render(&mut frame, RenderEvent::ImagesReady { left: 0, right: 0 });
    context.render(&mut frame, located(1));
    context.render(&mut frame, RenderEvent::Drawn);
    context.render(&mut frame, RenderEvent::Released);
    match context.render(&mut frame, RenderEvent::RuntimeClock { now: None }) {
        RenderAction::Finish { display_time, .. } => assert_eq!(display_time, 9 * SECOND),
        _ => panic!("not finished"),
    }
}
