//! The settings of a stream, as the server sends them and as the stream uses
//! them.
use crate::float32::Float32;
use vstd::prelude::*;

verus! {

/// The types of the values that a stream carries from one component to another
/// without looking inside.
pub trait StreamTypes: Sized {
    /// Settings of the foveated video encoding.
    type FoveatedEncoding;

    /// Settings of the post processing by the compositor.
    type PostProcessing;

    /// Settings of the upscaling.
    type Upscaling;

    /// Settings of a chroma key over red, green and blue.
    type RgbChromaKey;

    /// Settings of a chroma key over hue, saturation and value.
    type HsvChromaKey;

    /// Which devices the interaction uses.
    type InteractionSources;

    /// The pose and the field of view of one eye.
    type ViewParams: Copy;
}

/// A size in pixels.
#[derive(Clone, Copy, Debug, PartialEq, Eq, Structural)]
pub struct Resolution {
    /// Width.
    pub x: u32,
    /// Height.
    pub y: u32,
}

/// A setting that can be switched off.
pub enum Switch<S> {
    /// Off.
    Disabled,
    /// On, with its content.
    Enabled(S),
}

impl<S> Switch<S> {
    /// The content, if the setting is on.
    pub open spec fn content(self) -> Option<S> {
        match self {
            Switch::Enabled(content) => Some(content),
            Switch::Disabled => None,
        }
    }

    /// The content, if the setting is on.
    pub fn into_option(self) -> (content: Option<S>)
        ensures
            content == self.content(),
    {
        match self {
            Switch::Enabled(content) => Some(content),
            Switch::Disabled => None,
        }
    }
}

/// How the room shows through the stream.
pub enum PassthroughMode<T: StreamTypes> {
    /// Both are blended.
    Blend {
        /// Whether the colours come multiplied by alpha.
        premultiplied_alpha: bool,
        /// How much of the room shows.
        threshold: Float32,
    },
    /// The room shows where the stream has a colour.
    RgbChromaKey(T::RgbChromaKey),
    /// The room shows where the stream has a hue.
    HsvChromaKey(T::HsvChromaKey),
}

/// How the foveation level is chosen. A level is the number that the runtime
/// knows it by.
#[derive(Clone, Copy, Debug, PartialEq, Eq, Structural)]
pub enum ClientsideFoveationMode {
    /// Always the same level.
    Static {
        /// The level.
        level: i32,
    },
    /// The runtime chooses.
    Dynamic {
        /// The highest level that it may choose.
        max_level: i32,
    },
}

/// Settings of the foveated rendering on the client.
#[derive(Clone, Copy, Debug, PartialEq, Eq, Structural)]
pub struct ClientsideFoveationConfig {
    /// How the level is chosen.
    pub mode: ClientsideFoveationMode,
    /// How far the centre lies above the middle, in degrees.
    pub vertical_offset_deg: Float32,
}

/// A property that is handed to the decoder by name.
pub struct MediacodecProperty {
    /// The type of the value, by its number.
    pub type_tag: u8,
    /// The value, written out.
    pub value: String,
}

/// What client and server have agreed on.
pub struct NegotiatedConfig {
    /// The resolution of the stream, for one eye.
    pub view_resolution: Resolution,
    /// Frames per second.
    pub refresh_rate_hint: Float32,
    /// The gamma that the video is encoded with.
    pub encoding_gamma: Float32,
    /// Whether the encoding is foveated.
    pub enable_foveated_encoding: bool,
    /// Whether the video has a high dynamic range.
    pub enable_hdr: bool,
}

/// The video settings.
pub struct VideoSettings<T: StreamTypes> {
    /// How the room shows through the stream.
    pub passthrough: Switch<PassthroughMode<T>>,
    /// Settings of the foveated video encoding.
    pub foveated_encoding: Switch<T::FoveatedEncoding>,
    /// Settings of the foveated rendering on the client.
    pub clientside_foveation: Switch<ClientsideFoveationConfig>,
    /// Settings of the post processing by the compositor.
    pub clientside_post_processing: Switch<T::PostProcessing>,
    /// Settings of the upscaling.
    pub upscaling: Switch<T::Upscaling>,
    /// Whether the video is decoded in software.
    pub force_software_decoder: bool,
    /// How many frames may wait.
    pub max_buffering_frames: Float32,
    /// How slowly the buffering follows a change.
    pub buffering_history_weight: Float32,
    /// Properties for the decoder.
    pub mediacodec_extra_options: Vec<(String, MediacodecProperty)>,
}

/// The audio settings.
pub struct AudioSettings {
    /// Whether the boundary alert is wanted.
    pub boundary_alert_enabled: bool,
}

/// The settings that the server sends.
pub struct Settings<T: StreamTypes> {
    /// The video settings.
    pub video: VideoSettings<T>,
    /// The audio settings.
    pub audio: AudioSettings,
}

/// All that a stream is configured by.
pub struct StreamConfig<T: StreamTypes> {
    /// What client and server have agreed on.
    pub negotiated_config: NegotiatedConfig,
    /// The settings that the server sends.
    pub settings: Settings<T>,
}

/// The part of the settings that can change while the stream runs.
pub struct RealTimeConfig<T: StreamTypes> {
    /// How the room shows through the stream.
    pub passthrough: Option<PassthroughMode<T>>,
    /// Settings of the post processing by the compositor.
    pub clientside_post_processing: Option<T::PostProcessing>,
}

/// The settings in the form that the stream uses.
pub struct ParsedStreamConfig<T: StreamTypes> {
    /// The resolution of the stream, for one eye.
    pub view_resolution: Resolution,
    /// Frames per second.
    pub refresh_rate_hint: Float32,
    /// The gamma that the video is encoded with.
    pub encoding_gamma: Float32,
    /// Whether the video has a high dynamic range.
    pub enable_hdr: bool,
    /// How the room shows through the stream, if it does.
    pub passthrough: Option<PassthroughMode<T>>,
    /// Settings of the foveated video encoding, if it is on.
    pub foveated_encoding_config: Option<T::FoveatedEncoding>,
    /// Settings of the foveated rendering on the client, if it is on.
    pub clientside_foveation_config: Option<ClientsideFoveationConfig>,
    /// Settings of the post processing by the compositor, if it is on.
    pub clientside_post_processing: Option<T::PostProcessing>,
    /// Settings of the upscaling, if it is on.
    pub upscaling: Option<T::Upscaling>,
    /// Whether the video is decoded in software.
    pub force_software_decoder: bool,
    /// How many frames may wait.
    pub max_buffering_frames: Float32,
    /// How slowly the buffering follows a change.
    pub buffering_history_weight: Float32,
    /// Properties for the decoder.
    pub decoder_options: Vec<(String, MediacodecProperty)>,
    /// Which devices the interaction uses.
    pub interaction_sources: T::InteractionSources,
    /// Whether the boundary alert is wanted.
    pub boundary_alert_enabled: bool,
}

/// The settings in the form that the stream uses, out of those that the server
/// sends.
pub open spec fn parsed_settings<T: StreamTypes>(
    config: StreamConfig<T>,
    interaction_sources: T::InteractionSources,
) -> ParsedStreamConfig<T> {
    ParsedStreamConfig::<T> {
        view_resolution: config.negotiated_config.view_resolution,
        refresh_rate_hint: config.negotiated_config.refresh_rate_hint,
        encoding_gamma: config.negotiated_config.encoding_gamma,
        enable_hdr: config.negotiated_config.enable_hdr,
        passthrough: config.settings.video.passthrough.content(),
        foveated_encoding_config: if config.negotiated_config.enable_foveated_encoding {
            config.settings.video.foveated_encoding.content()
        } else {
            None
        },
        clientside_foveation_config: config.settings.video.clientside_foveation.content(),
        clientside_post_processing:
            config.settings.video.clientside_post_processing.content(),
        upscaling: config.settings.video.upscaling.content(),
        force_software_decoder: config.settings.video.force_software_decoder,
        max_buffering_frames: config.settings.video.max_buffering_frames,
        buffering_history_weight: config.settings.video.buffering_history_weight,
        decoder_options: config.settings.video.mediacodec_extra_options,
        interaction_sources,
        boundary_alert_enabled: config.settings.audio.boundary_alert_enabled,
    }
}

impl<T: StreamTypes> ParsedStreamConfig<T> {
    /// Picks out the settings. `interaction_sources` is what the interaction
    /// makes of the same settings.
    pub fn new(
        config: StreamConfig<T>,
        interaction_sources: T::InteractionSources,
    ) -> (parsed: Self)
        ensures
            parsed == parsed_settings(config, interaction_sources),
    {
        let negotiated = config.negotiated_config;
        let video = config.settings.video;
        let audio = config.settings.audio;
        let foveated_encoding_config = if negotiated.enable_foveated_encoding {
            video.foveated_encoding.into_option()
        } else {
            None
        };
        ParsedStreamConfig {
            view_resolution: negotiated.view_resolution,
            refresh_rate_hint: negotiated.refresh_rate_hint,
            encoding_gamma: negotiated.encoding_gamma,
            enable_hdr: negotiated.enable_hdr,
            passthrough: video.passthrough.into_option(),
            foveated_encoding_config,
            clientside_foveation_config: video.clientside_foveation.into_option(),
            clientside_post_processing: video.clientside_post_processing.into_option(),
            upscaling: video.upscaling.into_option(),
            force_software_decoder: video.force_software_decoder,
            max_buffering_frames: video.max_buffering_frames,
            buffering_history_weight: video.buffering_history_weight,
            decoder_options: video.mediacodec_extra_options,
            interaction_sources,
            boundary_alert_enabled: audio.boundary_alert_enabled,
        }
    }
}

/// Every setting is taken over as it was sent. One that can be switched off is
/// there exactly if it is on, and the foveated encoding only if it was agreed on
/// as well.
pub proof fn law_settings_are_taken_over<T: StreamTypes>(
    config: StreamConfig<T>,
    interaction_sources: T::InteractionSources,
)
    ensures
        ({
            let parsed = parsed_settings(config, interaction_sources);
            let agreed = config.negotiated_config;
            let video = config.settings.video;
            &&& parsed.view_resolution == agreed.view_resolution
            &&& parsed.refresh_rate_hint == agreed.refresh_rate_hint
            &&& parsed.encoding_gamma == agreed.encoding_gamma
            &&& parsed.enable_hdr == agreed.enable_hdr
            &&& parsed.force_software_decoder == video.force_software_decoder
            &&& parsed.max_buffering_frames == video.max_buffering_frames
            &&& parsed.buffering_history_weight == video.buffering_history_weight
            &&& parsed.decoder_options == video.mediacodec_extra_options
            &&& parsed.interaction_sources == interaction_sources
            &&& parsed.boundary_alert_enabled == config.settings.audio.boundary_alert_enabled
            &&& video.passthrough is Disabled <==> parsed.passthrough is None
            &&& video.passthrough matches Switch::Enabled(on) ==> parsed.passthrough == Some(on)
            &&& video.clientside_foveation is Disabled <==> parsed.clientside_foveation_config
                is None
            &&& video.clientside_foveation matches Switch::Enabled(on)
                ==> parsed.clientside_foveation_config == Some(on)
            &&& video.clientside_post_processing is Disabled
                <==> parsed.clientside_post_processing is None
            &&& video.clientside_post_processing matches Switch::Enabled(on)
                ==> parsed.clientside_post_processing == Some(on)
            &&& video.upscaling is Disabled <==> parsed.upscaling is None
            &&& video.upscaling matches Switch::Enabled(on) ==> parsed.upscaling == Some(on)
            &&& parsed.foveated_encoding_config is Some <==> agreed.enable_foveated_encoding
                && video.foveated_encoding is Enabled
            &&& parsed.foveated_encoding_config matches Some(on) ==> video.foveated_encoding
                == Switch::Enabled(on)
        }),
{
}

} // verus!
