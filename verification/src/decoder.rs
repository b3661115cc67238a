//! The configuration that a video decoder is created with.
use crate::config::{MediacodecProperty, ParsedStreamConfig, StreamTypes};
use crate::float32::Float32;
use crate::float32_laws::law_equal_numbers_have_equal_patterns;
use vstd::prelude::*;

verus! {

/// The codecs that a stream can use.
#[derive(Clone, Copy, Debug, PartialEq, Eq, Structural)]
pub enum CodecType {
    /// H.264.
    H264,
    /// H.265.
    Hevc,
    /// AV1.
    AV1,
}

/// All that a decoder is created from.
pub struct VideoDecoderConfig {
    /// The codec.
    pub codec: CodecType,
    /// Whether the video is decoded in software.
    pub force_software_decoder: bool,
    /// How many frames may wait.
    pub max_buffering_frames: Float32,
    /// How slowly the buffering follows a change.
    pub buffering_history_weight: Float32,
    /// Properties for the decoder.
    pub options: Vec<(String, MediacodecProperty)>,
    /// The data that a stream starts with.
    pub config_buffer: Vec<u8>,
}

/// What a property holds.
pub struct PropertyModel {
    /// The type of the value, by its number.
    pub type_tag: u8,
    /// The value, written out.
    pub value: Seq<char>,
}

/// What a decoder configuration holds.
pub struct DecoderModel {
    /// The codec.
    pub codec: CodecType,
    /// Whether the video is decoded in software.
    pub force_software_decoder: bool,
    /// How many frames may wait.
    pub max_buffering_frames: Float32,
    /// How slowly the buffering follows a change.
    pub buffering_history_weight: Float32,
    /// Properties for the decoder.
    pub options: Seq<(Seq<char>, PropertyModel)>,
    /// The data that a stream starts with.
    pub config_buffer: Seq<u8>,
}

impl View for MediacodecProperty {
    type V = PropertyModel;

    open spec fn view(&self) -> PropertyModel {
        PropertyModel { type_tag: self.type_tag, value: self.value@ }
    }
}

/// What a list of named properties holds.
pub open spec fn options_model(options: Seq<(String, MediacodecProperty)>) -> Seq<
    (Seq<char>, PropertyModel),
> {
    Seq::new(options.len(), |i: int| (options[i].0@, options[i].1@))
}

impl View for VideoDecoderConfig {
    type V = DecoderModel;

    open spec fn view(&self) -> DecoderModel {
        DecoderModel {
            codec: self.codec,
            force_software_decoder: self.force_software_decoder,
            max_buffering_frames: self.max_buffering_frames,
            buffering_history_weight: self.buffering_history_weight,
            options: options_model(self.options@),
            config_buffer: self.config_buffer@,
        }
    }
}

impl DecoderModel {
    /// Whether two decoders would be the same. Numbers are compared as numbers,
    /// so that a configuration with one that is not a number differs from every
    /// other, itself included.
    pub open spec fn same_as(self, other: DecoderModel) -> bool {
        &&& self.codec == other.codec
        &&& self.force_software_decoder == other.force_software_decoder
        &&& self.max_buffering_frames.same_number(other.max_buffering_frames)
        &&& self.buffering_history_weight.same_number(other.buffering_history_weight)
        &&& self.options == other.options
        &&& self.config_buffer == other.config_buffer
    }
}

/// The decoder that the settings ask for.
pub open spec fn wanted_decoder<T: StreamTypes>(
    config: ParsedStreamConfig<T>,
    codec: CodecType,
    config_nal: Seq<u8>,
) -> DecoderModel {
    DecoderModel {
        codec,
        force_software_decoder: config.force_software_decoder,
        max_buffering_frames: config.max_buffering_frames,
        buffering_history_weight: config.buffering_history_weight,
        options: options_model(config.decoder_options@),
        config_buffer: config_nal,
    }
}

/// A copy of a list of named properties.
fn clone_options(options: &Vec<(String, MediacodecProperty)>) -> (copy: Vec<
    (String, MediacodecProperty),
>)
    ensures
        options_model(copy@) == options_model(options@),
{
    let mut copy: Vec<(String, MediacodecProperty)> = Vec::new();
    let mut i: usize = 0;
    while i < options.len()
        invariant
            i <= options.len(),
            copy.len() == i,
            forall|j: int|
                0 <= j < i ==> (#[trigger] copy[j]).0@ == options[j].0@ && copy[j].1@
                    == options[j].1@,
        decreases options.len() - i,
    {
        let name = options[i].0.clone();
        let property = MediacodecProperty {
            type_tag: options[i].1.type_tag,
            value: options[i].1.value.clone(),
        };
        copy.push((name, property));
        i = i + 1;
    }
    assert(options_model(copy@) =~= options_model(options@));
    copy
}

/// Whether two lists of named properties hold the same.
fn same_options(
    a: &Vec<(String, MediacodecProperty)>,
    b: &Vec<(String, MediacodecProperty)>,
) -> (same: bool)
    ensures
        same == (options_model(a@) == options_model(b@)),
{
    let ghost (ma, mb) = (options_model(a@), options_model(b@));
    if a.len() != b.len() {
        assert(ma.len() != mb.len());
        return false;
    }
    let mut i: usize = 0;
    while i < a.len()
        invariant
            i <= a.len(),
            a.len() == b.len(),
            ma == options_model(a@),
            mb == options_model(b@),
            forall|j: int| 0 <= j < i ==> #[trigger] ma[j] == mb[j],
        decreases a.len() - i,
    {
        if a[i].0 != b[i].0 || a[i].1.type_tag != b[i].1.type_tag || a[i].1.value != b[i].1.value {
            assert(ma[i as int] != mb[i as int]);
            return false;
        }
        assert(ma[i as int] == mb[i as int]);
        i = i + 1;
    }
    assert(ma =~= mb);
    true
}

/// Whether two buffers hold the same bytes.
fn same_bytes(a: &Vec<u8>, b: &Vec<u8>) -> (same: bool)
    ensures
        same == (a@ == b@),
{
    if a.len() != b.len() {
        return false;
    }
    let mut i: usize = 0;
    while i < a.len()
        invariant
            i <= a.len(),
            a.len() == b.len(),
            forall|j: int| 0 <= j < i ==> a[j] == b[j],
        decreases a.len() - i,
    {
        if a[i] != b[i] {
            return false;
        }
        i = i + 1;
    }
    assert(a@ =~= b@);
    true
}

impl VideoDecoderConfig {
    /// The configuration of the decoder that the settings ask for.
    pub fn wanted<T: StreamTypes>(
        config: &ParsedStreamConfig<T>,
        codec: CodecType,
        config_nal: Vec<u8>,
    ) -> (wanted: VideoDecoderConfig)
        ensures
            wanted@ == wanted_decoder(*config, codec, config_nal@),
            wanted.codec == codec,
            wanted.force_software_decoder == config.force_software_decoder,
            wanted.max_buffering_frames == config.max_buffering_frames,
            wanted.buffering_history_weight == config.buffering_history_weight,
            wanted.config_buffer@ == config_nal@,
    {
        VideoDecoderConfig {
            codec,
            force_software_decoder: config.force_software_decoder,
            max_buffering_frames: config.max_buffering_frames,
            buffering_history_weight: config.buffering_history_weight,
            options: clone_options(&config.decoder_options),
            config_buffer: config_nal,
        }
    }

    /// Whether both describe the same decoder.
    pub fn same_as(&self, other: &VideoDecoderConfig) -> (same: bool)
        ensures
            same == self@.same_as(other@),
    {
        self.codec == other.codec && self.force_software_decoder == other.force_software_decoder
            && self.max_buffering_frames.equals(&other.max_buffering_frames)
            && self.buffering_history_weight.equals(&other.buffering_history_weight)
            && same_options(&self.options, &other.options)
            && same_bytes(&self.config_buffer, &other.config_buffer)
    }

    /// A copy of the configuration.
    pub fn duplicate(&self) -> (copy: VideoDecoderConfig)
        ensures
            copy@ == self@,
    {
        let mut config_buffer: Vec<u8> = Vec::new();
        let mut i: usize = 0;
        while i < self.config_buffer.len()
            invariant
                i <= self.config_buffer.len(),
                config_buffer@ == self.config_buffer@.take(i as int),
            decreases self.config_buffer.len() - i,
        {
            config_buffer.push(self.config_buffer[i]);
            i = i + 1;
            assert(self.config_buffer@.take(i as int) =~= self.config_buffer@.take(
                i - 1,
            ).push(self.config_buffer@[i - 1]));
        }
        assert(config_buffer@ =~= self.config_buffer@);
        VideoDecoderConfig {
            codec: self.codec,
            force_software_decoder: self.force_software_decoder,
            max_buffering_frames: self.max_buffering_frames,
            buffering_history_weight: self.buffering_history_weight,
            options: clone_options(&self.options),
            config_buffer,
        }
    }
}

/// The configuration of a decoder has, field by field, what was asked for: the
/// codec and the data of the request, and the rest as the settings say, with
/// every property under its name.
pub proof fn law_decoder_has_what_was_asked_for<T: StreamTypes>(
    config: ParsedStreamConfig<T>,
    codec: CodecType,
    config_nal: Seq<u8>,
    i: int,
)
    ensures
        ({
            let wanted = wanted_decoder(config, codec, config_nal);
            let settings = config.decoder_options@;
            &&& wanted.codec == codec
            &&& wanted.config_buffer == config_nal
            &&& wanted.force_software_decoder == config.force_software_decoder
            &&& wanted.max_buffering_frames == config.max_buffering_frames
            &&& wanted.buffering_history_weight == config.buffering_history_weight
            &&& wanted.options.len() == settings.len()
            &&& 0 <= i < settings.len() ==> {
                &&& wanted.options[i].0 == settings[i].0@
                &&& wanted.options[i].1.type_tag == settings[i].1.type_tag
                &&& wanted.options[i].1.value == settings[i].1.value@
            }
        }),
{
}

/// What a configuration is taken for is what it holds.
pub proof fn law_model_shows_every_field(config: VideoDecoderConfig, i: int)
    ensures
        config@.codec == config.codec,
        config@.force_software_decoder == config.force_software_decoder,
        config@.max_buffering_frames == config.max_buffering_frames,
        config@.buffering_history_weight == config.buffering_history_weight,
        config@.config_buffer == config.config_buffer@,
        config@.options.len() == config.options@.len(),
        0 <= i < config.options@.len() ==> {
            &&& config@.options[i].0 == config.options@[i].0@
            &&& config@.options[i].1.type_tag == config.options@[i].1.type_tag
            &&& config@.options[i].1.value == config.options@[i].1.value@
        },
{
}

/// Two configurations are the same exactly if nothing tells them apart: any
/// other codec, way of decoding, property or byte makes another decoder, and so
/// does any other number, by its bits, but for the two zeros.
pub proof fn law_any_difference_makes_another_decoder(a: DecoderModel, b: DecoderModel)
    ensures
        a.same_as(b) <==> {
            &&& a.codec == b.codec
            &&& a.force_software_decoder == b.force_software_decoder
            &&& a.options == b.options
            &&& a.config_buffer == b.config_buffer
            &&& a.max_buffering_frames.bits % 0x8000_0000 <= 0x7f80_0000
            &&& a.buffering_history_weight.bits % 0x8000_0000 <= 0x7f80_0000
            &&& a.max_buffering_frames.bits == b.max_buffering_frames.bits || (
            a.max_buffering_frames.bits % 0x8000_0000 == 0 && b.max_buffering_frames.bits
                % 0x8000_0000 == 0)
            &&& a.buffering_history_weight.bits == b.buffering_history_weight.bits || (
            a.buffering_history_weight.bits % 0x8000_0000 == 0 && b.buffering_history_weight.bits
                % 0x8000_0000 == 0)
        },
{
    law_equal_numbers_have_equal_patterns(a.max_buffering_frames, b.max_buffering_frames);
    law_equal_numbers_have_equal_patterns(a.buffering_history_weight, b.buffering_history_weight);
}

} // verus!
