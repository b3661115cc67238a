//! The beep that warns the player, and the envelope that keeps it from clicking.
use rodio::source::{SineWave, TakeDuration};
use rodio::Source;
use std::time::Duration;
use vstd::prelude::*;

verus! {

/// A sine tone of rodio: one channel at 48 kHz, without an end.
#[verifier::external_type_specification]
#[verifier::external_body]
pub struct ExSineWave(SineWave);

/// A source of rodio that stops after a set time.
#[verifier::external_type_specification]
#[verifier::external_body]
#[verifier::reject_recursive_types(I)]
pub struct ExTakeDuration<I>(TakeDuration<I>);

/// The tone that is made of another by cutting it to a length in milliseconds.
pub uninterp spec fn cut_tone(tone: SineWave, length_ms: u64) -> TakeDuration<SineWave>;

/// The rate of every sine tone of rodio, in samples per second.
pub const TONE_SAMPLE_RATE: u32 = 48_000;

/// The number of channels of every sine tone of rodio.
pub const TONE_CHANNELS: u16 = 1;

/// How long the beep sounds, in milliseconds.
pub const BEEP_MS: u64 = 100;

/// How long the beep swells and fades, in milliseconds.
pub const BEEP_ATTACK_MS: u64 = 10;

/// `Source::take_duration` of a sine tone: the tone, cut to a length. The
/// contract claims that the result follows from the tone and the length alone.
/// The samples of a tone are floating-point numbers, and are left unsaid.
#[verifier::external_body]
fn take_duration(tone: SineWave, length_ms: u64) -> (cut: TakeDuration<SineWave>)
    ensures
        cut == cut_tone(tone, length_ms),
{
    tone.take_duration(Duration::from_millis(length_ms))
}

/// `Source::sample_rate` of a cut tone, which hands on the rate of the tone in
/// it. A sine tone always has 48 kHz.
#[verifier::external_body]
fn sample_rate(cut: &TakeDuration<SineWave>) -> (rate: u32)
    ensures
        rate == TONE_SAMPLE_RATE,
{
    cut.sample_rate()
}

/// `Source::channels` of a cut tone, which hands on the channels of the tone in
/// it. A sine tone always has one.
#[verifier::external_body]
fn channels(cut: &TakeDuration<SineWave>) -> (count: u16)
    ensures
        count == TONE_CHANNELS,
{
    cut.channels()
}

/// How many samples of a source, over all its channels, a time takes.
pub open spec fn samples_in(sample_rate: u32, channels: u16, ms: u64) -> nat {
    (sample_rate as nat * ms as nat * channels as nat) / 1000
}

/// Whether counting the samples of a time stays within 64 bits.
pub open spec fn countable(sample_rate: u32, channels: u16, ms: u64) -> bool {
    &&& sample_rate * ms <= u64::MAX
    &&& sample_rate * ms * channels <= u64::MAX
}

/// A factor between none and all of the loudness.
#[derive(Clone, Copy, Debug, PartialEq, Eq, Structural)]
pub struct Gain {
    /// The upper part of the fraction, at most the lower one.
    pub numerator: u64,
    /// The lower part of the fraction, never 0.
    pub denominator: u64,
}

/// A source together with the envelope that it is played under.
pub struct BeepEnvelope<I> {
    /// The source.
    pub inner: I,
    /// How many samples the sound swells.
    pub attack: u64,
    /// How many samples the sound fades.
    pub release: u64,
    /// How many samples there are.
    pub total: u64,
    /// How many samples have been played.
    pub pos: u64,
}

/// The lesser of two numbers.
pub open spec fn lesser(a: int, b: int) -> int {
    if a <= b {
        a
    } else {
        b
    }
}

/// The gain at a sample of a sound that swells and fades over `ramp` samples:
/// as far as the sample lies from the nearer end, in parts of the ramp, and all
/// of the loudness from a whole ramp on. Without a ramp the sound is always at
/// its loudest, and past the end it is silent.
pub open spec fn gain_at(ramp: u64, total: u64, pos: u64) -> Gain {
    if ramp == 0 {
        Gain { numerator: 1, denominator: 1 }
    } else {
        let left = if pos <= total {
            total - pos
        } else {
            0
        };
        Gain {
            numerator: lesser(ramp as int, lesser(pos as int, left)) as u64,
            denominator: ramp,
        }
    }
}

impl<I> BeepEnvelope<I> {
    /// The sound fades as long as it swells.
    pub open spec fn wf(self) -> bool {
        self.release == self.attack
    }

    /// The gain of the next sample.
    pub open spec fn gain(self) -> Gain {
        gain_at(self.attack, self.total, self.pos)
    }

    /// What comes out of the next sample: what was drawn from the source, with its
    /// gain, and nothing once the source has ended.
    pub open spec fn plays<S>(self, drawn: Option<S>) -> Option<(S, Gain)> {
        match drawn {
            Some(sample) => Some((sample, self.gain())),
            None => None,
        }
    }

    /// The envelope after a number of samples.
    pub open spec fn later(self, samples: int) -> BeepEnvelope<I> {
        BeepEnvelope { pos: (self.pos + samples) as u64, ..self }
    }

    /// The envelope over a source that is about to start.
    pub open spec fn over(
        inner: I,
        sample_rate: u32,
        channels: u16,
        attack_ms: u64,
        total_ms: u64,
    ) -> BeepEnvelope<I> {
        BeepEnvelope {
            inner,
            attack: samples_in(sample_rate, channels, attack_ms) as u64,
            release: samples_in(sample_rate, channels, attack_ms) as u64,
            total: samples_in(sample_rate, channels, total_ms) as u64,
            pos: 0,
        }
    }

    /// Puts a source of the given rate and number of channels under an envelope.
    pub fn new(
        inner: I,
        sample_rate: u32,
        channels: u16,
        attack_ms: u64,
        total_ms: u64,
    ) -> (envelope: Self)
        requires
            countable(sample_rate, channels, attack_ms),
            countable(sample_rate, channels, total_ms),
        ensures
            envelope.wf(),
            envelope == BeepEnvelope::over(inner, sample_rate, channels, attack_ms, total_ms),
    {
        let sr: u64 = sample_rate as u64;
        let ch: u64 = channels as u64;
        let attack: u64 = sr * attack_ms * ch / 1000;
        let total: u64 = sr * total_ms * ch / 1000;
        BeepEnvelope { inner, attack, release: attack, total, pos: 0 }
    }

    /// Plays the next sample: what was drawn from the source comes out with its
    /// gain, and nothing once the source has ended. Either way the sample counts
    /// as played.
    pub fn next<S>(&mut self, drawn: Option<S>) -> (played: Option<(S, Gain)>)
        requires
            old(self).wf(),
            old(self).pos < u64::MAX,
        ensures
            played == old(self).plays(drawn),
            *final(self) == old(self).later(1),
    {
        let mut gain = Gain { numerator: 1, denominator: 1 };
        if self.attack > 0 {
            let left: u64 = self.total.saturating_sub(self.pos);
            let mut numerator: u64 = self.pos;
            if left < numerator {
                numerator = left;
            }
            if self.attack < numerator {
                numerator = self.attack;
            }
            gain = Gain { numerator, denominator: self.attack };
        }
        self.pos = self.pos + 1;
        match drawn {
            Some(sample) => Some((sample, gain)),
            None => None,
        }
    }
}

/// The beep of the boundary alert, made of a tone: the tone cut to its length,
/// under the envelope of it.
pub open spec fn alert_of(tone: SineWave) -> BeepEnvelope<TakeDuration<SineWave>> {
    BeepEnvelope::over(
        cut_tone(tone, BEEP_MS),
        TONE_SAMPLE_RATE,
        TONE_CHANNELS,
        BEEP_ATTACK_MS,
        BEEP_MS,
    )
}

/// The beep of the boundary alert, made of a tone.
pub fn alert_beep(tone: SineWave) -> (beep: BeepEnvelope<TakeDuration<SineWave>>)
    ensures
        beep.wf(),
        beep == alert_of(tone),
{
    let raw = take_duration(tone, BEEP_MS);
    let rate: u32 = sample_rate(&raw);
    let count: u16 = channels(&raw);
    BeepEnvelope::new(raw, rate, count, BEEP_ATTACK_MS, BEEP_MS)
}

/// The gain is a factor: never below none, never above all.
pub proof fn law_gain_is_a_factor(ramp: u64, total: u64, pos: u64)
    ensures
        gain_at(ramp, total, pos).denominator > 0,
        gain_at(ramp, total, pos).numerator <= gain_at(ramp, total, pos).denominator,
{
}

/// With a ramp, the sound begins and ends in silence, and between the two ramps
/// it is at its loudest.
pub proof fn law_sound_begins_and_ends_in_silence(ramp: u64, total: u64, pos: u64)
    requires
        ramp > 0,
    ensures
        pos == 0 || pos >= total ==> gain_at(ramp, total, pos).numerator == 0,
        ramp <= pos <= total - ramp ==> gain_at(ramp, total, pos).numerator == gain_at(
            ramp,
            total,
            pos,
        ).denominator,
{
}

/// The sound fades as it swells: the gain is the same as far from the end as
/// from the start.
pub proof fn law_envelope_is_symmetric(ramp: u64, total: u64, pos: u64)
    requires
        pos <= total,
    ensures
        gain_at(ramp, total, pos) == gain_at(ramp, total, (total - pos) as u64),
{
}

/// The gain never jumps: from one sample to the next it changes by one part of
/// the ramp at most, upwards in the first half and downwards in the second.
pub proof fn law_gain_never_jumps(ramp: u64, total: u64, pos: u64)
    requires
        pos < u64::MAX,
    ensures
        ({
            let here = gain_at(ramp, total, pos);
            let next = gain_at(ramp, total, (pos + 1) as u64);
            &&& here.denominator == next.denominator
            &&& -1 <= next.numerator - here.numerator <= 1
            &&& 2 * pos + 1 <= total ==> here.numerator <= next.numerator
            &&& 2 * pos + 1 >= total ==> here.numerator >= next.numerator
        }),
{
}

/// What comes out of an envelope for a sequence of draws from its source.
pub open spec fn played_of<I, S>(envelope: BeepEnvelope<I>, drawn: Seq<Option<S>>) -> Seq<
    Option<(S, Gain)>,
> {
    Seq::new(drawn.len(), |i: int| envelope.later(i).plays(drawn[i]))
}

/// Over a source that always gives the same sample, a new envelope plays the
/// same as far from the end as from the start, and never plays it quieter in the
/// first half nor louder in the second than just before.
pub proof fn law_constant_source_swells_and_fades<I, S>(
    envelope: BeepEnvelope<I>,
    sample: S,
    drawn: Seq<Option<S>>,
    k: int,
)
    requires
        envelope.wf(),
        envelope.pos == 0,
        drawn.len() == envelope.total + 1,
        forall|i: int| 0 <= i < drawn.len() ==> #[trigger] drawn[i] == Some(sample),
        0 <= k <= envelope.total,
    ensures
        ({
            let played = played_of(envelope, drawn);
            &&& played[k] == played[envelope.total - k]
            &&& played[k] matches Some(here)
            &&& here.0 == sample
            &&& k < envelope.total ==> {
                &&& played[k + 1] matches Some(next)
                &&& here.1.denominator == next.1.denominator
                &&& 2 * k + 1 <= envelope.total ==> here.1.numerator <= next.1.numerator
                &&& 2 * k + 1 >= envelope.total ==> here.1.numerator >= next.1.numerator
            }
        }),
{
    law_envelope_is_symmetric(envelope.attack, envelope.total, k as u64);
    if k < envelope.total {
        law_gain_never_jumps(envelope.attack, envelope.total, k as u64);
    }
}

/// An envelope plays exactly as many samples as its source gives, and never cuts
/// off at the end of its own count.
pub proof fn law_envelope_plays_all_of_its_source<I, S>(
    envelope: BeepEnvelope<I>,
    drawn: Seq<Option<S>>,
    k: int,
)
    requires
        0 <= k < drawn.len(),
    ensures
        played_of(envelope, drawn).len() == drawn.len(),
        played_of(envelope, drawn)[k] is Some == drawn[k] is Some,
        played_of(envelope, drawn)[k] matches Some(played) ==> drawn[k] == Some(played.0),
{
}

/// The gain is the least of three: all of the loudness, how far the sample lies
/// from the start, and how far from the end, the last two in parts of the ramp.
/// Past the end nothing is left, and without a ramp it is all of the loudness.
pub proof fn law_gain_is_the_least_of_three<I>(envelope: BeepEnvelope<I>)
    ensures
        ({
            let gain = envelope.gain();
            let ramp = envelope.attack;
            let left = if envelope.pos <= envelope.total {
                envelope.total - envelope.pos
            } else {
                0
            };
            &&& gain.denominator > 0
            &&& ramp == 0 ==> gain.numerator == gain.denominator
            &&& ramp > 0 ==> {
                &&& gain.numerator <= gain.denominator
                &&& gain.numerator * ramp <= envelope.pos * gain.denominator
                &&& gain.numerator * ramp <= left * gain.denominator
                &&& gain.numerator == gain.denominator || gain.numerator * ramp == envelope.pos
                    * gain.denominator || gain.numerator * ramp == left * gain.denominator
            }
        }),
{
    let gain = envelope.gain();
    let ramp = envelope.attack as int;
    let n = gain.numerator as int;
    let pos = envelope.pos as int;
    let left = if envelope.pos <= envelope.total {
        envelope.total - envelope.pos
    } else {
        0
    };
    if ramp > 0 {
        assert(n * ramp <= pos * ramp) by (nonlinear_arith)
            requires
                n <= pos,
                ramp > 0,
        ;
        assert(n * ramp <= left * ramp) by (nonlinear_arith)
            requires
                n <= left,
                ramp > 0,
        ;
    }
}

/// A count of samples is the whole number of them that fits into the time: a
/// thousandth of rate, channels and milliseconds, rounded down.
pub proof fn law_samples_fill_the_time(sample_rate: u32, channels: u16, ms: u64)
    ensures
        1000 * samples_in(sample_rate, channels, ms) <= sample_rate * ms * channels,
        sample_rate * ms * channels < 1000 * samples_in(sample_rate, channels, ms) + 1000,
{
}

/// Playing a sample moves on by that one sample and hands it out with the gain of
/// its place; the end of the source is handed on.
pub proof fn law_each_draw_plays_one_sample<I, S>(envelope: BeepEnvelope<I>, drawn: Option<S>)
    requires
        envelope.pos < u64::MAX,
    ensures
        ({
            let after = envelope.later(1);
            &&& after.pos == envelope.pos + 1
            &&& after.inner == envelope.inner
            &&& after.attack == envelope.attack && after.release == envelope.release
            &&& after.total == envelope.total
            &&& drawn is None <==> envelope.plays(drawn) is None
            &&& envelope.plays(drawn) matches Some(played) ==> drawn == Some(played.0) && played.1
                == envelope.gain()
        }),
{
}

/// An envelope starts at the start of its source, swells and fades over the same
/// time, and counts the samples of all channels that fit into each time.
pub proof fn law_envelope_starts_as_asked<I>(
    inner: I,
    sample_rate: u32,
    channels: u16,
    attack_ms: u64,
    total_ms: u64,
)
    requires
        countable(sample_rate, channels, attack_ms),
        countable(sample_rate, channels, total_ms),
    ensures
        ({
            let envelope = BeepEnvelope::over(inner, sample_rate, channels, attack_ms, total_ms);
            &&& envelope.inner == inner
            &&& envelope.pos == 0
            &&& envelope.release == envelope.attack
            &&& 1000 * envelope.attack <= sample_rate * attack_ms * channels < 1000
                * envelope.attack + 1000
            &&& 1000 * envelope.total <= sample_rate * total_ms * channels < 1000 * envelope.total
                + 1000
        }),
{
    let (a, t) = (sample_rate * attack_ms * channels, sample_rate * total_ms * channels);
    assert(0 <= a <= u64::MAX && 0 <= t <= u64::MAX) by {
        assert(sample_rate * attack_ms >= 0 && sample_rate * total_ms >= 0) by (nonlinear_arith);
        assert((sample_rate * attack_ms) * channels >= 0) by (nonlinear_arith)
            requires
                sample_rate * attack_ms >= 0,
        ;
        assert((sample_rate * total_ms) * channels >= 0) by (nonlinear_arith)
            requires
                sample_rate * total_ms >= 0,
        ;
    }
}

/// The alert is the tone that it was made of, cut to a tenth of a second: as many
/// samples as a tenth of the rate of the tone, of which it swells over a tenth
/// and fades over another.
pub proof fn law_alert_lasts_a_tenth_of_a_second(tone: SineWave)
    ensures
        alert_of(tone).inner == cut_tone(tone, 100),
        alert_of(tone).pos == 0,
        10 * alert_of(tone).total == 48_000,
        10 * alert_of(tone).attack == alert_of(tone).total,
        alert_of(tone).release == alert_of(tone).attack,
{
}

} // verus!
