use openxr_stream::beep::{alert_beep, BeepEnvelope, Gain};
use rodio::source::SineWave;
use rodio::Source;

#[test]
fn envelope_counts_samples_over_all_channels() {
    let envelope = BeepEnvelope::new("tone", 44_100, 2, 10, 100);
    assert_eq!(envelope.inner, "tone");
    assert_eq!(envelope.attack, 882);
    assert_eq!(envelope.release, 882);
    assert_eq!(envelope.total, 8820);
    assert_eq!(envelope.pos, 0);
}

#[test]
fn sample_counts_are_rounded_down() {
    let envelope = BeepEnvelope::new((), 11_025, 1, 3, 7);
    assert_eq!(envelope.attack, 33);
    assert_eq!(envelope.total, 77);
}

#[test]
fn gain_swells_holds_and_fades() {
    let mut envelope = BeepEnvelope::new((), 1000, 1, 4, 12);
    let gains: Vec<u64> = (0..15).map(|_| envelope.next(Some(())).unwrap().1.numerator).collect();
    assert_eq!(gains, vec![0, 1, 2, 3, 4, 4, 4, 4, 4, 3, 2, 1, 0, 0, 0]);
    assert_eq!(envelope.pos, 15);
}

#[test]
fn gain_agrees_with_the_two_ramps() {
    let mut envelope = BeepEnvelope::new((), 48_000, 1, 10, 100);
    let (attack, release, total) = (envelope.attack, envelope.release, envelope.total);
    for pos in 0..total + 10 {
        let attack_gain = (pos as f32 / attack as f32).min(1.0);
        let release_gain = (total.saturating_sub(pos) as f32 / release as f32).min(1.0);
        let gain = envelope.next(Some(())).unwrap().1;
        assert_eq!(
            gain.numerator as f32 / gain.denominator as f32,
            attack_gain.min(release_gain)
        );
    }
}

#[test]
fn without_a_ramp_the_sound_is_loud() {
    let mut envelope = BeepEnvelope::new((), 48_000, 1, 0, 100);
    assert_eq!(envelope.next(Some(7)), Some((7, Gain { numerator: 1, denominator: 1 })));
}

#[test]
fn alert_beep_is_a_tenth_of_a_second() {
    let beep = alert_beep(SineWave::new(880.0));
    assert_eq!(beep.attack, 480);
    assert_eq!(beep.total, 4800);
    assert_eq!(beep.inner.sample_rate(), 48_000);
    assert_eq!(beep.inner.channels(), 1);
    assert_eq!(beep.inner.count(), 4800);
}

#[test]
fn alert_beep_keeps_the_tone() {
    let beep = alert_beep(SineWave::new(880.0));
    let expected: Vec<f32> = SineWave::new(880.0).take(100).collect();
    let played: Vec<f32> = beep.inner.take(100).collect();
    assert_eq!(played, expected);
}

#[test]
fn envelope_plays_all_of_its_source() {
    let mut envelope = BeepEnvelope::new((), 1000, 1, 2, 4);
    let drawn = vec![Some(5), Some(6), Some(7), Some(8), Some(9), Some(10), None];
    let played: Vec<Option<(i32, u64)>> = drawn
        .into_iter()
        .map(|sample| envelope.next(sample).map(|(sample, gain)| (sample, gain.numerator)))
        .collect();
    assert_eq!(
        played,
        vec![
            Some((5, 0)),
            Some((6, 1)),
            Some((7, 2)),
            Some((8, 1)),
            Some((9, 0)),
            Some((10, 0)),
            None,
        ]
    );
    assert_eq!(envelope.pos, 7);
    assert_eq!((envelope.attack, envelope.release, envelope.total), (2, 2, 4));
}
