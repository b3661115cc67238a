use openxr_stream::float32::Float32;
use openxr_stream::guardian::{
    apply_guardian_mode, beep_due, guardian_cycle, initial_guardian_mode, next_beep_time,
    GuardianEffect, GuardianInput, GuardianState, PlayspaceArea, GUARDIAN_CYCLE_LEN,
};

const MS: u128 = 1_000_000;

fn of(value: f32) -> Float32 {
    Float32 { bits: value.to_bits() }
}

fn square(extent: f32) -> PlayspaceArea {
    PlayspaceArea { x: of(extent), y: of(extent) }
}

fn reading(x: bool, y: bool, ms: u128) -> GuardianInput {
    GuardianInput { x, y, t: ms * MS, checked_at: ms * MS }
}

fn in_config_mode() -> GuardianState {
    let mut state = GuardianState::new(2, 0);
    assert_eq!(state.step(reading(true, true, 0)), GuardianEffect::Nothing);
    assert_eq!(state.step(reading(true, true, 1500)), GuardianEffect::SetPassthrough(true));
    assert_eq!(state.step(reading(false, false, 1600)), GuardianEffect::Nothing);
    state
}

#[test]
fn cycle_holds_the_sizes() {
    let halves: Vec<Option<f32>> = (0..GUARDIAN_CYCLE_LEN)
        .map(|i| guardian_cycle(i).map(|half| f32::from_bits(half.bits)))
        .collect();
    assert_eq!(
        halves,
        vec![None, Some(10.0), Some(7.5), Some(5.0), Some(2.5), Some(1.25)]
    );
}

#[test]
fn areas_are_twice_the_half_extents() {
    assert_eq!(apply_guardian_mode(None), square(0.001));
    assert_eq!(apply_guardian_mode(guardian_cycle(1)), square(20.0));
    assert_eq!(apply_guardian_mode(guardian_cycle(2)), square(15.0));
    assert_eq!(apply_guardian_mode(guardian_cycle(3)), square(10.0));
    assert_eq!(apply_guardian_mode(guardian_cycle(4)), square(5.0));
    assert_eq!(apply_guardian_mode(guardian_cycle(5)), square(2.5));
}

#[test]
fn sessions_start_with_their_sizes() {
    assert_eq!(initial_guardian_mode(true), 2);
    assert_eq!(initial_guardian_mode(false), 1);
}

#[test]
fn short_hold_does_not_enter() {
    let mut state = GuardianState::new(2, 0);
    for ms in [0, 500, 1000, 1499] {
        assert_eq!(state.step(reading(true, true, ms)), GuardianEffect::Nothing);
    }
    assert!(!state.in_config_mode);
}

#[test]
fn broken_hold_starts_over() {
    let mut state = GuardianState::new(2, 0);
    state.step(reading(true, true, 0));
    state.step(reading(true, false, 1000));
    assert_eq!(state.step(reading(true, true, 1100)), GuardianEffect::Nothing);
    assert_eq!(state.step(reading(true, true, 2599)), GuardianEffect::Nothing);
    assert_eq!(state.step(reading(true, true, 2600)), GuardianEffect::SetPassthrough(true));
}

#[test]
fn hold_is_measured_by_the_later_clock() {
    let mut state = GuardianState::new(2, 0);
    state.step(reading(true, true, 0));
    let input = GuardianInput { x: true, y: true, t: 1499 * MS, checked_at: 1500 * MS };
    assert_eq!(state.step(input), GuardianEffect::SetPassthrough(true));
    assert_eq!(state.config_mode_timeout, 5499 * MS);
}

#[test]
fn entry_hold_is_no_tap() {
    let mut state = GuardianState::new(2, 0);
    state.step(reading(true, true, 0));
    state.step(reading(true, true, 1500));
    assert_eq!(state.step(reading(false, true, 1600)), GuardianEffect::Nothing);
    assert_eq!(state.step(reading(true, false, 1700)), GuardianEffect::Nothing);
    assert_eq!(state.step(reading(false, true, 1800)), GuardianEffect::Nothing);
    assert_eq!(state.mode_idx, 2);
}

#[test]
fn tap_selects_the_next_size() {
    let mut state = in_config_mode();
    assert_eq!(state.step(reading(true, false, 2000)), GuardianEffect::Nothing);
    assert_eq!(
        state.step(reading(false, false, 2100)),
        GuardianEffect::SelectMode { mode_idx: 3, area: square(10.0) }
    );
    assert!(state.in_config_mode);
    assert_eq!(state.config_mode_timeout, 6100 * MS);
}

#[test]
fn six_taps_go_round() {
    let mut state = in_config_mode();
    let mut seen: Vec<usize> = Vec::new();
    for tap in 0..6u128 {
        state.step(reading(true, false, 2000 + 200 * tap));
        state.step(reading(false, false, 2100 + 200 * tap));
        seen.push(state.mode_idx);
    }
    assert_eq!(seen, vec![3, 4, 5, 0, 1, 2]);
}

#[test]
fn mode_ends_after_four_quiet_seconds() {
    let mut state = in_config_mode();
    assert_eq!(state.step(reading(false, false, 5499)), GuardianEffect::Nothing);
    assert_eq!(state.step(reading(false, false, 5500)), GuardianEffect::SetPassthrough(false));
    assert_eq!(state.mode_idx, 2);
    assert!(!state.in_config_mode);
    assert_eq!(state.both_held_since, None);
}

#[test]
fn press_at_the_last_moment_keeps_the_mode() {
    let mut state = in_config_mode();
    assert_eq!(state.step(reading(true, false, 5500)), GuardianEffect::Nothing);
    assert!(state.in_config_mode);
    assert_eq!(state.config_mode_timeout, 9500 * MS);
}

#[test]
fn long_press_is_no_tap() {
    let mut state = in_config_mode();
    state.step(reading(true, false, 2000));
    assert_eq!(state.step(reading(true, false, 6000)), GuardianEffect::SetPassthrough(false));
    assert_eq!(state.step(reading(false, false, 6100)), GuardianEffect::Nothing);
    assert_eq!(state.mode_idx, 2);
}

#[test]
fn beep_is_due_outside_only() {
    let t = 10 * MS;
    assert!(!beep_due(2, of(7.5), of(-7.5), t, 0));
    assert!(beep_due(2, of(7.6), of(0.0), t, 0));
    assert!(beep_due(2, of(0.0), of(-8.0), t, 0));
    assert!(!beep_due(1, of(7.6), of(-8.0), t, 0));
    assert!(!beep_due(0, of(1000.0), of(1000.0), t, 0));
    assert!(!beep_due(2, of(8.0), of(0.0), t, t + 1));
    assert!(beep_due(2, of(8.0), of(0.0), t, t));
    assert!(!beep_due(2, of(f32::NAN), of(0.0), t, 0));
    assert!(beep_due(2, of(f32::NAN), of(f32::INFINITY), t, 0));
}

#[test]
fn beep_agrees_with_the_distance() {
    for idx in 0..GUARDIAN_CYCLE_LEN {
        for hx in [-20.0f32, -7.5000005, -7.5, -1.25, 0.0, 1.2500001, 2.5, 5.0000005, 10.0, 10.000001] {
            for hz in [-10.000001f32, -2.5, 0.0, 1.25, 1.2500001, 7.5, f32::NAN] {
                let expected = match guardian_cycle(idx) {
                    None => false,
                    Some(bits) => {
                        let half = f32::from_bits(bits.bits);
                        let dx = (hx.abs() - half).max(0.0);
                        let dz = (hz.abs() - half).max(0.0);
                        let level = ((dx * dx + dz * dz).sqrt() / 1.5).min(1.0);
                        level > 0.0
                    }
                };
                assert_eq!(beep_due(idx, of(hx), of(hz), 1, 0), expected);
            }
        }
    }
}

#[test]
fn next_beep_follows_the_later_time() {
    assert_eq!(next_beep_time(100, 150, 30), 180);
    assert_eq!(next_beep_time(200, 150, 30), 230);
    assert_eq!(next_beep_time(150, 150, 0), 150);
}

#[test]
fn held_buttons_do_not_keep_the_mode() {
    let mut state = GuardianState::new(2, 0);
    state.step(reading(true, true, 0));
    assert_eq!(state.step(reading(true, true, 1500)), GuardianEffect::SetPassthrough(true));
    assert_eq!(state.step(reading(true, true, 5499)), GuardianEffect::Nothing);
    assert_eq!(state.step(reading(true, true, 5500)), GuardianEffect::SetPassthrough(false));
    assert_eq!(state.mode_idx, 2);

    let mut state = in_config_mode();
    assert_eq!(state.step(reading(true, false, 2000)), GuardianEffect::Nothing);
    assert_eq!(state.step(reading(true, false, 5999)), GuardianEffect::Nothing);
    assert_eq!(state.step(reading(true, false, 6000)), GuardianEffect::SetPassthrough(false));
    assert_eq!(state.mode_idx, 2);
}

#[test]
fn taps_announce_the_cycle_in_order() {
    let mut state = in_config_mode();
    let mut told: Vec<(usize, PlayspaceArea)> = Vec::new();
    for tap in 0..7 {
        state.step(reading(true, false, 1700 + 200 * tap));
        match state.step(reading(false, false, 1800 + 200 * tap)) {
            GuardianEffect::SelectMode { mode_idx, area } => told.push((mode_idx, area)),
            _ => panic!("no tap"),
        }
    }
    assert_eq!(
        told,
        vec![
            (3, square(10.0)),
            (4, square(5.0)),
            (5, square(2.5)),
            (0, square(0.001)),
            (1, square(20.0)),
            (2, square(15.0)),
            (3, square(10.0)),
        ]
    );
}
