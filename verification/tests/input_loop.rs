use openxr_stream::float32::Float32;
use openxr_stream::guardian::GuardianInput;
use openxr_stream::input_loop::{
    HeadReading, InputAction, InputEvent, InputLoop, InputPhase, StopReason,
};
use openxr_stream::render::Stereo;

const MS: u128 = 1_000_000;

fn of(value: f32) -> Float32 {
    Float32 { bits: value.to_bits() }
}

fn start(headset: bool, mode_idx: usize) -> InputLoop<u32> {
    InputLoop::new(headset, 12 * MS, mode_idx, Stereo { left: 1, right: 2 }, 100, 1000)
}

fn head(x: f32, z: f32) -> InputEvent<u32> {
    InputEvent::Head(Some(HeadReading { head_x: of(x), head_z: of(z), local_views: None }))
}

fn to_head(state: &mut InputLoop<u32>) {
    assert!(matches!(state.step(InputEvent::Running(true)), InputAction::SyncActions));
    assert!(matches!(state.step(InputEvent::ActionsSynced(true)), InputAction::ReadRuntimeTime));
    assert!(matches!(
        state.step(InputEvent::RuntimeTime(Some(50))),
        InputAction::ReadPredictionOffset
    ));
    assert!(matches!(
        state.step(InputEvent::PredictionOffset(7)),
        InputAction::PollHead { now: 50, target: 57, .. }
    ));
}

fn buttons(x: bool, y: bool, ms: u128) -> InputEvent<u32> {
    InputEvent::GuardianButtons(GuardianInput { x, y, t: ms * MS, checked_at: ms * MS })
}

fn finish(state: &mut InputLoop<u32>) {
    assert!(matches!(state.step(InputEvent::Done), InputAction::PollButtons));
    assert!(matches!(state.step(InputEvent::ButtonEntries(0)), InputAction::ReadClock));
    state.step(InputEvent::Clock(0));
    assert!(matches!(state.step(InputEvent::Done), InputAction::CheckRunning));
}

#[test]
fn desktop_poll_runs_its_course() {
    let mut state = start(false, 1);
    to_head(&mut state);
    assert!(matches!(
        state.step(head(0.0, 0.0)),
        InputAction::SendTracking { now: 50, target: 57 }
    ));
    assert!(matches!(state.step(InputEvent::Done), InputAction::PollButtons));
    assert!(matches!(state.step(InputEvent::ButtonEntries(2)), InputAction::SendButtons));
    assert!(matches!(state.step(InputEvent::Done), InputAction::ReadClock));
    assert_eq!(state.deadline, 1000 + 4 * MS);
    assert!(matches!(
        state.step(InputEvent::Clock(2000)),
        InputAction::Sleep { duration: 3_999_000 }
    ));
    assert!(matches!(state.step(InputEvent::Done), InputAction::CheckRunning));
    assert_eq!(state.phase, InputPhase::Running);
}

#[test]
fn late_poll_does_not_sleep() {
    let mut state = start(false, 1);
    to_head(&mut state);
    state.step(head(0.0, 0.0));
    state.step(InputEvent::Done);
    state.step(InputEvent::ButtonEntries(0));
    assert!(matches!(
        state.step(InputEvent::Clock(5 * MS)),
        InputAction::Sleep { duration: 0 }
    ));
}

#[test]
fn new_views_are_sent_and_remembered() {
    let mut state = start(false, 1);
    to_head(&mut state);
    let views = Stereo { left: 8, right: 9 };
    let event = InputEvent::Head(Some(HeadReading {
        head_x: of(0.0),
        head_z: of(0.0),
        local_views: Some(views),
    }));
    assert!(matches!(
        state.step(event),
        InputAction::SendViewParams(Stereo { left: 8, right: 9 })
    ));
    assert!(matches!(state.step(InputEvent::Done), InputAction::SendTracking { .. }));
    finish(&mut state);
    state.step(InputEvent::Running(true));
    state.step(InputEvent::ActionsSynced(true));
    state.step(InputEvent::RuntimeTime(Some(60)));
    assert!(matches!(
        state.step(InputEvent::PredictionOffset(0)),
        InputAction::PollHead { last_view_params: Stereo { left: 8, right: 9 }, .. }
    ));
}

#[test]
fn lost_head_starts_over() {
    let mut state = start(true, 2);
    to_head(&mut state);
    assert!(matches!(state.step(InputEvent::Head(None)), InputAction::CheckRunning));
    assert_eq!(state.deadline, 1000);
}

#[test]
fn loop_stops_for_its_reasons() {
    let mut state = start(true, 2);
    assert!(matches!(
        state.step(InputEvent::Running(false)),
        InputAction::Stop(StopReason::Told)
    ));
    assert!(matches!(state.step(InputEvent::Running(true)), InputAction::Unexpected));

    let mut state = start(true, 2);
    state.step(InputEvent::Running(true));
    assert!(matches!(
        state.step(InputEvent::ActionsSynced(false)),
        InputAction::Stop(StopReason::SyncFailed)
    ));

    let mut state = start(true, 2);
    state.step(InputEvent::Running(true));
    state.step(InputEvent::ActionsSynced(true));
    assert!(matches!(
        state.step(InputEvent::RuntimeTime(None)),
        InputAction::Stop(StopReason::InvalidTime)
    ));
}

#[test]
fn unexpected_outcome_changes_nothing() {
    let mut state = start(true, 2);
    assert!(matches!(state.step(InputEvent::Done), InputAction::Unexpected));
    assert_eq!(state.phase, InputPhase::Running);
    assert!(matches!(state.step(InputEvent::Running(true)), InputAction::SyncActions));
}

#[test]
fn headset_poll_passes_the_guardian() {
    let mut state = start(true, 2);
    to_head(&mut state);
    assert!(matches!(state.step(head(0.0, 0.0)), InputAction::ReadGuardianButtons));
    assert!(matches!(state.step(buttons(false, false, 1)), InputAction::LogPresses));
    assert!(matches!(state.step(InputEvent::Done), InputAction::ReadClock));
    assert!(matches!(state.step(InputEvent::Clock(200)), InputAction::SendTracking { .. }));
    finish(&mut state);
}

#[test]
fn disabled_guardian_reads_no_alert_clock() {
    let mut state = start(true, 0);
    to_head(&mut state);
    state.step(head(100.0, 0.0));
    state.step(buttons(false, false, 1));
    assert!(matches!(state.step(InputEvent::Done), InputAction::SendTracking { .. }));
}

#[test]
fn alert_beeps_and_waits() {
    let mut state = start(true, 5);
    to_head(&mut state);
    state.step(head(2.0, 0.0));
    state.step(buttons(false, false, 1));
    state.step(InputEvent::Done);
    match state.step(InputEvent::Clock(200)) {
        InputAction::Beep { half, head_x, head_z } => {
            assert_eq!(half, of(1.25));
            assert_eq!(head_x, of(2.0));
            assert_eq!(head_z, of(0.0));
        }
        _ => panic!("no beep"),
    }
    assert!(matches!(
        state.step(InputEvent::BeepPlayed { interval: 300 }),
        InputAction::SendTracking { .. }
    ));
    assert_eq!(state.next_beep, 500);
    finish(&mut state);

    to_head(&mut state);
    state.step(head(2.0, 0.0));
    state.step(buttons(false, false, 2));
    state.step(InputEvent::Done);
    assert!(matches!(state.step(InputEvent::Clock(499)), InputAction::SendTracking { .. }));
}

#[test]
fn guardian_effects_reach_the_surroundings() {
    let mut state = start(true, 2);
    let mut told: Vec<String> = Vec::new();
    let readings = [
        (true, true, 0),
        (true, true, 1500),
        (false, false, 1600),
        (true, false, 1700),
        (false, false, 1800),
        (false, false, 5800),
    ];
    for (x, y, ms) in readings {
        to_head(&mut state);
        state.step(head(0.0, 0.0));
        match state.step(buttons(x, y, ms)) {
            InputAction::SetPassthrough(on) => {
                told.push(format!("passthrough {}", on));
                assert!(matches!(state.step(InputEvent::Done), InputAction::LogPresses));
            }
            InputAction::SelectMode { mode_idx, area } => {
                assert_eq!(area.x, of(10.0));
                told.push(format!("mode {}", mode_idx));
                assert!(matches!(state.step(InputEvent::Done), InputAction::LogPresses));
            }
            InputAction::LogPresses => {}
            _ => panic!("unexpected action"),
        }
        state.step(InputEvent::Done);
        assert!(matches!(
            state.step(InputEvent::Clock(10_000)),
            InputAction::SendTracking { .. }
        ));
        finish(&mut state);
    }
    assert_eq!(told, vec!["passthrough true", "mode 3", "passthrough false"]);
}

#[test]
fn size_is_not_read_off_the_headset() {
    let mut state = start(false, 77);
    to_head(&mut state);
    assert!(matches!(state.step(head(100.0, 0.0)), InputAction::SendTracking { .. }));
    finish(&mut state);
    assert_eq!(state.guardian.mode_idx, 77);
}
