//! What holds of the input loop over any number of outcomes.
use crate::guardian::{
    beep_is_due, following_beep, guardian_cycle_at, is_outside, GuardianEffect, GuardianInput,
    CONFIG_MODE_NS, GUARDIAN_CYCLE_LEN,
};
use crate::input_loop::{
    guardian_phase, HeadReading, InputAction, InputEvent, InputLoop, InputPhase, StopReason,
    LONGEST_SPAN_NS, POLLS_PER_FRAME,
};
use crate::render::{time_left, Stereo};
use vstd::prelude::*;

verus! {

/// The loop after a sequence of outcomes.
pub open spec fn run<V>(state: InputLoop<V>, events: Seq<InputEvent<V>>) -> InputLoop<V>
    decreases events.len(),
{
    if events.len() == 0 {
        state
    } else {
        run(state, events.drop_last()).outcome(events.last()).0
    }
}

/// The work that the last of some outcomes led to.
pub open spec fn last_action<V>(
    state: InputLoop<V>,
    events: Seq<InputEvent<V>>,
) -> InputAction<V>
    recommends
        events.len() > 0,
{
    run(state, events.drop_last()).outcome(events.last()).1
}

/// Whether all times along a sequence of outcomes can be counted.
pub open spec fn all_accepted<V>(state: InputLoop<V>, events: Seq<InputEvent<V>>) -> bool
    decreases events.len(),
{
    events.len() > 0 ==> all_accepted(state, events.drop_last()) && run(
        state,
        events.drop_last(),
    ).accepts(events.last())
}

/// The loop keeps its settings, and on a headset the size of the guardian stays one of the
/// cycle.
pub proof fn law_loop_stays_well_formed<V>(state: InputLoop<V>, events: Seq<InputEvent<V>>)
    requires
        state.wf(),
    ensures
        run(state, events).wf(),
        state.headset ==> run(state, events).guardian.mode_idx < GUARDIAN_CYCLE_LEN,
        run(state, events).headset == state.headset,
        run(state, events).frame_interval == state.frame_interval,
    decreases events.len(),
{
    if events.len() > 0 {
        law_loop_stays_well_formed(state, events.drop_last());
    }
}

/// The loop ends when it is told to, when the actions cannot be synchronised and
/// when the runtime has no valid time, and for no other reason.
pub proof fn law_loop_ends_for_three_reasons<V>(state: InputLoop<V>, event: InputEvent<V>)
    ensures
        state.outcome(event).1 == InputAction::<V>::Stop(StopReason::Told) <==> state.phase
            is Running && event == InputEvent::<V>::Running(false),
        state.outcome(event).1 == InputAction::<V>::Stop(StopReason::SyncFailed) <==> state.phase
            is Sync && event == InputEvent::<V>::ActionsSynced(false),
        state.outcome(event).1 == InputAction::<V>::Stop(StopReason::InvalidTime) <==> state.phase
            is RuntimeTime && event == InputEvent::<V>::RuntimeTime(None),
        state.outcome(event).0.phase is Stopped && !(state.phase is Stopped) ==> state.outcome(
            event,
        ).1 is Stop,
        state.phase is Stopped ==> state.outcome(event) == (state, InputAction::<V>::Unexpected),
{
}

/// How many polls a sequence of outcomes completed.
pub open spec fn polls_completed<V>(state: InputLoop<V>, events: Seq<InputEvent<V>>) -> nat
    decreases events.len(),
{
    if events.len() == 0 {
        0
    } else {
        let before = run(state, events.drop_last());
        let after = before.outcome(events.last()).0;
        polls_completed(state, events.drop_last()) + if after.phase is PaceClock
            && !(before.phase is PaceClock) {
            1nat
        } else {
            0nat
        }
    }
}

/// Polls keep their pace: each one that is completed is due a third of a frame
/// after the one before, whatever delays there were, and one that finds no head
/// does not count.
pub proof fn law_polls_keep_their_pace<V>(state: InputLoop<V>, events: Seq<InputEvent<V>>)
    requires
        all_accepted(state, events),
    ensures
        run(state, events).deadline == state.deadline + polls_completed(state, events) * (
        state.frame_interval / POLLS_PER_FRAME),
        run(state, events).frame_interval == state.frame_interval,
    decreases events.len(),
{
    if events.len() > 0 {
        let before = run(state, events.drop_last());
        let n = polls_completed(state, events.drop_last());
        let third = state.frame_interval / POLLS_PER_FRAME;
        law_polls_keep_their_pace(state, events.drop_last());
        assert((n + 1) * third == n * third + third) by (nonlinear_arith);
    }
}

/// How many times a sequence of outcomes led to sending the tracking data.
pub open spec fn trackings_sent<V>(state: InputLoop<V>, events: Seq<InputEvent<V>>) -> nat
    decreases events.len(),
{
    if events.len() == 0 {
        0
    } else {
        trackings_sent(state, events.drop_last()) + if last_action(state, events) is SendTracking {
            1nat
        } else {
            0nat
        }
    }
}

/// Whether a poll has sent its tracking data and is not completed yet.
pub open spec fn tracking_is_out(phase: InputPhase) -> bool {
    phase is Tracking || phase is ButtonEntries || phase is SendButtons
}

/// Every completed poll has sent its tracking data, and sent it once.
pub proof fn law_each_poll_sends_tracking_once<V>(state: InputLoop<V>, events: Seq<InputEvent<V>>)
    requires
        !tracking_is_out(state.phase),
    ensures
        trackings_sent(state, events) == polls_completed(state, events) + if tracking_is_out(
            run(state, events).phase,
        ) {
            1nat
        } else {
            0nat
        },
    decreases events.len(),
{
    if events.len() > 0 {
        law_each_poll_sends_tracking_once(state, events.drop_last());
    }
}

/// The time of the runtime and the predicted time of the poll that a phase
/// belongs to, once both are known and until the tracking data is sent.
pub open spec fn poll_times(phase: InputPhase) -> Option<(u128, u128)> {
    match phase {
        InputPhase::Head { now, target } => Some((now, target)),
        InputPhase::SendViews(poll) => Some((poll.now, poll.target)),
        InputPhase::GuardianButtons(poll) => Some((poll.now, poll.target)),
        InputPhase::GuardianEffect(poll) => Some((poll.now, poll.target)),
        InputPhase::LogPresses(poll) => Some((poll.now, poll.target)),
        InputPhase::AlertClock(poll) => Some((poll.now, poll.target)),
        InputPhase::Beep { poll, .. } => Some((poll.now, poll.target)),
        _ => None,
    }
}

/// The tracking data is sent for the time that its own poll predicted: the time
/// of the runtime and the offset on it, whatever the guardian does in between.
pub proof fn law_tracking_is_for_the_predicted_time<V>(state: InputLoop<V>, event: InputEvent<V>)
    requires
        state.accepts(event),
    ensures
        ({
            let (after, action) = state.outcome(event);
            let times = poll_times(state.phase);
            &&& action matches InputAction::SendTracking { now, target } ==> times == Some(
                (now, target),
            )
            &&& times is Some && poll_times(after.phase) is Some ==> poll_times(after.phase)
                == times
            &&& times is None && poll_times(after.phase) is Some ==> {
                &&& state.phase matches InputPhase::PredictionOffset { now }
                &&& event matches InputEvent::PredictionOffset(offset)
                &&& poll_times(after.phase) matches Some(set)
                &&& set.0 == now && set.1 == now + offset
            }
        }),
{
}

/// The loop sleeps until the next poll is due, and not at all if it is late.
pub proof fn law_sleep_ends_at_the_deadline<V>(state: InputLoop<V>, event: InputEvent<V>)
    ensures
        state.outcome(event).1 matches InputAction::Sleep { duration } ==> {
            &&& event matches InputEvent::Clock(now)
            &&& now <= state.deadline ==> now + duration == state.deadline
            &&& now > state.deadline ==> duration == 0
        },
{
}

/// A poll that finds no head starts over, and nothing else has changed.
pub proof fn law_lost_head_starts_over<V>(state: InputLoop<V>)
    requires
        state.phase is Head,
    ensures
        state.outcome(InputEvent::Head(None)) == (
            InputLoop { phase: InputPhase::Running, ..state },
            InputAction::<V>::CheckRunning,
        ),
{
}

/// Without a guardian, a poll goes from the check whether to run to the next
/// one: it sends the tracking data for the predicted time, then the buttons if
/// there are any, and sleeps until the next poll is due.
pub proof fn law_poll_runs_its_course<V>(
    state: InputLoop<V>,
    now: u128,
    offset: u128,
    head: HeadReading<V>,
    buttons: usize,
    clock: u128,
)
    requires
        !state.headset,
        state.phase is Running,
        now + offset <= LONGEST_SPAN_NS,
        state.following_deadline() <= u128::MAX,
    ensures
        ({
            let (s1, a1) = state.outcome(InputEvent::Running(true));
            let (s2, a2) = s1.outcome(InputEvent::ActionsSynced(true));
            let (s3, a3) = s2.outcome(InputEvent::RuntimeTime(Some(now)));
            let (s4, a4) = s3.outcome(InputEvent::PredictionOffset(offset));
            let (s5, a5) = s4.outcome(InputEvent::Head(Some(head)));
            let (s6, a6) = if head.local_views is Some {
                s5.outcome(InputEvent::Done)
            } else {
                (s5, a5)
            };
            let (s7, a7) = s6.outcome(InputEvent::Done);
            let (s8, a8) = s7.outcome(InputEvent::ButtonEntries(buttons));
            let (s9, a9) = if buttons > 0 {
                s8.outcome(InputEvent::Done)
            } else {
                (s8, a8)
            };
            let (s10, a10) = s9.outcome(InputEvent::Clock(clock));
            let (s11, a11) = s10.outcome(InputEvent::Done);
            let target = (now + offset) as u128;
            &&& a1 is SyncActions && a2 is ReadRuntimeTime && a3 is ReadPredictionOffset
            &&& a4 == InputAction::PollHead {
                now,
                target,
                last_view_params: state.last_view_params,
            }
            &&& head.local_views matches Some(views) ==> a5 == InputAction::SendViewParams(views)
            &&& a6 == InputAction::<V>::SendTracking { now, target }
            &&& a7 is PollButtons
            &&& buttons > 0 ==> a8 is SendButtons
            &&& a9 is ReadClock
            &&& a10 == InputAction::<V>::Sleep {
                duration: time_left(state.following_deadline() as u128, clock),
            }
            &&& a11 is CheckRunning
            &&& s11 == (InputLoop {
                deadline: state.following_deadline() as u128,
                last_view_params: match head.local_views {
                    Some(views) => views,
                    None => state.last_view_params,
                },
                ..state
            })
        }),
{
}

/// On a headset a poll goes past the guardian and the alert on the way: the
/// guardian takes its reading, its effect is made known, the presses are logged,
/// and the beep sounds if it is due. Then it goes on as elsewhere.
pub proof fn law_headset_poll_runs_its_course<V>(
    state: InputLoop<V>,
    now: u128,
    offset: u128,
    head: HeadReading<V>,
    input: GuardianInput,
    t: u128,
    interval: u128,
    buttons: usize,
    clock: u128,
)
    requires
        state.headset,
        state.wf(),
        state.phase is Running,
        now + offset <= LONGEST_SPAN_NS,
        state.following_deadline() <= u128::MAX,
        input.t + CONFIG_MODE_NS <= u128::MAX,
        t + interval <= u128::MAX,
        state.next_beep + interval <= u128::MAX,
    ensures
        ({
            let (s1, a1) = state.outcome(InputEvent::Running(true));
            let (s2, a2) = s1.outcome(InputEvent::ActionsSynced(true));
            let (s3, a3) = s2.outcome(InputEvent::RuntimeTime(Some(now)));
            let (s4, a4) = s3.outcome(InputEvent::PredictionOffset(offset));
            let (s5, a5) = s4.outcome(InputEvent::Head(Some(head)));
            let (s6, a6) = if head.local_views is Some {
                s5.outcome(InputEvent::Done)
            } else {
                (s5, a5)
            };
            let effect = state.guardian.effect(input);
            let (s7, a7) = s6.outcome(InputEvent::GuardianButtons(input));
            let (s8, a8) = if effect is Nothing {
                (s7, a7)
            } else {
                s7.outcome(InputEvent::Done)
            };
            let guardian = state.guardian.after(input);
            let size = guardian.mode_idx as int;
            let (s9, a9) = s8.outcome(InputEvent::Done);
            let (s10, a10) = if guardian_cycle_at(size) is Some {
                s9.outcome(InputEvent::Clock(t))
            } else {
                (s9, a9)
            };
            let due = beep_is_due(size, head.head_x, head.head_z, t, state.next_beep);
            let (s11, a11) = if due {
                s10.outcome(InputEvent::BeepPlayed { interval })
            } else {
                (s10, a10)
            };
            let (s12, a12) = s11.outcome(InputEvent::Done);
            let (s13, a13) = s12.outcome(InputEvent::ButtonEntries(buttons));
            let (s14, a14) = if buttons > 0 {
                s13.outcome(InputEvent::Done)
            } else {
                (s13, a13)
            };
            let (s15, a15) = s14.outcome(InputEvent::Clock(clock));
            let (s16, a16) = s15.outcome(InputEvent::Done);
            let target = (now + offset) as u128;
            &&& a1 is SyncActions && a2 is ReadRuntimeTime && a3 is ReadPredictionOffset
            &&& a4 == InputAction::PollHead {
                now,
                target,
                last_view_params: state.last_view_params,
            }
            &&& head.local_views matches Some(views) ==> a5 == InputAction::SendViewParams(views)
            &&& a6 is ReadGuardianButtons
            &&& effect matches GuardianEffect::SetPassthrough(on) ==> a7 == InputAction::<
                V,
            >::SetPassthrough(on)
            &&& effect matches GuardianEffect::SelectMode { mode_idx, area } ==> a7
                == InputAction::<V>::SelectMode { mode_idx, area }
            &&& a8 is LogPresses
            &&& guardian_cycle_at(size) is Some ==> a9 is ReadClock
            &&& due ==> a10 == InputAction::<V>::Beep {
                half: guardian_cycle_at(size)->0,
                head_x: head.head_x,
                head_z: head.head_z,
            }
            &&& a11 == InputAction::<V>::SendTracking { now, target }
            &&& a12 is PollButtons
            &&& buttons > 0 ==> a13 is SendButtons
            &&& a14 is ReadClock
            &&& a15 == InputAction::<V>::Sleep {
                duration: time_left(state.following_deadline() as u128, clock),
            }
            &&& a16 is CheckRunning
            &&& s16 == (InputLoop {
                deadline: state.following_deadline() as u128,
                last_view_params: match head.local_views {
                    Some(views) => views,
                    None => state.last_view_params,
                },
                guardian,
                next_beep: if due {
                    following_beep(state.next_beep, t, interval) as u128
                } else {
                    state.next_beep
                },
                ..state
            })
        }),
{
}

/// The views that the loop has sent last, or those that it started from if it
/// has sent none.
pub open spec fn views_sent_last<V>(state: InputLoop<V>, events: Seq<InputEvent<V>>) -> Stereo<V>
    decreases events.len(),
{
    if events.len() == 0 {
        state.last_view_params
    } else {
        match last_action(state, events) {
            InputAction::SendViewParams(views) => views,
            _ => views_sent_last(state, events.drop_last()),
        }
    }
}

/// The head is polled with the views that were sent last, or with the initial
/// ones if none were.
pub proof fn law_head_is_polled_with_the_last_views<V>(
    state: InputLoop<V>,
    events: Seq<InputEvent<V>>,
)
    ensures
        run(state, events).last_view_params == views_sent_last(state, events),
        events.len() > 0 ==> (last_action(state, events) matches InputAction::PollHead {
            last_view_params,
            ..
        } ==> last_view_params == views_sent_last(state, events)),
    decreases events.len(),
{
    if events.len() > 0 {
        law_head_is_polled_with_the_last_views(state, events.drop_last());
    }
}

/// Whether the room is shown, by what the loop has asked for.
pub open spec fn room_shown<V>(
    state: InputLoop<V>,
    shown: bool,
    events: Seq<InputEvent<V>>,
) -> bool
    decreases events.len(),
{
    if events.len() == 0 {
        shown
    } else {
        match last_action(state, events) {
            InputAction::SetPassthrough(on) => on,
            _ => room_shown(state, shown, events.drop_last()),
        }
    }
}

/// The size of the guardian, by what the loop has made known.
pub open spec fn size_known<V>(state: InputLoop<V>, events: Seq<InputEvent<V>>) -> usize
    decreases events.len(),
{
    if events.len() == 0 {
        state.guardian.mode_idx
    } else {
        match last_action(state, events) {
            InputAction::SelectMode { mode_idx, .. } => mode_idx,
            _ => size_known(state, events.drop_last()),
        }
    }
}

/// What the loop tells its surroundings is how things stand: the room is shown
/// exactly while the configuration mode is on, and the size made known last is
/// the one in force.
pub proof fn law_surroundings_know_the_guardian<V>(
    state: InputLoop<V>,
    shown: bool,
    events: Seq<InputEvent<V>>,
)
    requires
        state.wf(),
        shown == state.guardian.in_config_mode,
    ensures
        room_shown(state, shown, events) == run(state, events).guardian.in_config_mode,
        size_known(state, events) == run(state, events).guardian.mode_idx,
    decreases events.len(),
{
    if events.len() > 0 {
        law_surroundings_know_the_guardian(state, shown, events.drop_last());
        law_loop_stays_well_formed(state, events.drop_last());
    }
}

/// A beep sounds only where there is an area and the head has left it, and only
/// once the time for it has come.
pub proof fn law_beep_warns_outside_only<V>(state: InputLoop<V>, event: InputEvent<V>)
    ensures
        state.outcome(event).1 matches InputAction::Beep { half, head_x, head_z } ==> {
            &&& guardian_cycle_at(state.guardian.mode_idx as int) == Some(half)
            &&& is_outside(half, head_x, head_z)
            &&& event matches InputEvent::Clock(t)
            &&& t >= state.next_beep
        },
{
}

/// The time of the next beep never moves back.
proof fn lemma_next_beep_never_moves_back<V>(state: InputLoop<V>, events: Seq<InputEvent<V>>)
    requires
        all_accepted(state, events),
    ensures
        run(state, events).next_beep >= state.next_beep,
    decreases events.len(),
{
    if events.len() > 0 {
        lemma_next_beep_never_moves_back(state, events.drop_last());
    }
}

/// Beeps keep their distance: after one that was decided on at `t`, none sounds
/// before its interval is over, however many polls there are in between and
/// whatever sizes are chosen meanwhile.
pub proof fn law_loop_keeps_beeps_apart<V>(
    state: InputLoop<V>,
    interval: u128,
    events: Seq<InputEvent<V>>,
)
    requires
        state.phase is Beep,
        state.accepts(InputEvent::BeepPlayed { interval }),
        events.len() > 0,
        all_accepted(state.outcome(InputEvent::BeepPlayed { interval }).0, events),
    ensures
        ({
            let after = state.outcome(InputEvent::BeepPlayed { interval }).0;
            &&& state.phase matches InputPhase::Beep { t, .. }
            &&& last_action(after, events) is Beep ==> {
                &&& events.last() matches InputEvent::Clock(again)
                &&& again >= t + interval
            }
        }),
{
    let after = state.outcome(InputEvent::BeepPlayed { interval }).0;
    lemma_next_beep_never_moves_back(after, events.drop_last());
}

/// Off the headset the guardian plays no part.
pub proof fn law_no_guardian_off_the_headset<V>(state: InputLoop<V>, events: Seq<InputEvent<V>>)
    requires
        !state.headset,
        !guardian_phase(state.phase),
    ensures
        !run(state, events).headset,
        !guardian_phase(run(state, events).phase),
        run(state, events).guardian == state.guardian,
        run(state, events).next_beep == state.next_beep,
    decreases events.len(),
{
    if events.len() > 0 {
        law_no_guardian_off_the_headset(state, events.drop_last());
    }
}

/// Whether an outcome is the one that a phase waits for.
pub open spec fn is_awaited<V>(phase: InputPhase, event: InputEvent<V>) -> bool {
    match event {
        InputEvent::Running(_) => phase is Running,
        InputEvent::ActionsSynced(_) => phase is Sync,
        InputEvent::RuntimeTime(_) => phase is RuntimeTime,
        InputEvent::PredictionOffset(_) => phase is PredictionOffset,
        InputEvent::Head(_) => phase is Head,
        InputEvent::GuardianButtons(_) => phase is GuardianButtons,
        InputEvent::Clock(_) => phase is AlertClock || phase is PaceClock,
        InputEvent::BeepPlayed { .. } => phase is Beep,
        InputEvent::ButtonEntries(_) => phase is ButtonEntries,
        InputEvent::Done => phase is SendViews || phase is GuardianEffect || phase is LogPresses
            || phase is Tracking || phase is SendButtons || phase is Sleep,
    }
}

/// An outcome that is not waited for changes nothing, and every one that is leads
/// on.
pub proof fn law_only_awaited_outcomes_count<V>(state: InputLoop<V>, event: InputEvent<V>)
    ensures
        state.outcome(event).1 is Unexpected <==> !is_awaited(state.phase, event),
        !is_awaited(state.phase, event) ==> state.outcome(event).0 == state,
{
}

/// Three polls take a frame: the time to the next poll is the third of a frame,
/// rounded down to the nanosecond.
pub proof fn law_three_polls_take_a_frame<V>(state: InputLoop<V>)
    ensures
        3 * (state.following_deadline() - state.deadline) <= state.frame_interval,
        state.frame_interval < 3 * (state.following_deadline() - state.deadline) + 3,
{
}

/// A time span that is left, together with what has passed, makes up the whole;
/// once the whole has passed nothing is left.
pub proof fn law_time_left_makes_up_the_whole(t: u128, other: u128)
    ensures
        other <= t ==> time_left(t, other) + other == t,
        other >= t ==> time_left(t, other) == 0,
{
}

/// A new loop first sees whether to run. It polls from the given views at the
/// given pace, with the given size in force, and may beep from the given time on.
pub proof fn law_loop_starts_as_asked<V>(
    headset: bool,
    frame_interval: u128,
    mode_idx: usize,
    initial_views: Stereo<V>,
    alert_start: u128,
    pace_start: u128,
)
    requires
        headset ==> mode_idx < GUARDIAN_CYCLE_LEN,
    ensures
        ({
            let state = InputLoop::initial(
                headset,
                frame_interval,
                mode_idx,
                initial_views,
                alert_start,
                pace_start,
            );
            &&& state.wf()
            &&& state.outcome(InputEvent::Running(true)).1 is SyncActions
            &&& state.headset == headset && state.frame_interval == frame_interval
            &&& state.deadline == pace_start && state.next_beep == alert_start
            &&& state.last_view_params == initial_views
            &&& state.guardian.mode_idx == mode_idx && !state.guardian.in_config_mode
            &&& state.guardian.both_held_since is None && !state.guardian.entry_consumed
            &&& !state.guardian.x_armed && !state.guardian.entry_released
        }),
{
}

} // verus!
