//! The input loop: it polls the devices three times a frame and sends what it
//! reads.
//!
//! The loop alternates between work for the runtime and the server, and
//! decisions on what comes back. The decisions are steps of a machine: a step
//! takes the outcome of the work that was asked for, and asks for the next.
use crate::float32::Float32;
use crate::guardian::{
    beep_due, beep_is_due, following_beep, guardian_cycle, guardian_cycle_at, next_beep_time,
    GuardianEffect, GuardianInput, GuardianState, PlayspaceArea, CONFIG_MODE_NS,
    GUARDIAN_CYCLE_LEN,
};
use crate::render::{time_left, Stereo};
use vstd::prelude::*;

verus! {

/// How many polls there are in the time of a frame.
pub const POLLS_PER_FRAME: u128 = 3;

/// The longest time span that a clock can tell, in nanoseconds.
pub const LONGEST_SPAN_NS: u128 = 18_446_744_073_709_551_615_999_999_999;

/// One poll.
#[derive(Clone, Copy, Debug, PartialEq, Eq, Structural)]
pub struct Poll {
    /// The time of the runtime, in nanoseconds.
    pub now: u128,
    /// The time that the poll predicts, in nanoseconds.
    pub target: u128,
    /// Where the head is, along the width of the area.
    pub head_x: Float32,
    /// Where the head is, along the depth of the area.
    pub head_z: Float32,
}

/// What the loop is waiting for.
#[derive(Clone, Copy, Debug, PartialEq, Eq, Structural)]
pub enum InputPhase {
    /// Whether to go on.
    Running,
    /// The actions to be synchronised.
    Sync,
    /// The time of the runtime.
    RuntimeTime,
    /// How far to predict.
    PredictionOffset {
        /// The time of the runtime, in nanoseconds.
        now: u128,
    },
    /// The head.
    Head {
        /// The time of the runtime, in nanoseconds.
        now: u128,
        /// The time that the poll predicts, in nanoseconds.
        target: u128,
    },
    /// The views to be sent.
    SendViews(Poll),
    /// The buttons of the guardian.
    GuardianButtons(Poll),
    /// The surroundings to be told of the guardian.
    GuardianEffect(Poll),
    /// The presses to be logged.
    LogPresses(Poll),
    /// The clock, for the alert.
    AlertClock(Poll),
    /// The beep to sound.
    Beep {
        /// The poll.
        poll: Poll,
        /// When the beep was decided on.
        t: u128,
    },
    /// The tracking data to be sent.
    Tracking,
    /// The buttons that have changed.
    ButtonEntries,
    /// The buttons to be sent.
    SendButtons,
    /// The clock, to keep the pace.
    PaceClock,
    /// The time of the next poll.
    Sleep,
    /// Nothing: the loop has ended.
    Stopped,
}

/// What was read of the head.
#[derive(Clone, Copy, Debug)]
pub struct HeadReading<V> {
    /// Where the head is, along the width of the area.
    pub head_x: Float32,
    /// Where the head is, along the depth of the area.
    pub head_z: Float32,
    /// The views of both eyes, if they have changed.
    pub local_views: Option<Stereo<V>>,
}

/// The outcome of work.
#[derive(Clone, Copy, Debug)]
pub enum InputEvent<V> {
    /// Whether the loop is told to run.
    Running(bool),
    /// Whether the actions could be synchronised.
    ActionsSynced(bool),
    /// The time of the runtime, in nanoseconds, if it tells it.
    RuntimeTime(Option<u128>),
    /// How far to predict, in nanoseconds.
    PredictionOffset(u128),
    /// The head, if it was found.
    Head(Option<HeadReading<V>>),
    /// The buttons of the guardian.
    GuardianButtons(GuardianInput),
    /// The time of the clock, in nanoseconds.
    Clock(u128),
    /// The beep sounds.
    BeepPlayed {
        /// How long until the next one, in nanoseconds.
        interval: u128,
    },
    /// How many buttons have changed.
    ButtonEntries(usize),
    /// What was asked for is done.
    Done,
}

/// Why the loop ends.
#[derive(Clone, Copy, Debug, PartialEq, Eq, Structural)]
pub enum StopReason {
    /// It is told to.
    Told,
    /// The actions could not be synchronised.
    SyncFailed,
    /// The runtime has no valid time.
    InvalidTime,
}

/// Work to do next.
#[derive(Clone, Copy, Debug)]
pub enum InputAction<V> {
    /// See whether to go on.
    CheckRunning,
    /// Synchronise the actions.
    SyncActions,
    /// Read the time of the runtime.
    ReadRuntimeTime,
    /// Ask how far to predict.
    ReadPredictionOffset,
    /// Poll the head.
    PollHead {
        /// The time of the runtime, in nanoseconds.
        now: u128,
        /// The time to predict, in nanoseconds.
        target: u128,
        /// The views that were sent last.
        last_view_params: Stereo<V>,
    },
    /// Send the views.
    SendViewParams(Stereo<V>),
    /// Read the buttons of the guardian.
    ReadGuardianButtons,
    /// Show the room, or no longer.
    SetPassthrough(bool),
    /// Make a size of the guardian known.
    SelectMode {
        /// Its place in the cycle.
        mode_idx: usize,
        /// The area to send.
        area: PlayspaceArea,
    },
    /// Log the buttons that have gone down.
    LogPresses,
    /// Read the clock.
    ReadClock,
    /// Sound the beep.
    Beep {
        /// The half extent of the area.
        half: Float32,
        /// Where the head is, along the width of the area.
        head_x: Float32,
        /// Where the head is, along the depth of the area.
        head_z: Float32,
    },
    /// Poll the other devices, and send the tracking data.
    SendTracking {
        /// The time of the runtime, in nanoseconds.
        now: u128,
        /// The time to predict, in nanoseconds.
        target: u128,
    },
    /// Poll the buttons.
    PollButtons,
    /// Send the buttons that have changed.
    SendButtons,
    /// Sleep.
    Sleep {
        /// How long, in nanoseconds.
        duration: u128,
    },
    /// End the loop.
    Stop(StopReason),
    /// Nothing: this outcome was not waited for.
    Unexpected,
}

/// The state of the loop.
#[derive(Clone, Copy, Debug)]
pub struct InputLoop<V> {
    /// Whether the client runs on a headset, and so has a guardian.
    pub headset: bool,
    /// The time of a frame, in nanoseconds.
    pub frame_interval: u128,
    /// When the next poll is due.
    pub deadline: u128,
    /// The views that were sent last.
    pub last_view_params: Stereo<V>,
    /// The guardian.
    pub guardian: GuardianState,
    /// When the next beep is due.
    pub next_beep: u128,
    /// What the loop is waiting for.
    pub phase: InputPhase,
}

/// Whether a phase belongs to the guardian.
pub open spec fn guardian_phase(phase: InputPhase) -> bool {
    match phase {
        InputPhase::GuardianButtons(_) => true,
        InputPhase::GuardianEffect(_) => true,
        InputPhase::LogPresses(_) => true,
        InputPhase::AlertClock(_) => true,
        InputPhase::Beep { .. } => true,
        _ => false,
    }
}

/// What a step leaves behind: the loop, and the work to do next.
pub type InputOutcome<V> = (InputLoop<V>, InputAction<V>);

impl<V> InputLoop<V> {
    /// On a headset the size of the guardian is one of the cycle. Elsewhere the
    /// guardian plays no part.
    pub open spec fn wf(self) -> bool {
        &&& self.headset ==> self.guardian.wf()
        &&& guardian_phase(self.phase) ==> self.headset
    }

    /// The loop at its start.
    pub open spec fn initial(
        headset: bool,
        frame_interval: u128,
        mode_idx: usize,
        initial_views: Stereo<V>,
        alert_start: u128,
        pace_start: u128,
    ) -> InputLoop<V> {
        InputLoop {
            headset,
            frame_interval,
            deadline: pace_start,
            last_view_params: initial_views,
            guardian: GuardianState::initial(mode_idx, alert_start),
            next_beep: alert_start,
            phase: InputPhase::Running,
        }
    }

    /// The loop in another phase.
    pub open spec fn at(self, phase: InputPhase) -> InputLoop<V> {
        InputLoop { phase, ..self }
    }

    /// When the poll after the next one is due.
    pub open spec fn following_deadline(self) -> int {
        self.deadline + self.frame_interval / POLLS_PER_FRAME
    }

    /// On to the tracking data.
    pub open spec fn tracks(self, poll: Poll) -> InputOutcome<V> {
        (
            self.at(InputPhase::Tracking),
            InputAction::SendTracking { now: poll.now, target: poll.target },
        )
    }

    /// On from the head: to the guardian, where there is one.
    pub open spec fn leaves_head(self, poll: Poll) -> InputOutcome<V> {
        if self.headset {
            (self.at(InputPhase::GuardianButtons(poll)), InputAction::ReadGuardianButtons)
        } else {
            self.tracks(poll)
        }
    }

    /// On from the log: to the alert, where there is an area.
    pub open spec fn leaves_log(self, poll: Poll) -> InputOutcome<V> {
        if guardian_cycle_at(self.guardian.mode_idx as int) is Some {
            (self.at(InputPhase::AlertClock(poll)), InputAction::ReadClock)
        } else {
            self.tracks(poll)
        }
    }

    /// On from the guardian: what it brought about first, then the log.
    pub open spec fn leaves_guardian(self, poll: Poll, effect: GuardianEffect) -> InputOutcome<V> {
        match effect {
            GuardianEffect::SetPassthrough(on) => (
                self.at(InputPhase::GuardianEffect(poll)),
                InputAction::SetPassthrough(on),
            ),
            GuardianEffect::SelectMode { mode_idx, area } => (
                self.at(InputPhase::GuardianEffect(poll)),
                InputAction::SelectMode { mode_idx, area },
            ),
            GuardianEffect::Nothing => (
                self.at(InputPhase::LogPresses(poll)),
                InputAction::LogPresses,
            ),
        }
    }

    /// On from the alert: to the beep if it is due.
    pub open spec fn leaves_alert(self, poll: Poll, t: u128) -> InputOutcome<V> {
        let idx = self.guardian.mode_idx as int;
        if beep_is_due(idx, poll.head_x, poll.head_z, t, self.next_beep) {
            (
                self.at(InputPhase::Beep { poll, t }),
                InputAction::Beep {
                    half: guardian_cycle_at(idx)->0,
                    head_x: poll.head_x,
                    head_z: poll.head_z,
                },
            )
        } else {
            self.tracks(poll)
        }
    }

    /// On from the buttons: the next poll is due a third of a frame later.
    pub open spec fn paces(self) -> InputOutcome<V> {
        (
            InputLoop {
                deadline: self.following_deadline() as u128,
                phase: InputPhase::PaceClock,
                ..self
            },
            InputAction::ReadClock,
        )
    }

    /// The end of the loop.
    pub open spec fn stops(self, reason: StopReason) -> InputOutcome<V> {
        (self.at(InputPhase::Stopped), InputAction::Stop(reason))
    }

    /// What a step leaves behind. A poll without a head starts over at once. An
    /// outcome that was not waited for changes nothing.
    pub open spec fn outcome(self, event: InputEvent<V>) -> InputOutcome<V> {
        match (self.phase, event) {
            (InputPhase::Running, InputEvent::Running(on)) => if on {
                (self.at(InputPhase::Sync), InputAction::SyncActions)
            } else {
                self.stops(StopReason::Told)
            },
            (InputPhase::Sync, InputEvent::ActionsSynced(ok)) => if ok {
                (self.at(InputPhase::RuntimeTime), InputAction::ReadRuntimeTime)
            } else {
                self.stops(StopReason::SyncFailed)
            },
            (InputPhase::RuntimeTime, InputEvent::RuntimeTime(time)) => match time {
                Some(now) => (
                    self.at(InputPhase::PredictionOffset { now }),
                    InputAction::ReadPredictionOffset,
                ),
                None => self.stops(StopReason::InvalidTime),
            },
            (InputPhase::PredictionOffset { now }, InputEvent::PredictionOffset(offset)) => {
                let target = (now + offset) as u128;
                (
                    self.at(InputPhase::Head { now, target }),
                    InputAction::PollHead { now, target, last_view_params: self.last_view_params },
                )
            },
            (InputPhase::Head { now, target }, InputEvent::Head(head)) => match head {
                Some(reading) => {
                    let poll = Poll {
                        now,
                        target,
                        head_x: reading.head_x,
                        head_z: reading.head_z,
                    };
                    match reading.local_views {
                        Some(views) => (
                            InputLoop {
                                last_view_params: views,
                                phase: InputPhase::SendViews(poll),
                                ..self
                            },
                            InputAction::SendViewParams(views),
                        ),
                        None => self.leaves_head(poll),
                    }
                },
                None => (self.at(InputPhase::Running), InputAction::CheckRunning),
            },
            (InputPhase::SendViews(poll), InputEvent::Done) => self.leaves_head(poll),
            (InputPhase::GuardianButtons(poll), InputEvent::GuardianButtons(input)) => {
                let stepped = InputLoop { guardian: self.guardian.after(input), ..self };
                stepped.leaves_guardian(poll, self.guardian.effect(input))
            },
            (InputPhase::GuardianEffect(poll), InputEvent::Done) => (
                self.at(InputPhase::LogPresses(poll)),
                InputAction::LogPresses,
            ),
            (InputPhase::LogPresses(poll), InputEvent::Done) => self.leaves_log(poll),
            (InputPhase::AlertClock(poll), InputEvent::Clock(t)) => self.leaves_alert(poll, t),
            (InputPhase::Beep { poll, t }, InputEvent::BeepPlayed { interval }) => {
                let next_beep = following_beep(self.next_beep, t, interval) as u128;
                (InputLoop { next_beep, ..self }).tracks(poll)
            },
            (InputPhase::Tracking, InputEvent::Done) => (
                self.at(InputPhase::ButtonEntries),
                InputAction::PollButtons,
            ),
            (InputPhase::ButtonEntries, InputEvent::ButtonEntries(count)) => if count > 0 {
                (self.at(InputPhase::SendButtons), InputAction::SendButtons)
            } else {
                self.paces()
            },
            (InputPhase::SendButtons, InputEvent::Done) => self.paces(),
            (InputPhase::PaceClock, InputEvent::Clock(now)) => (
                self.at(InputPhase::Sleep),
                InputAction::Sleep { duration: time_left(self.deadline, now) },
            ),
            (InputPhase::Sleep, InputEvent::Done) => (
                self.at(InputPhase::Running),
                InputAction::CheckRunning,
            ),
            _ => (self, InputAction::Unexpected),
        }
    }

    /// Whether the times that come with an outcome, and those that follow from
    /// it, lie within what can be counted.
    pub open spec fn accepts(self, event: InputEvent<V>) -> bool {
        match (self.phase, event) {
            (InputPhase::PredictionOffset { now }, InputEvent::PredictionOffset(offset)) => now
                + offset <= LONGEST_SPAN_NS,
            (InputPhase::GuardianButtons(_), InputEvent::GuardianButtons(input)) => input.t
                + CONFIG_MODE_NS <= u128::MAX,
            (InputPhase::Beep { t, .. }, InputEvent::BeepPlayed { interval }) => {
                &&& t + interval <= u128::MAX
                &&& self.next_beep + interval <= u128::MAX
            },
            (InputPhase::ButtonEntries, InputEvent::ButtonEntries(count)) => count > 0
                || self.following_deadline() <= u128::MAX,
            (InputPhase::SendButtons, InputEvent::Done) => self.following_deadline() <= u128::MAX,
            _ => true,
        }
    }
}

impl<V: Copy> InputLoop<V> {
    /// A loop that is about to start, with the size of the guardian in force,
    /// the views to start from, and the times from which the alert and the
    /// polls count.
    pub fn new(
        headset: bool,
        frame_interval: u128,
        mode_idx: usize,
        initial_views: Stereo<V>,
        alert_start: u128,
        pace_start: u128,
    ) -> (state: InputLoop<V>)
        requires
            headset ==> mode_idx < GUARDIAN_CYCLE_LEN,
        ensures
            state.wf(),
            state == InputLoop::initial(
                headset,
                frame_interval,
                mode_idx,
                initial_views,
                alert_start,
                pace_start,
            ),
    {
        InputLoop {
            headset,
            frame_interval,
            deadline: pace_start,
            last_view_params: initial_views,
            guardian: GuardianState::new(mode_idx, alert_start),
            next_beep: alert_start,
            phase: InputPhase::Running,
        }
    }

    /// Goes on to another phase.
    fn enter(&mut self, phase: InputPhase, action: InputAction<V>) -> (next: InputAction<V>)
        ensures
            *final(self) == old(self).at(phase),
            next == action,
    {
        self.phase = phase;
        action
    }

    /// Goes on to the tracking data.
    fn track(&mut self, poll: Poll) -> (next: InputAction<V>)
        ensures
            (*final(self), next) == old(self).tracks(poll),
    {
        self.enter(
            InputPhase::Tracking,
            InputAction::SendTracking { now: poll.now, target: poll.target },
        )
    }

    /// Goes on from the head.
    fn leave_head(&mut self, poll: Poll) -> (next: InputAction<V>)
        ensures
            (*final(self), next) == old(self).leaves_head(poll),
    {
        if self.headset {
            self.enter(InputPhase::GuardianButtons(poll), InputAction::ReadGuardianButtons)
        } else {
            self.track(poll)
        }
    }

    /// Takes what was read of the head.
    fn take_head(&mut self, now: u128, target: u128, reading: HeadReading<V>) -> (next: InputAction<
        V,
    >)
        requires
            old(self).phase == (InputPhase::Head { now, target }),
        ensures
            (*final(self), next) == old(self).outcome(InputEvent::Head(Some(reading))),
    {
        let poll = Poll { now, target, head_x: reading.head_x, head_z: reading.head_z };
        match reading.local_views {
            Some(views) => {
                self.last_view_params = views;
                self.enter(InputPhase::SendViews(poll), InputAction::SendViewParams(views))
            },
            None => self.leave_head(poll),
        }
    }

    /// Takes a reading of the buttons of the guardian.
    fn take_guardian_buttons(&mut self, poll: Poll, input: GuardianInput) -> (next: InputAction<V>)
        requires
            old(self).wf(),
            old(self).phase == InputPhase::GuardianButtons(poll),
            input.t + CONFIG_MODE_NS <= u128::MAX,
        ensures
            (*final(self), next) == old(self).outcome(InputEvent::GuardianButtons(input)),
    {
        match self.guardian.step(input) {
            GuardianEffect::SetPassthrough(on) => self.enter(
                InputPhase::GuardianEffect(poll),
                InputAction::SetPassthrough(on),
            ),
            GuardianEffect::SelectMode { mode_idx, area } => self.enter(
                InputPhase::GuardianEffect(poll),
                InputAction::SelectMode { mode_idx, area },
            ),
            GuardianEffect::Nothing => self.enter(
                InputPhase::LogPresses(poll),
                InputAction::LogPresses,
            ),
        }
    }

    /// Goes on from the log.
    fn leave_log(&mut self, poll: Poll) -> (next: InputAction<V>)
        requires
            old(self).guardian.wf(),
        ensures
            (*final(self), next) == old(self).leaves_log(poll),
    {
        if guardian_cycle(self.guardian.mode_idx).is_some() {
            self.enter(InputPhase::AlertClock(poll), InputAction::ReadClock)
        } else {
            self.track(poll)
        }
    }

    /// Decides on the alert.
    fn leave_alert(&mut self, poll: Poll, t: u128) -> (next: InputAction<V>)
        requires
            old(self).guardian.wf(),
        ensures
            (*final(self), next) == old(self).leaves_alert(poll, t),
    {
        let idx: usize = self.guardian.mode_idx;
        match guardian_cycle(idx) {
            Some(half) => {
                if beep_due(idx, poll.head_x, poll.head_z, t, self.next_beep) {
                    self.enter(
                        InputPhase::Beep { poll, t },
                        InputAction::Beep { half, head_x: poll.head_x, head_z: poll.head_z },
                    )
                } else {
                    self.track(poll)
                }
            },
            None => self.track(poll),
        }
    }

    /// Sets the time of the next poll.
    fn pace(&mut self) -> (next: InputAction<V>)
        requires
            old(self).following_deadline() <= u128::MAX,
        ensures
            (*final(self), next) == old(self).paces(),
    {
        self.deadline = self.deadline + self.frame_interval / POLLS_PER_FRAME;
        self.enter(InputPhase::PaceClock, InputAction::ReadClock)
    }

    /// Ends the loop.
    fn stop(&mut self, reason: StopReason) -> (next: InputAction<V>)
        ensures
            (*final(self), next) == old(self).stops(reason),
    {
        self.enter(InputPhase::Stopped, InputAction::Stop(reason))
    }

    /// Takes the outcome of the work that was asked for, and asks for the next.
    pub fn step(&mut self, event: InputEvent<V>) -> (next: InputAction<V>)
        requires
            old(self).wf(),
            old(self).accepts(event),
        ensures
            (*final(self), next) == old(self).outcome(event),
            final(self).wf(),
    {
        match (self.phase, event) {
            (InputPhase::Running, InputEvent::Running(on)) => {
                if on {
                    self.enter(InputPhase::Sync, InputAction::SyncActions)
                } else {
                    self.stop(StopReason::Told)
                }
            },
            (InputPhase::Sync, InputEvent::ActionsSynced(ok)) => {
                if ok {
                    self.enter(InputPhase::RuntimeTime, InputAction::ReadRuntimeTime)
                } else {
                    self.stop(StopReason::SyncFailed)
                }
            },
            (InputPhase::RuntimeTime, InputEvent::RuntimeTime(time)) => {
                match time {
                    Some(now) => self.enter(
                        InputPhase::PredictionOffset { now },
                        InputAction::ReadPredictionOffset,
                    ),
                    None => self.stop(StopReason::InvalidTime),
                }
            },
            (InputPhase::PredictionOffset { now }, InputEvent::PredictionOffset(offset)) => {
                let target: u128 = now + offset;
                let last_view_params = self.last_view_params;
                self.enter(
                    InputPhase::Head { now, target },
                    InputAction::PollHead { now, target, last_view_params },
                )
            },
            (InputPhase::Head { now, target }, InputEvent::Head(head)) => {
                match head {
                    Some(reading) => self.take_head(now, target, reading),
                    None => self.enter(InputPhase::Running, InputAction::CheckRunning),
                }
            },
            (InputPhase::SendViews(poll), InputEvent::Done) => self.leave_head(poll),
            (InputPhase::GuardianButtons(poll), InputEvent::GuardianButtons(input)) => {
                self.take_guardian_buttons(poll, input)
            },
            (InputPhase::GuardianEffect(poll), InputEvent::Done) => {
                self.enter(InputPhase::LogPresses(poll), InputAction::LogPresses)
            },
            (InputPhase::LogPresses(poll), InputEvent::Done) => self.leave_log(poll),
            (InputPhase::AlertClock(poll), InputEvent::Clock(t)) => self.leave_alert(poll, t),
            (InputPhase::Beep { poll, t }, InputEvent::BeepPlayed { interval }) => {
                self.next_beep = next_beep_time(self.next_beep, t, interval);
                self.track(poll)
            },
            (InputPhase::Tracking, InputEvent::Done) => {
                self.enter(InputPhase::ButtonEntries, InputAction::PollButtons)
            },
            (InputPhase::ButtonEntries, InputEvent::ButtonEntries(count)) => {
                if count > 0 {
                    self.enter(InputPhase::SendButtons, InputAction::SendButtons)
                } else {
                    self.pace()
                }
            },
            (InputPhase::SendButtons, InputEvent::Done) => self.pace(),
            (InputPhase::PaceClock, InputEvent::Clock(now)) => {
                let duration: u128 = self.deadline.saturating_sub(now);
                self.enter(InputPhase::Sleep, InputAction::Sleep { duration })
            },
            (InputPhase::Sleep, InputEvent::Done) => {
                self.enter(InputPhase::Running, InputAction::CheckRunning)
            },
            _ => InputAction::Unexpected,
        }
    }
}

} // verus!
