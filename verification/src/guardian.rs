//! The guardian: the area that the player should stay in.
//!
//! Holding X and Y together for a second and a half enters the configuration
//! mode, which shows the room through the headset. In that mode every tap of X
//! moves on to the next size of the area. Four seconds without a tap end the
//! mode; the size stays. Outside the area a beep sounds, again and again.
use crate::float32::Float32;
use vstd::prelude::*;

verus! {

/// How many sizes there are to choose from.
pub const GUARDIAN_CYCLE_LEN: usize = 6;

/// The size that a headset starts with: 15 by 15 metres.
pub const DEFAULT_GUARDIAN_IDX: usize = 2;

/// The size that other clients start with: 20 by 20 metres.
pub const DESKTOP_GUARDIAN_IDX: usize = 1;

/// How long X and Y are held to enter the configuration mode, in nanoseconds.
pub const ENTRY_HOLD_NS: u128 = 1_500_000_000;

/// How long the configuration mode lasts without a tap, in nanoseconds.
pub const CONFIG_MODE_NS: u128 = 4_000_000_000;

/// The half extent of each size, from the centre to an edge, in metres. `None`
/// is the first choice: no area, and no alert.
pub open spec fn guardian_cycle_at(idx: int) -> Option<Float32> {
    if idx == 1 {
        Some(Float32 { bits: 0x4120_0000 })
    } else if idx == 2 {
        Some(Float32 { bits: 0x40f0_0000 })
    } else if idx == 3 {
        Some(Float32 { bits: 0x40a0_0000 })
    } else if idx == 4 {
        Some(Float32 { bits: 0x4020_0000 })
    } else if idx == 5 {
        Some(Float32 { bits: 0x3fa0_0000 })
    } else {
        None
    }
}

/// The half extent of each size in millimetres.
pub open spec fn half_extent_mm(idx: int) -> Option<nat> {
    if idx == 1 {
        Some(10000)
    } else if idx == 2 {
        Some(7500)
    } else if idx == 3 {
        Some(5000)
    } else if idx == 4 {
        Some(2500)
    } else if idx == 5 {
        Some(1250)
    } else {
        None
    }
}

/// The size that follows in the cycle.
pub open spec fn next_mode(idx: int) -> int {
    (idx + 1) % (GUARDIAN_CYCLE_LEN as int)
}

/// The extents of the area that the server is told, in metres.
#[derive(Clone, Copy, Debug, PartialEq, Eq, Structural)]
pub struct PlayspaceArea {
    /// Width.
    pub x: Float32,
    /// Depth.
    pub y: Float32,
}

/// A tenth of a centimetre: the extent that stands for no area at all.
pub open spec fn one_millimetre() -> Float32 {
    Float32 { bits: 0x3a83_126f }
}

/// The area that belongs to a half extent: twice as much on each axis, and a
/// millimetre where there is none.
pub open spec fn playspace_area(mode: Option<Float32>) -> PlayspaceArea {
    match mode {
        Some(half) => PlayspaceArea { x: half.doubled(), y: half.doubled() },
        None => PlayspaceArea { x: one_millimetre(), y: one_millimetre() },
    }
}

/// The half extent of the size at `idx`, in metres.
pub fn guardian_cycle(idx: usize) -> (half: Option<Float32>)
    requires
        idx < GUARDIAN_CYCLE_LEN,
    ensures
        half == guardian_cycle_at(idx as int),
{
    if idx == 1 {
        Some(Float32 { bits: 0x4120_0000 })
    } else if idx == 2 {
        Some(Float32 { bits: 0x40f0_0000 })
    } else if idx == 3 {
        Some(Float32 { bits: 0x40a0_0000 })
    } else if idx == 4 {
        Some(Float32 { bits: 0x4020_0000 })
    } else if idx == 5 {
        Some(Float32 { bits: 0x3fa0_0000 })
    } else {
        None
    }
}

/// The area to send for a size.
pub fn apply_guardian_mode(mode: Option<Float32>) -> (area: PlayspaceArea)
    ensures
        area == playspace_area(mode),
{
    match mode {
        None => PlayspaceArea {
            x: Float32 { bits: 0x3a83_126f },
            y: Float32 { bits: 0x3a83_126f },
        },
        Some(half) => {
            let full = half.double();
            PlayspaceArea { x: full, y: full }
        },
    }
}

/// The size that a session starts with.
pub open spec fn starting_size(headset: bool) -> usize {
    if headset {
        DEFAULT_GUARDIAN_IDX
    } else {
        DESKTOP_GUARDIAN_IDX
    }
}

/// The size that a session starts with.
pub fn initial_guardian_mode(headset: bool) -> (idx: usize)
    ensures
        idx == starting_size(headset),
        idx < GUARDIAN_CYCLE_LEN,
{
    if headset {
        DEFAULT_GUARDIAN_IDX
    } else {
        DESKTOP_GUARDIAN_IDX
    }
}

/// One reading of the buttons.
#[derive(Clone, Copy, Debug)]
pub struct GuardianInput {
    /// Whether X is down.
    pub x: bool,
    /// Whether Y is down.
    pub y: bool,
    /// When the buttons were read, in nanoseconds.
    pub t: u128,
    /// When the length of a hold is measured: a reading of the same clock that
    /// was taken after `t`.
    pub checked_at: u128,
}

/// What the surroundings must be told after a reading.
#[derive(Clone, Copy, Debug, PartialEq, Eq, Structural)]
pub enum GuardianEffect {
    /// Nothing.
    Nothing,
    /// The room is to be shown, or no longer.
    SetPassthrough(bool),
    /// Another size is in force.
    SelectMode {
        /// Its place in the cycle.
        mode_idx: usize,
        /// The area to send.
        area: PlayspaceArea,
    },
}

/// The state of the configuration mode.
#[derive(Clone, Copy, Debug, PartialEq, Eq, Structural)]
pub struct GuardianState {
    /// The size in force.
    pub mode_idx: usize,
    /// Whether the configuration mode is on.
    pub in_config_mode: bool,
    /// When the configuration mode ends unless X is tapped.
    pub config_mode_timeout: u128,
    /// Since when X and Y have been held together.
    pub both_held_since: Option<u128>,
    /// Whether the present hold has entered the mode already.
    pub entry_consumed: bool,
    /// Whether both buttons have been let go since the entry.
    pub entry_released: bool,
    /// Whether X is down for a tap.
    pub x_armed: bool,
}

impl GuardianState {
    /// What holds between any two readings.
    pub open spec fn wf(self) -> bool {
        &&& self.mode_idx < GUARDIAN_CYCLE_LEN
        &&& !self.in_config_mode ==> !self.entry_consumed
        &&& self.x_armed ==> self.in_config_mode && self.entry_released
    }

    /// The start of the hold that a reading belongs to.
    pub open spec fn hold_start(self, input: GuardianInput) -> Option<u128> {
        if !(input.x && input.y) {
            None
        } else if self.both_held_since is Some {
            self.both_held_since
        } else {
            Some(input.t)
        }
    }

    /// Whether a reading turns the configuration mode on.
    pub open spec fn enters(self, input: GuardianInput) -> bool {
        &&& !self.in_config_mode
        &&& !self.entry_consumed
        &&& self.hold_start(input) matches Some(start)
        &&& input.checked_at - start >= ENTRY_HOLD_NS
    }

    /// Whether taps count at a reading: both buttons are up, or have been since
    /// the entry.
    pub open spec fn accepts_taps(self, input: GuardianInput) -> bool {
        self.in_config_mode && (self.entry_released || (!input.x && !input.y))
    }

    /// Whether a reading is the start of a tap.
    pub open spec fn presses(self, input: GuardianInput) -> bool {
        self.accepts_taps(input) && input.x && !self.x_armed
    }

    /// Whether a reading is the end of a tap.
    pub open spec fn taps(self, input: GuardianInput) -> bool {
        self.accepts_taps(input) && !input.x && self.x_armed
    }

    /// Whether a reading turns the configuration mode off.
    pub open spec fn times_out(self, input: GuardianInput) -> bool {
        &&& self.in_config_mode
        &&& !self.presses(input)
        &&& !self.taps(input)
        &&& input.t >= self.config_mode_timeout
    }

    /// The state after a reading.
    pub open spec fn after(self, input: GuardianInput) -> GuardianState {
        GuardianState {
            mode_idx: if self.taps(input) {
                next_mode(self.mode_idx as int) as usize
            } else {
                self.mode_idx
            },
            in_config_mode: self.enters(input) || (self.in_config_mode && !self.times_out(input)),
            config_mode_timeout: if self.enters(input) || self.presses(input) || self.taps(input) {
                (input.t + CONFIG_MODE_NS) as u128
            } else {
                self.config_mode_timeout
            },
            both_held_since: if self.times_out(input) {
                None
            } else if self.in_config_mode {
                self.both_held_since
            } else {
                self.hold_start(input)
            },
            entry_consumed: if self.in_config_mode {
                self.entry_consumed && !self.times_out(input)
            } else {
                input.x && input.y && (self.entry_consumed || self.enters(input))
            },
            entry_released: if self.in_config_mode {
                self.accepts_taps(input)
            } else {
                self.entry_released && !self.enters(input)
            },
            x_armed: if self.enters(input) || self.taps(input) || self.times_out(input) {
                false
            } else {
                self.x_armed || self.presses(input)
            },
        }
    }

    /// What a reading brings about.
    pub open spec fn effect(self, input: GuardianInput) -> GuardianEffect {
        if self.enters(input) {
            GuardianEffect::SetPassthrough(true)
        } else if self.times_out(input) {
            GuardianEffect::SetPassthrough(false)
        } else if self.taps(input) {
            GuardianEffect::SelectMode {
                mode_idx: next_mode(self.mode_idx as int) as usize,
                area: playspace_area(guardian_cycle_at(next_mode(self.mode_idx as int))),
            }
        } else {
            GuardianEffect::Nothing
        }
    }

    /// The state at the start: the mode is off, and nothing is held.
    pub open spec fn initial(mode_idx: usize, now: u128) -> GuardianState {
        GuardianState {
            mode_idx,
            in_config_mode: false,
            config_mode_timeout: now,
            both_held_since: None,
            entry_consumed: false,
            entry_released: false,
            x_armed: false,
        }
    }

    /// The state at the start, with a size in force.
    pub fn new(mode_idx: usize, now: u128) -> (state: GuardianState)
        ensures
            state == GuardianState::initial(mode_idx, now),
    {
        GuardianState {
            mode_idx,
            in_config_mode: false,
            config_mode_timeout: now,
            both_held_since: None,
            entry_consumed: false,
            entry_released: false,
            x_armed: false,
        }
    }

    /// Takes one reading of the buttons.
    pub fn step(&mut self, input: GuardianInput) -> (effect: GuardianEffect)
        requires
            old(self).mode_idx < GUARDIAN_CYCLE_LEN,
            input.t + CONFIG_MODE_NS <= u128::MAX,
        ensures
            *final(self) == old(self).after(input),
            effect == old(self).effect(input),
    {
        let t: u128 = input.t;
        if !self.in_config_mode {
            if input.x && input.y {
                let held: u128 = match self.both_held_since {
                    Some(since) => since,
                    None => t,
                };
                self.both_held_since = Some(held);
                if !self.entry_consumed && input.checked_at.saturating_sub(held) >= ENTRY_HOLD_NS {
                    self.in_config_mode = true;
                    self.entry_consumed = true;
                    self.entry_released = false;
                    self.x_armed = false;
                    self.config_mode_timeout = t + CONFIG_MODE_NS;
                    return GuardianEffect::SetPassthrough(true);
                }
            } else {
                self.both_held_since = None;
                self.entry_consumed = false;
            }
            return GuardianEffect::Nothing;
        }
        let mut effect = GuardianEffect::Nothing;
        if !self.entry_released && !input.x && !input.y {
            self.entry_released = true;
        }
        if self.entry_released {
            if input.x && !self.x_armed {
                self.x_armed = true;
                self.config_mode_timeout = t + CONFIG_MODE_NS;
            } else if !input.x && self.x_armed {
                self.mode_idx = (self.mode_idx + 1) % GUARDIAN_CYCLE_LEN;
                effect = GuardianEffect::SelectMode {
                    mode_idx: self.mode_idx,
                    area: apply_guardian_mode(guardian_cycle(self.mode_idx)),
                };
                self.x_armed = false;
                self.config_mode_timeout = t + CONFIG_MODE_NS;
            }
        }
        if t >= self.config_mode_timeout {
            self.in_config_mode = false;
            self.x_armed = false;
            self.entry_consumed = false;
            self.both_held_since = None;
            effect = GuardianEffect::SetPassthrough(false);
        }
        effect
    }
}

/// Whether the head has left the area, seen from above. A coordinate that is
/// not a number counts as inside.
pub open spec fn is_outside(half: Float32, head_x: Float32, head_z: Float32) -> bool {
    head_x.lies_beyond(half) || head_z.lies_beyond(half)
}

/// Whether the alert is to sound now: the head has left the area, and the time
/// of the next beep has come.
pub open spec fn beep_is_due(
    mode_idx: int,
    head_x: Float32,
    head_z: Float32,
    t: u128,
    next_beep: u128,
) -> bool {
    &&& guardian_cycle_at(mode_idx) matches Some(half)
    &&& is_outside(half, head_x, head_z)
    &&& t >= next_beep
}

/// The time of the beep after the one that sounds at `t`: an interval after the
/// later of `t` and the time that was set for it.
pub open spec fn following_beep(next_beep: u128, t: u128, interval: u128) -> int {
    if next_beep >= t {
        next_beep + interval
    } else {
        t + interval
    }
}

/// Decides whether the alert sounds, for a head at the given coordinates.
pub fn beep_due(
    mode_idx: usize,
    head_x: Float32,
    head_z: Float32,
    t: u128,
    next_beep: u128,
) -> (due: bool)
    requires
        mode_idx < GUARDIAN_CYCLE_LEN,
    ensures
        due == beep_is_due(mode_idx as int, head_x, head_z, t, next_beep),
{
    match guardian_cycle(mode_idx) {
        None => false,
        Some(half) => {
            (head_x.magnitude_exceeds(&half) || head_z.magnitude_exceeds(&half)) && t >= next_beep
        },
    }
}

/// Sets the time of the following beep.
pub fn next_beep_time(next_beep: u128, t: u128, interval: u128) -> (next: u128)
    requires
        next_beep + interval <= u128::MAX,
        t + interval <= u128::MAX,
    ensures
        next == following_beep(next_beep, t, interval),
{
    let after_schedule: u128 = next_beep + interval;
    let after_now: u128 = t + interval;
    if after_schedule >= after_now {
        after_schedule
    } else {
        after_now
    }
}

} // verus!
