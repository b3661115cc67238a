//! What holds of the guardian over any number of button readings.
use crate::float32::{
    infinity_in_units, lemma_doubled, lemma_magnitude_orders_like_bits, lemma_pow2_product,
    one_in_units, Float32,
};
use crate::guardian::{
    beep_is_due, following_beep, guardian_cycle_at, half_extent_mm, is_outside, next_mode,
    one_millimetre, playspace_area, starting_size, GuardianEffect, GuardianInput, GuardianState,
    PlayspaceArea,
    CONFIG_MODE_NS, ENTRY_HOLD_NS, GUARDIAN_CYCLE_LEN,
};
use vstd::arithmetic::power2::pow2;
use vstd::prelude::*;

verus! {

/// The state after a sequence of readings.
pub open spec fn run(state: GuardianState, inputs: Seq<GuardianInput>) -> GuardianState
    decreases inputs.len(),
{
    if inputs.len() == 0 {
        state
    } else {
        run(state, inputs.drop_last()).after(inputs.last())
    }
}

/// Whether the room is shown after an effect.
pub open spec fn passthrough_after(shown: bool, effect: GuardianEffect) -> bool {
    match effect {
        GuardianEffect::SetPassthrough(on) => on,
        _ => shown,
    }
}

/// Whether the room is shown after a sequence of readings.
pub open spec fn run_passthrough(
    state: GuardianState,
    shown: bool,
    inputs: Seq<GuardianInput>,
) -> bool
    decreases inputs.len(),
{
    if inputs.len() == 0 {
        shown
    } else {
        passthrough_after(
            run_passthrough(state, shown, inputs.drop_last()),
            run(state, inputs.drop_last()).effect(inputs.last()),
        )
    }
}

/// The size that the last announced change left in force.
pub open spec fn run_announced_mode(state: GuardianState, inputs: Seq<GuardianInput>) -> usize
    decreases inputs.len(),
{
    if inputs.len() == 0 {
        state.mode_idx
    } else {
        match run(state, inputs.drop_last()).effect(inputs.last()) {
            GuardianEffect::SelectMode { mode_idx, .. } => mode_idx,
            _ => run_announced_mode(state, inputs.drop_last()),
        }
    }
}

/// Every state that readings lead to is well formed; above all, the size in
/// force is one of the cycle.
pub proof fn law_size_stays_in_cycle(state: GuardianState, inputs: Seq<GuardianInput>)
    requires
        state.wf(),
    ensures
        run(state, inputs).wf(),
        run(state, inputs).mode_idx < GUARDIAN_CYCLE_LEN,
    decreases inputs.len(),
{
    if inputs.len() > 0 {
        law_size_stays_in_cycle(state, inputs.drop_last());
    }
}

/// The room is shown exactly while the configuration mode is on.
pub proof fn law_room_shows_in_config_mode_only(
    state: GuardianState,
    shown: bool,
    inputs: Seq<GuardianInput>,
)
    requires
        shown == state.in_config_mode,
    ensures
        run_passthrough(state, shown, inputs) == run(state, inputs).in_config_mode,
    decreases inputs.len(),
{
    if inputs.len() > 0 {
        law_room_shows_in_config_mode_only(state, shown, inputs.drop_last());
    }
}

/// The surroundings know the size in force: it is the one announced last.
pub proof fn law_announced_size_is_in_force(state: GuardianState, inputs: Seq<GuardianInput>)
    ensures
        run_announced_mode(state, inputs) == run(state, inputs).mode_idx,
    decreases inputs.len(),
{
    if inputs.len() > 0 {
        law_announced_size_is_in_force(state, inputs.drop_last());
    }
}

/// The announced area always belongs to the announced size.
pub proof fn law_announced_area_belongs_to_size(state: GuardianState, input: GuardianInput)
    requires
        state.mode_idx < GUARDIAN_CYCLE_LEN,
    ensures
        state.effect(input) matches GuardianEffect::SelectMode { mode_idx, area } ==> area
            == playspace_area(guardian_cycle_at(mode_idx as int)),
{
}

/// Whether X and Y were held together at every reading from `from` on.
pub open spec fn held_since(inputs: Seq<GuardianInput>, from: int) -> bool {
    &&& 0 <= from < inputs.len()
    &&& forall|j: int| from <= j < inputs.len() ==> #[trigger] inputs[j].x && inputs[j].y
}

/// A hold that has been going on without a break, if it was remembered before
/// the last reading, still has with it.
proof fn lemma_hold_goes_on(state: GuardianState, inputs: Seq<GuardianInput>)
    requires
        inputs.len() > 0,
        run(state, inputs.drop_last()).both_held_since matches Some(start) ==> exists|k: int|
            #[trigger]
            held_since(inputs.drop_last(), k) && inputs.drop_last()[k].t == start,
    ensures
        run(state, inputs.drop_last()).hold_start(inputs.last()) matches Some(start) ==> exists|
            k: int,
        | #[trigger]
            held_since(inputs, k) && inputs[k].t == start,
{
    let before = inputs.drop_last();
    let n = inputs.len() - 1;
    let s = run(state, before);
    if s.hold_start(inputs.last()) is Some {
        let start = s.hold_start(inputs.last())->0;
        assert(inputs.last() == inputs[n]);
        assert(inputs[n].x && inputs[n].y);
        if s.both_held_since is None {
            assert forall|j: int| n <= j < inputs.len() implies #[trigger] inputs[j].x
                && inputs[j].y by {
                assert(j == n);
            }
            assert(held_since(inputs, n) && inputs[n].t == start);
        } else {
            let k = choose|k: int| #[trigger] held_since(before, k) && before[k].t == start;
            assert forall|j: int| k <= j < inputs.len() implies #[trigger] inputs[j].x
                && inputs[j].y by {
                if j < before.len() {
                    assert(before[j] == inputs[j]);
                    assert(before[j].x);
                } else {
                    assert(j == n);
                }
            }
            assert(before[k] == inputs[k]);
            assert(held_since(inputs, k) && inputs[k].t == start);
        }
    }
}

/// While the mode is off, a remembered hold has been going on without a break
/// since the reading at which it began.
proof fn lemma_hold_is_unbroken(state: GuardianState, inputs: Seq<GuardianInput>)
    requires
        !state.in_config_mode,
        state.both_held_since is None,
    ensures
        !run(state, inputs).in_config_mode ==> (run(state, inputs).both_held_since matches Some(
            start,
        ) ==> exists|k: int| #[trigger] held_since(inputs, k) && inputs[k].t == start),
    decreases inputs.len(),
{
    if inputs.len() > 0 {
        let before = inputs.drop_last();
        lemma_hold_is_unbroken(state, before);
        if !run(state, before).in_config_mode {
            lemma_hold_goes_on(state, inputs);
        }
    }
}

/// Nobody gets into the configuration mode by accident: when a reading turns it
/// on, X and Y have been held together at every reading since one at least a
/// second and a half earlier.
pub proof fn law_entry_takes_a_long_hold(
    state: GuardianState,
    inputs: Seq<GuardianInput>,
)
    requires
        !state.in_config_mode,
        state.both_held_since is None,
        inputs.len() > 0,
        !run(state, inputs.drop_last()).in_config_mode,
        run(state, inputs).in_config_mode,
    ensures
        exists|k: int| #[trigger]
            held_since(inputs, k) && inputs.last().checked_at - inputs[k].t >= ENTRY_HOLD_NS,
{
    lemma_hold_is_unbroken(state, inputs.drop_last());
    lemma_hold_goes_on(state, inputs);
}

/// Until the mode comes on, a hold that began with the first reading is
/// remembered.
proof fn lemma_hold_is_remembered(state: GuardianState, inputs: Seq<GuardianInput>)
    requires
        state.wf(),
        !state.in_config_mode,
        state.both_held_since is None,
        held_since(inputs, 0),
        forall|n: int|
            0 <= n <= inputs.len() ==> !(#[trigger] run(state, inputs.take(n))).in_config_mode,
    ensures
        run(state, inputs).both_held_since == Some(inputs[0].t),
        run(state, inputs).wf(),
    decreases inputs.len(),
{
    law_size_stays_in_cycle(state, inputs);
    let before = inputs.drop_last();
    assert(inputs.take(inputs.len() as int) =~= inputs);
    assert(inputs.take(inputs.len() - 1) =~= before);
    assert(!run(state, inputs.take(inputs.len() - 1)).in_config_mode);
    assert(!run(state, inputs.take(inputs.len() as int)).in_config_mode);
    assert(inputs[inputs.len() - 1].x && inputs[inputs.len() - 1].y);
    assert(run(state, inputs) == run(state, before).after(inputs.last()));
    if before.len() > 0 {
        assert(before[0] == inputs[0]);
        assert forall|j: int| 0 <= j < before.len() implies #[trigger] before[j].x
            && before[j].y by {
            assert(before[j] == inputs[j]);
        }
        assert forall|n: int| 0 <= n <= before.len() implies !(#[trigger] run(
            state,
            before.take(n),
        )).in_config_mode by {
            assert(before.take(n) =~= inputs.take(n));
        }
        lemma_hold_is_remembered(state, before);
    } else {
        assert(run(state, before) == state);
    }
}

/// A long enough hold is enough: with X and Y held together at every reading for
/// a second and a half, the configuration mode has come on.
pub proof fn law_long_hold_enters(state: GuardianState, inputs: Seq<GuardianInput>)
    requires
        state.wf(),
        !state.in_config_mode,
        state.both_held_since is None,
        held_since(inputs, 0),
        inputs.last().checked_at - inputs[0].t >= ENTRY_HOLD_NS,
    ensures
        exists|n: int|
            0 <= n <= inputs.len() && (#[trigger] run(state, inputs.take(n))).in_config_mode,
{
    if forall|n: int|
        0 <= n <= inputs.len() ==> !(#[trigger] run(state, inputs.take(n))).in_config_mode {
        let before = inputs.drop_last();
        assert(inputs.take(inputs.len() as int) =~= inputs);
        assert(inputs.take(inputs.len() - 1) =~= before);
        assert(!run(state, inputs.take(inputs.len() - 1)).in_config_mode);
        assert(!run(state, inputs.take(inputs.len() as int)).in_config_mode);
        lemma_hold_is_remembered(state, inputs);
        law_size_stays_in_cycle(state, before);
        assert(run(state, before).enters(inputs.last()));
    }
}

/// The size changes by a tap and by nothing else: entering and leaving the mode
/// keep it, and so does everything that happens while the mode is off.
pub proof fn law_only_a_tap_changes_the_size(state: GuardianState, input: GuardianInput)
    requires
        state.wf(),
    ensures
        !state.taps(input) ==> state.after(input).mode_idx == state.mode_idx,
        state.taps(input) ==> {
            &&& state.in_config_mode
            &&& state.after(input).in_config_mode
            &&& state.after(input).mode_idx == next_mode(state.mode_idx as int)
        },
{
}

/// The buttons that entered the mode do not count as a tap: until a reading
/// finds both of them up, the size stays.
pub proof fn law_entry_hold_is_no_tap(state: GuardianState, inputs: Seq<GuardianInput>)
    requires
        state.wf(),
        !state.in_config_mode || !state.entry_released,
        forall|j: int| 0 <= j < inputs.len() ==> #[trigger] inputs[j].x || inputs[j].y,
    ensures
        run(state, inputs).mode_idx == state.mode_idx,
        !run(state, inputs).in_config_mode || !run(state, inputs).entry_released,
    decreases inputs.len(),
{
    if inputs.len() > 0 {
        let before = inputs.drop_last();
        assert forall|j: int| 0 <= j < before.len() implies #[trigger] before[j].x
            || before[j].y by {
            assert(before[j] == inputs[j]);
        }
        law_entry_hold_is_no_tap(state, before);
        law_size_stays_in_cycle(state, before);
    }
}

/// One tap, one step: X down and up again moves on to the next size, and the
/// mode stays on for another four seconds.
pub proof fn law_tap_selects_next_size(
    state: GuardianState,
    down: GuardianInput,
    up: GuardianInput,
)
    requires
        state.wf(),
        state.in_config_mode,
        state.entry_released,
        !state.x_armed,
        down.x,
        !up.x,
        up.t + CONFIG_MODE_NS <= u128::MAX,
    ensures
        state.after(down).mode_idx == state.mode_idx,
        ({
            let s = state.after(down).after(up);
            &&& s.mode_idx == next_mode(state.mode_idx as int)
            &&& s.in_config_mode
            &&& s.entry_released
            &&& !s.x_armed
            &&& s.config_mode_timeout == up.t + CONFIG_MODE_NS
        }),
{
}

/// Whether a reading is neither the start nor the end of a tap.
pub open spec fn is_quiet(state: GuardianState, input: GuardianInput) -> bool {
    !state.presses(input) && !state.taps(input)
}

/// Four seconds without a tap end the mode, and no less: while no reading is the
/// start or the end of a tap the mode lasts until the first reading at or after
/// the time that was set, whatever buttons are held, and it leaves the size as
/// it was.
pub proof fn law_mode_ends_without_taps(
    state: GuardianState,
    inputs: Seq<GuardianInput>,
    last: GuardianInput,
)
    requires
        state.in_config_mode,
        forall|j: int|
            0 <= j < inputs.len() ==> is_quiet(run(state, inputs.take(j)), #[trigger] inputs[j])
                && inputs[j].t < state.config_mode_timeout,
        is_quiet(run(state, inputs), last),
        last.t >= state.config_mode_timeout,
    ensures
        run(state, inputs).in_config_mode,
        run(state, inputs).mode_idx == state.mode_idx,
        run(state, inputs).config_mode_timeout == state.config_mode_timeout,
        run(state, inputs).effect(last) == GuardianEffect::SetPassthrough(false),
        !run(state, inputs.push(last)).in_config_mode,
        run(state, inputs.push(last)).mode_idx == state.mode_idx,
{
    assert(inputs.push(last).drop_last() =~= inputs);
    lemma_quiet_mode_lasts(state, inputs);
}

/// The mode lasts while no reading is the start or the end of a tap and the time
/// that was set has not come.
proof fn lemma_quiet_mode_lasts(state: GuardianState, inputs: Seq<GuardianInput>)
    requires
        state.in_config_mode,
        forall|j: int|
            0 <= j < inputs.len() ==> is_quiet(run(state, inputs.take(j)), #[trigger] inputs[j])
                && inputs[j].t < state.config_mode_timeout,
    ensures
        run(state, inputs).in_config_mode,
        run(state, inputs).mode_idx == state.mode_idx,
        run(state, inputs).config_mode_timeout == state.config_mode_timeout,
    decreases inputs.len(),
{
    if inputs.len() > 0 {
        let before = inputs.drop_last();
        assert forall|j: int| 0 <= j < before.len() implies is_quiet(
            run(state, before.take(j)),
            #[trigger] before[j],
        ) && before[j].t < state.config_mode_timeout by {
            assert(before.take(j) =~= inputs.take(j));
            assert(before[j] == inputs[j]);
        }
        lemma_quiet_mode_lasts(state, before);
        assert(inputs.take(inputs.len() - 1) =~= before);
        assert(is_quiet(run(state, inputs.take(inputs.len() - 1)), inputs[inputs.len() - 1]));
    }
}

/// When the mode was entered, or X last went down or up for a tap, if any of
/// this happened.
pub open spec fn last_activity(state: GuardianState, inputs: Seq<GuardianInput>) -> Option<u128>
    decreases inputs.len(),
{
    if inputs.len() == 0 {
        None
    } else {
        let before = run(state, inputs.drop_last());
        if before.enters(inputs.last()) || !is_quiet(before, inputs.last()) {
            Some(inputs.last().t)
        } else {
            last_activity(state, inputs.drop_last())
        }
    }
}

/// The time that ends the mode lies four seconds after the reading that entered
/// it, or after the last one at which X went down or up for a tap.
pub proof fn law_timeout_counts_from_last_activity(
    state: GuardianState,
    inputs: Seq<GuardianInput>,
)
    requires
        forall|j: int|
            0 <= j < inputs.len() ==> (#[trigger] inputs[j]).t + CONFIG_MODE_NS <= u128::MAX,
    ensures
        run(state, inputs).config_mode_timeout == match last_activity(state, inputs) {
            Some(t) => t + CONFIG_MODE_NS,
            None => state.config_mode_timeout as int,
        },
    decreases inputs.len(),
{
    if inputs.len() > 0 {
        let before = inputs.drop_last();
        assert forall|j: int| 0 <= j < before.len() implies (#[trigger] before[j]).t
            + CONFIG_MODE_NS <= u128::MAX by {
            assert(before[j] == inputs[j]);
        }
        law_timeout_counts_from_last_activity(state, before);
        assert(inputs.last() == inputs[inputs.len() - 1]);
    }
}

/// How many taps there are in a sequence of readings.
pub open spec fn tap_count(state: GuardianState, inputs: Seq<GuardianInput>) -> nat
    decreases inputs.len(),
{
    if inputs.len() == 0 {
        0
    } else {
        tap_count(state, inputs.drop_last()) + if run(state, inputs.drop_last()).taps(
            inputs.last(),
        ) {
            1nat
        } else {
            0nat
        }
    }
}

/// The sizes that are announced over a sequence of readings, with their areas,
/// in order.
pub open spec fn announcements(state: GuardianState, inputs: Seq<GuardianInput>) -> Seq<
    (usize, PlayspaceArea),
>
    decreases inputs.len(),
{
    if inputs.len() == 0 {
        Seq::empty()
    } else {
        let before = announcements(state, inputs.drop_last());
        match run(state, inputs.drop_last()).effect(inputs.last()) {
            GuardianEffect::SelectMode { mode_idx, area } => before.push((mode_idx, area)),
            _ => before,
        }
    }
}

/// The size that a number of taps leads to.
pub open spec fn size_after_taps(mode_idx: usize, taps: int) -> int {
    (mode_idx + taps) % (GUARDIAN_CYCLE_LEN as int)
}

/// Every tap moves on by one size.
proof fn lemma_taps_add_up(state: GuardianState, inputs: Seq<GuardianInput>)
    requires
        state.wf(),
    ensures
        run(state, inputs).mode_idx == size_after_taps(
            state.mode_idx,
            tap_count(state, inputs) as int,
        ),
    decreases inputs.len(),
{
    if inputs.len() > 0 {
        let before = inputs.drop_last();
        lemma_taps_add_up(state, before);
        law_size_stays_in_cycle(state, before);
        law_only_a_tap_changes_the_size(run(state, before), inputs.last());
    }
}

/// Whether a list of announcements goes through the cycle from the size after
/// `mode_idx` on, each size with its area.
pub open spec fn follows_the_cycle(mode_idx: usize, told: Seq<(usize, PlayspaceArea)>) -> bool {
    forall|i: int|
        0 <= i < told.len() ==> {
            let size = size_after_taps(mode_idx, i + 1);
            &&& (#[trigger] told[i]).0 == size
            &&& told[i].1 == playspace_area(guardian_cycle_at(size))
        }
}

/// Taps go round: every tap moves on by one size, so that as many taps as there
/// are sizes lead back. Every tap announces its size with the area of it, one
/// after the other in the order of the cycle, and nothing else is announced.
pub proof fn law_taps_go_round(state: GuardianState, inputs: Seq<GuardianInput>)
    requires
        state.wf(),
    ensures
        run(state, inputs).mode_idx == size_after_taps(
            state.mode_idx,
            tap_count(state, inputs) as int,
        ),
        tap_count(state, inputs) % (GUARDIAN_CYCLE_LEN as nat) == 0 ==> run(state, inputs).mode_idx
            == state.mode_idx,
        announcements(state, inputs).len() == tap_count(state, inputs),
        follows_the_cycle(state.mode_idx, announcements(state, inputs)),
    decreases inputs.len(),
{
    lemma_taps_add_up(state, inputs);
    if inputs.len() > 0 {
        let before = inputs.drop_last();
        law_taps_go_round(state, before);
        let s = run(state, before);
        if s.taps(inputs.last()) {
            law_size_stays_in_cycle(state, before);
            assert(s.effect(inputs.last()) is SelectMode);
            assert(s.after(inputs.last()) == run(state, inputs));
        }
    }
}

/// The half extents are what their names in millimetres say, and the area that
/// is sent is twice as wide on each axis.
pub proof fn law_area_is_twice_the_half_extent(idx: int)
    requires
        0 <= idx < GUARDIAN_CYCLE_LEN,
    ensures
        guardian_cycle_at(idx) is Some == half_extent_mm(idx) is Some,
        guardian_cycle_at(idx) matches Some(half) ==> {
            let area = playspace_area(Some(half));
            &&& !half.is_not_a_number() && !half.is_negative()
            &&& !area.x.is_not_a_number() && !area.x.is_negative()
            &&& 1000 * half.magnitude() == half_extent_mm(idx)->0 * one_in_units()
            &&& area.x.magnitude() == 2 * half.magnitude()
            &&& area.y == area.x
        },
{
    lemma_pow2_product(126, 23);
    vstd::arithmetic::power2::lemma_pow2_unfold(127);
    vstd::arithmetic::power2::lemma_pow2_unfold(128);
    vstd::arithmetic::power2::lemma_pow2_unfold(129);
    vstd::arithmetic::power2::lemma_pow2_pos(126);
    assert(pow2(127) == 2 * pow2(126) && pow2(128) == 4 * pow2(126) && pow2(129) == 8 * pow2(126));
    assert(one_in_units() == 0x80_0000 * pow2(126));
    if idx > 0 {
        let half = guardian_cycle_at(idx)->0;
        let infinity = Float32 { bits: 0x7f80_0000 };
        lemma_doubled(half);
        lemma_magnitude_orders_like_bits(half.doubled(), infinity);
        assert(infinity.magnitude() == infinity_in_units());
        if idx == 1 {
            assert(half.exponent() == 130 && half.fraction() == 0x20_0000);
            assert(half.magnitude() == 0xa0_0000 * pow2(129));
        } else if idx == 2 {
            assert(half.exponent() == 129 && half.fraction() == 0x70_0000);
            assert(half.magnitude() == 0xf0_0000 * pow2(128));
        } else if idx == 3 {
            assert(half.exponent() == 129 && half.fraction() == 0x20_0000);
            assert(half.magnitude() == 0xa0_0000 * pow2(128));
        } else if idx == 4 {
            assert(half.exponent() == 128 && half.fraction() == 0x20_0000);
            assert(half.magnitude() == 0xa0_0000 * pow2(127));
        } else {
            assert(half.exponent() == 127 && half.fraction() == 0x20_0000);
            assert(half.magnitude() == 0xa0_0000 * pow2(126));
        }
    }
}

/// Where there is no area, each axis is the single nearest to a millimetre: it
/// is off by no more than half the distance between neighbours there.
pub proof fn law_missing_area_is_a_millimetre()
    ensures
        playspace_area(None).x == one_millimetre(),
        playspace_area(None).y == one_millimetre(),
        !one_millimetre().is_not_a_number() && !one_millimetre().is_negative(),
        -1000 * pow2(116) <= 2 * (1000 * one_millimetre().magnitude() - one_in_units()) <= 1000
            * pow2(116),
        (Float32 { bits: (one_millimetre().bits + 1) as u32 }).magnitude()
            == one_millimetre().magnitude() + pow2(116),
{
    lemma_pow2_product(116, 33);
    let unit = pow2(116);
    let successor = Float32 { bits: 0x3a83_1270 };
    assert(one_millimetre().exponent() == 117 && one_millimetre().fraction() == 0x3_126f);
    assert(successor.exponent() == 117 && successor.fraction() == 0x3_1270);
    assert(one_millimetre().magnitude() == 0x83_126f * unit);
    assert(successor.magnitude() == 0x83_1270 * unit);
    assert(one_in_units() == 0x2_0000_0000 * unit);
}

/// Inside the area, and without one, there is never a beep.
pub proof fn law_no_beep_inside(
    mode_idx: int,
    head_x: Float32,
    head_z: Float32,
    t: u128,
    next_beep: u128,
)
    requires
        guardian_cycle_at(mode_idx) matches Some(half) ==> head_x.magnitude() <= half.magnitude()
            && head_z.magnitude() <= half.magnitude(),
    ensures
        !beep_is_due(mode_idx, head_x, head_z, t, next_beep),
{
}

/// Two beeps in a row lie at least an interval apart, and the second one is due
/// as soon as the interval is over.
pub proof fn law_beeps_keep_their_distance(
    mode_idx: int,
    first: (Float32, Float32, u128),
    second: (Float32, Float32, u128),
    next_beep: u128,
    interval: u128,
)
    requires
        beep_is_due(mode_idx, first.0, first.1, first.2, next_beep),
        first.2 + interval <= u128::MAX,
    ensures
        following_beep(next_beep, first.2, interval) == first.2 + interval,
        beep_is_due(
            mode_idx,
            second.0,
            second.1,
            second.2,
            following_beep(next_beep, first.2, interval) as u128,
        ) ==> second.2 >= first.2 + interval,
        (guardian_cycle_at(mode_idx) matches Some(half) && is_outside(half, second.0, second.1)
            && second.2 >= first.2 + interval) ==> beep_is_due(
            mode_idx,
            second.0,
            second.1,
            second.2,
            following_beep(next_beep, first.2, interval) as u128,
        ),
{
}

/// The area of each size in metres: 20, 15, 10, 5 and 2.5 on each axis.
pub proof fn law_areas_in_metres(idx: int)
    requires
        0 < idx < GUARDIAN_CYCLE_LEN,
    ensures
        ({
            let area = playspace_area(guardian_cycle_at(idx));
            &&& !area.x.is_not_a_number() && !area.x.is_negative() && area.y == area.x
            &&& idx == 1 ==> area.x.magnitude() == 20 * one_in_units()
            &&& idx == 2 ==> area.x.magnitude() == 15 * one_in_units()
            &&& idx == 3 ==> area.x.magnitude() == 10 * one_in_units()
            &&& idx == 4 ==> area.x.magnitude() == 5 * one_in_units()
            &&& idx == 5 ==> 2 * area.x.magnitude() == 5 * one_in_units()
        }),
{
    law_area_is_twice_the_half_extent(idx);
}

/// The mode comes on exactly at a reading that finds X and Y down, a second and a
/// half or more after the start of the present hold, and not twice in one hold.
/// It then lasts four seconds, and no tap is under way.
pub proof fn law_hold_turns_the_mode_on(state: GuardianState, input: GuardianInput)
    requires
        !state.in_config_mode,
        input.t + CONFIG_MODE_NS <= u128::MAX,
    ensures
        ({
            let after = state.after(input);
            let start = match state.both_held_since {
                Some(since) => since,
                None => input.t,
            };
            &&& after.in_config_mode <==> {
                &&& input.x && input.y
                &&& !state.entry_consumed
                &&& input.checked_at >= start + 1_500_000_000
            }
            &&& after.in_config_mode ==> {
                &&& state.effect(input) == GuardianEffect::SetPassthrough(true)
                &&& after.config_mode_timeout == input.t + 4_000_000_000
                &&& after.entry_consumed && !after.entry_released && !after.x_armed
            }
            &&& !after.in_config_mode ==> {
                &&& state.effect(input) is Nothing
                &&& after.config_mode_timeout == state.config_mode_timeout
                &&& after.entry_released == state.entry_released
                &&& after.x_armed == state.x_armed
                &&& after.entry_consumed == (state.entry_consumed && input.x && input.y)
            }
            &&& input.x && input.y ==> after.both_held_since == Some(start)
            &&& !input.x || !input.y ==> after.both_held_since is None
            &&& after.mode_idx == state.mode_idx
        }),
{
}

/// In the mode, a reading that finds both buttons up is noticed whenever it
/// comes, and stays noticed: from then on taps count. Nothing else makes them
/// count.
pub proof fn law_release_is_noticed_at_any_time(state: GuardianState, input: GuardianInput)
    requires
        state.in_config_mode,
    ensures
        state.after(input).entry_released <==> state.entry_released || (!input.x && !input.y),
{
}

/// A tap ends when X goes up after it went down: exactly then the next size comes
/// into force and is announced, the first one after the last.
pub proof fn law_tap_ends_when_x_goes_up(state: GuardianState, input: GuardianInput)
    requires
        state.wf(),
        input.t + CONFIG_MODE_NS <= u128::MAX,
    ensures
        ({
            let after = state.after(input);
            &&& state.effect(input) is SelectMode <==> state.x_armed && !input.x
            &&& state.effect(input) matches GuardianEffect::SelectMode { mode_idx, area } ==> {
                &&& mode_idx == if state.mode_idx == 5 {
                    0
                } else {
                    state.mode_idx + 1
                }
                &&& after.mode_idx == mode_idx
                &&& area == playspace_area(guardian_cycle_at(mode_idx as int))
                &&& after.in_config_mode
                &&& after.config_mode_timeout == input.t + 4_000_000_000
            }
            &&& !(state.effect(input) is SelectMode) ==> after.mode_idx == state.mode_idx
        }),
{
}

/// A tap starts when X goes down in the mode once both buttons have been up, and
/// is under way while X stays down and the mode lasts.
pub proof fn law_tap_starts_when_x_goes_down(state: GuardianState, input: GuardianInput)
    requires
        state.wf(),
        input.t + CONFIG_MODE_NS <= u128::MAX,
    ensures
        ({
            let after = state.after(input);
            &&& after.x_armed <==> {
                &&& state.in_config_mode && input.x
                &&& if state.x_armed {
                    input.t < state.config_mode_timeout
                } else {
                    state.entry_released
                }
            }
            &&& after.x_armed && !state.x_armed ==> {
                &&& after.in_config_mode
                &&& after.config_mode_timeout == input.t + 4_000_000_000
                &&& state.effect(input) is Nothing
            }
        }),
{
}

/// The mode goes off exactly at a reading at or after its time that neither
/// starts nor ends a tap. The room is no longer shown, the size stays, and the
/// next entry takes a hold of its own.
pub proof fn law_time_turns_the_mode_off(state: GuardianState, input: GuardianInput)
    requires
        state.wf(),
        state.in_config_mode,
        input.t + CONFIG_MODE_NS <= u128::MAX,
    ensures
        ({
            let after = state.after(input);
            &&& !after.in_config_mode <==> {
                &&& input.t >= state.config_mode_timeout
                &&& input.x == state.x_armed || (input.x && !state.entry_released)
            }
            &&& !after.in_config_mode <==> state.effect(input) == GuardianEffect::SetPassthrough(
                false,
            )
            &&& !after.in_config_mode ==> {
                &&& after.both_held_since is None
                &&& !after.entry_consumed && !after.x_armed
                &&& after.mode_idx == state.mode_idx
                &&& after.config_mode_timeout == state.config_mode_timeout
            }
            &&& after.in_config_mode ==> {
                &&& after.both_held_since == state.both_held_since
                &&& after.entry_consumed == state.entry_consumed
                &&& state.effect(input) is Nothing || state.effect(input) is SelectMode
            }
            &&& after.config_mode_timeout != state.config_mode_timeout ==> after.x_armed
                != state.x_armed
        }),
{
}

/// Whether X is up at every reading, and each comes before a time.
pub open spec fn x_up_before(inputs: Seq<GuardianInput>, end: int) -> bool {
    forall|j: int| 0 <= j < inputs.len() ==> !(#[trigger] inputs[j]).x && inputs[j].t < end
}

/// Whether X is down at every reading, and each comes before a time.
pub open spec fn x_down_before(inputs: Seq<GuardianInput>, end: int) -> bool {
    forall|j: int| 0 <= j < inputs.len() ==> (#[trigger] inputs[j]).x && inputs[j].t < end
}

/// While X stays up and the time has not come, the mode lasts and nothing but the
/// release is noticed.
proof fn lemma_waiting(state: GuardianState, inputs: Seq<GuardianInput>)
    requires
        state.wf(),
        state.in_config_mode,
        state.entry_released,
        !state.x_armed,
        x_up_before(inputs, state.config_mode_timeout as int),
    ensures
        run(state, inputs) == state,
    decreases inputs.len(),
{
    if inputs.len() > 0 {
        let before = inputs.drop_last();
        assert forall|j: int| 0 <= j < before.len() implies !(#[trigger] before[j]).x && before[j].t
            < state.config_mode_timeout by {
            assert(before[j] == inputs[j]);
        }
        lemma_waiting(state, before);
        assert(!inputs[inputs.len() - 1].x);
    }
}

/// While X stays down and the time has not come, the tap is under way and nothing
/// changes.
proof fn lemma_pressing(state: GuardianState, inputs: Seq<GuardianInput>)
    requires
        state.wf(),
        state.in_config_mode,
        state.x_armed,
        x_down_before(inputs, state.config_mode_timeout as int),
    ensures
        run(state, inputs) == state,
    decreases inputs.len(),
{
    if inputs.len() > 0 {
        let before = inputs.drop_last();
        assert forall|j: int| 0 <= j < before.len() implies (#[trigger] before[j]).x && before[j].t
            < state.config_mode_timeout by {
            assert(before[j] == inputs[j]);
        }
        lemma_pressing(state, before);
        assert(inputs[inputs.len() - 1].x);
    }
}

/// After a sequence of readings, another sequence goes on from where it led to.
proof fn lemma_run_goes_on(state: GuardianState, a: Seq<GuardianInput>, b: Seq<GuardianInput>)
    ensures
        run(state, a + b) == run(run(state, a), b),
    decreases b.len(),
{
    if b.len() > 0 {
        lemma_run_goes_on(state, a, b.drop_last());
        assert((a + b).drop_last() =~= a + b.drop_last());
        assert((a + b).last() == b.last());
    } else {
        assert(a + b =~= a);
    }
}

/// A tap after the release selects the next size, whenever in the mode the
/// buttons are let go, however long X is up before it and however long it is held
/// down, as long as the mode lasts: both buttons up, X up for a while, X down
/// for a while, X up.
pub proof fn law_tap_after_release_selects_the_next_size(
    state: GuardianState,
    release: GuardianInput,
    waits: Seq<GuardianInput>,
    down: GuardianInput,
    holds: Seq<GuardianInput>,
    up: GuardianInput,
)
    requires
        state.wf(),
        state.in_config_mode,
        !state.x_armed,
        !release.x && !release.y,
        release.t < state.config_mode_timeout,
        x_up_before(waits, state.config_mode_timeout as int),
        down.x,
        down.t + CONFIG_MODE_NS <= u128::MAX,
        x_down_before(holds, down.t + 4_000_000_000),
        !up.x,
        up.t + CONFIG_MODE_NS <= u128::MAX,
    ensures
        ({
            let before = run(state, seq![release] + waits + seq![down] + holds);
            let next = if state.mode_idx == 5 {
                0usize
            } else {
                (state.mode_idx + 1) as usize
            };
            &&& before.mode_idx == state.mode_idx
            &&& before.effect(up) == GuardianEffect::SelectMode {
                mode_idx: next,
                area: playspace_area(guardian_cycle_at(next as int)),
            }
            &&& before.after(up).mode_idx == next
            &&& before.after(up).in_config_mode
        }),
{
    let released = state.after(release);
    let pressed = released.after(down);
    let one = seq![release];
    let press = seq![down];
    assert(one.drop_last() =~= Seq::empty() && press.drop_last() =~= Seq::empty());
    assert(run(state, one.drop_last()) == state);
    assert(run(state, one) == released);
    lemma_run_goes_on(state, one, waits);
    lemma_waiting(released, waits);
    lemma_run_goes_on(state, one + waits, press);
    assert(run(released, press.drop_last()) == released);
    assert(run(released, press) == pressed);
    lemma_run_goes_on(state, one + waits + press, holds);
    lemma_pressing(pressed, holds);
}

/// The alert warns exactly outside the area that the server was told: where the
/// head lies farther from the centre than half of its extent, on either axis. A
/// coordinate that is not a number is passed over, and without an area there is
/// no alert.
pub proof fn law_alert_warns_outside_the_announced_area(
    mode_idx: int,
    head_x: Float32,
    head_z: Float32,
    t: u128,
    next_beep: u128,
)
    requires
        0 <= mode_idx < GUARDIAN_CYCLE_LEN,
    ensures
        ({
            let width = playspace_area(guardian_cycle_at(mode_idx)).x.magnitude();
            beep_is_due(mode_idx, head_x, head_z, t, next_beep) <==> {
                &&& mode_idx != 0
                &&& t >= next_beep
                &&& {
                    ||| head_x.bits % 0x8000_0000 <= 0x7f80_0000 && 2 * head_x.magnitude() > width
                    ||| head_z.bits % 0x8000_0000 <= 0x7f80_0000 && 2 * head_z.magnitude() > width
                }
            }
        }),
{
    crate::float32_laws::law_patterns_beyond_infinity_are_no_numbers(head_x);
    crate::float32_laws::law_patterns_beyond_infinity_are_no_numbers(head_z);
    if mode_idx > 0 {
        law_area_is_twice_the_half_extent(mode_idx);
    }
}

/// The next beep comes an interval after the later of its own time and the time
/// of the present one.
pub proof fn law_next_beep_follows_the_later_time(next_beep: u128, t: u128, interval: u128)
    ensures
        following_beep(next_beep, t, interval) >= next_beep + interval,
        following_beep(next_beep, t, interval) >= t + interval,
        following_beep(next_beep, t, interval) == next_beep + interval || following_beep(
            next_beep,
            t,
            interval,
        ) == t + interval,
{
}

/// At the start the size is the given one, the mode is off and nothing is held:
/// whatever readings come, the mode is off until X and Y have been held together
/// for a second and a half, and the size stays until then.
pub proof fn law_start_is_quiet(mode_idx: usize, now: u128, inputs: Seq<GuardianInput>)
    requires
        mode_idx < GUARDIAN_CYCLE_LEN,
        forall|i: int, j: int|
            0 <= i < inputs.len() && 0 <= j < inputs.len() ==> (#[trigger] inputs[i]).checked_at
                < (#[trigger] inputs[j]).t + 1_500_000_000,
    ensures
        GuardianState::initial(mode_idx, now).wf(),
        !run(GuardianState::initial(mode_idx, now), inputs).in_config_mode,
        run(GuardianState::initial(mode_idx, now), inputs).mode_idx == mode_idx,
        run(GuardianState::initial(mode_idx, now), inputs).config_mode_timeout == now,
        run(GuardianState::initial(mode_idx, now), inputs).both_held_since is Some ==> inputs.len()
            > 0,
    decreases inputs.len(),
{
    let state = GuardianState::initial(mode_idx, now);
    if inputs.len() > 0 {
        let before = inputs.drop_last();
        assert forall|i: int, j: int|
            0 <= i < before.len() && 0 <= j < before.len() implies (#[trigger] before[i]).checked_at
            < (#[trigger] before[j]).t + 1_500_000_000 by {
            assert(before[i] == inputs[i] && before[j] == inputs[j]);
        }
        law_start_is_quiet(mode_idx, now, before);
        if run(state, inputs).in_config_mode {
            law_entry_takes_a_long_hold(state, inputs);
            let k = choose|k: int| #[trigger]
                held_since(inputs, k) && inputs.last().checked_at - inputs[k].t >= ENTRY_HOLD_NS;
            assert(inputs[inputs.len() - 1].checked_at < inputs[k].t + 1_500_000_000);
        }
    }
}

/// The area of any half extent is a square of twice that, as far as singles
/// reach.
pub proof fn law_area_doubles_any_half_extent(half: Float32)
    requires
        !half.is_not_a_number(),
        2 * half.magnitude() <= infinity_in_units(),
    ensures
        ({
            let area = playspace_area(Some(half));
            &&& area.x.magnitude() == 2 * half.magnitude()
            &&& area.x.is_negative() == half.is_negative()
            &&& !area.x.is_not_a_number()
            &&& area.y == area.x
        }),
{
    lemma_doubled(half);
}

/// A headset starts with 15 by 15 metres, other clients with 20 by 20.
pub proof fn law_sessions_start_with_their_areas()
    ensures
        playspace_area(guardian_cycle_at(starting_size(true) as int)).x.magnitude() == 15
            * one_in_units(),
        playspace_area(guardian_cycle_at(starting_size(false) as int)).x.magnitude() == 20
            * one_in_units(),
{
    law_areas_in_metres(1);
    law_areas_in_metres(2);
}

} // verus!
