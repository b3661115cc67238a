//! Button states, and the moments at which buttons go down.
use std::collections::HashMap;
use vstd::prelude::*;

verus! {

/// What reading the action of a button gave.
#[derive(Clone, Copy, Debug, PartialEq, Eq, Structural)]
pub enum ButtonReading {
    /// A button that is up or down; without a state if it could not be read.
    Binary(Option<bool>),
    /// A button of another kind.
    Other,
}

/// Whether a reading finds a button down.
pub open spec fn reads_down(reading: Option<ButtonReading>) -> bool {
    reading == Some(ButtonReading::Binary(Some(true)))
}

/// Whether a button is known to be down. One that has no action, is of another
/// kind or could not be read counts as up.
pub fn is_down(reading: Option<ButtonReading>) -> (down: bool)
    ensures
        down == reads_down(reading),
{
    match reading {
        Some(ButtonReading::Binary(Some(state))) => state,
        _ => false,
    }
}

/// The buttons whose state a reading tells, each with its state, in the order of
/// the reading. The others, of another kind or not readable, are passed over.
pub open spec fn known_states(readings: Seq<(u64, ButtonReading)>) -> Seq<(u64, bool)>
    decreases readings.len(),
{
    if readings.len() == 0 {
        Seq::empty()
    } else {
        let before = known_states(readings.drop_last());
        match readings.last().1 {
            ButtonReading::Binary(Some(down)) => before.push((readings.last().0, down)),
            _ => before,
        }
    }
}

/// The buttons as they were at the last reading.
pub struct ButtonEdges {
    prev: HashMap<u64, bool>,
}

/// Whether a button was down, as far as anything is known of it.
pub open spec fn was_down(prev: Map<u64, bool>, id: u64) -> bool {
    prev.contains_key(id) && prev[id]
}

/// What is remembered after a reading of some buttons.
pub open spec fn remembered(prev: Map<u64, bool>, readings: Seq<(u64, bool)>) -> Map<u64, bool>
    decreases readings.len(),
{
    if readings.len() == 0 {
        prev
    } else {
        remembered(prev, readings.drop_last()).insert(readings.last().0, readings.last().1)
    }
}

/// The buttons that a reading finds down and that were up before, in the order
/// of the reading.
pub open spec fn went_down(prev: Map<u64, bool>, readings: Seq<(u64, bool)>) -> Seq<u64>
    decreases readings.len(),
{
    if readings.len() == 0 {
        Seq::empty()
    } else {
        let before = readings.drop_last();
        let (id, down) = readings.last();
        if down && !was_down(remembered(prev, before), id) {
            went_down(prev, before).push(id)
        } else {
            went_down(prev, before)
        }
    }
}

impl View for ButtonEdges {
    type V = Map<u64, bool>;

    closed spec fn view(&self) -> Map<u64, bool> {
        self.prev@
    }
}

impl ButtonEdges {
    /// Nothing is known of any button.
    pub fn new() -> (edges: ButtonEdges)
        ensures
            edges@ == Map::<u64, bool>::empty(),
    {
        ButtonEdges { prev: HashMap::new() }
    }

    /// Takes a reading of the buttons, and tells which of them have just gone
    /// down. A button whose state is not known stays as it was.
    pub fn update(&mut self, readings: &Vec<(u64, ButtonReading)>) -> (pressed: Vec<u64>)
        ensures
            final(self)@ == remembered(old(self)@, known_states(readings@)),
            pressed@ == went_down(old(self)@, known_states(readings@)),
    {
        broadcast use vstd::std_specs::hash::group_hash_axioms;

        let mut pressed: Vec<u64> = Vec::new();
        let mut i: usize = 0;
        let ghost prev = self@;
        while i < readings.len()
            invariant
                i <= readings.len(),
                self@ == remembered(prev, known_states(readings@.take(i as int))),
                pressed@ == went_down(prev, known_states(readings@.take(i as int))),
            decreases readings.len() - i,
        {
            let id: u64 = readings[i].0;
            let ghost before = known_states(readings@.take(i as int));
            assert(readings@.take(i + 1).drop_last() =~= readings@.take(i as int));
            if let ButtonReading::Binary(Some(down)) = readings[i].1 {
                let was = match self.prev.get(&id) {
                    Some(state) => *state,
                    None => false,
                };
                if down && !was {
                    pressed.push(id);
                }
                self.prev.insert(id, down);
                assert(before.push((id, down)).drop_last() =~= before);
            }
            i = i + 1;
        }
        assert(readings@.take(i as int) =~= readings@);
        pressed
    }
}

/// Whether every button occurs once in a reading.
pub open spec fn each_once(readings: Seq<(u64, bool)>) -> bool {
    forall|i: int, j: int|
        0 <= i < j < readings.len() ==> (#[trigger] readings[i]).0 != (#[trigger] readings[j]).0
}

/// A button that a reading does not mention is remembered as it was.
proof fn lemma_unmentioned_stays(prev: Map<u64, bool>, readings: Seq<(u64, bool)>, id: u64)
    requires
        forall|i: int| 0 <= i < readings.len() ==> (#[trigger] readings[i]).0 != id,
    ensures
        remembered(prev, readings).contains_key(id) == prev.contains_key(id),
        prev.contains_key(id) ==> remembered(prev, readings)[id] == prev[id],
    decreases readings.len(),
{
    if readings.len() > 0 {
        let before = readings.drop_last();
        assert forall|i: int| 0 <= i < before.len() implies (#[trigger] before[i]).0 != id by {
            assert(before[i] == readings[i]);
        }
        assert(readings[readings.len() - 1].0 != id);
        lemma_unmentioned_stays(prev, before, id);
    }
}

/// A press is told once: the buttons told are those that the reading finds down
/// and that were up at the one before.
pub proof fn law_press_is_told_once(prev: Map<u64, bool>, readings: Seq<(u64, bool)>, id: u64)
    requires
        each_once(readings),
    ensures
        went_down(prev, readings).contains(id) == (readings.contains((id, true)) && !was_down(
            prev,
            id,
        )),
        readings.contains((id, true)) ==> was_down(remembered(prev, readings), id),
    decreases readings.len(),
{
    if readings.len() > 0 {
        let before = readings.drop_last();
        let (last, down) = readings.last();
        assert(each_once(before)) by {
            assert forall|i: int, j: int| 0 <= i < j < before.len() implies (
            #[trigger] before[i]).0 != (#[trigger] before[j]).0 by {
                assert(before[i] == readings[i] && before[j] == readings[j]);
            }
        }
        law_press_is_told_once(prev, before, id);
        assert(readings =~= before.push((last, down)));
        assert forall|i: int| 0 <= i < before.len() implies (#[trigger] before[i]).0 != last by {
            assert(before[i] == readings[i]);
            assert(readings[readings.len() - 1].0 == last);
        }
        lemma_unmentioned_stays(prev, before, last);
        let told = went_down(prev, before);
        if readings.contains((id, true)) && !before.contains((id, true)) {
            let i = choose|i: int| 0 <= i < readings.len() && readings[i] == (id, true);
            if i < before.len() {
                assert(before[i] == (id, true));
            }
            assert((last, down) == (id, true));
        }
        if before.contains((id, true)) {
            let i = choose|i: int| 0 <= i < before.len() && before[i] == (id, true);
            assert(readings[i] == (id, true));
            assert(last != id);
        }
        if down && !was_down(prev, last) {
            assert(told.push(last)[told.len() as int] == last);
            if told.contains(id) {
                let i = choose|i: int| 0 <= i < told.len() && told[i] == id;
                assert(told.push(last)[i] == id);
            }
            assert(told.push(last).contains(id) == (told.contains(id) || last == id));
        }
        assert(readings[readings.len() - 1] == (last, down));
    }
}

/// Whether every button occurs once in a raw reading.
pub open spec fn each_read_once(readings: Seq<(u64, ButtonReading)>) -> bool {
    forall|i: int, j: int|
        0 <= i < j < readings.len() ==> (#[trigger] readings[i]).0 != (#[trigger] readings[j]).0
}

/// The states that a reading tells are those of the buttons that are up or down,
/// and of no others.
proof fn lemma_known_states(readings: Seq<(u64, ButtonReading)>, id: u64, down: bool)
    ensures
        known_states(readings).contains((id, down)) <==> readings.contains(
            (id, ButtonReading::Binary(Some(down))),
        ),
    decreases readings.len(),
{
    if readings.len() > 0 {
        let before = readings.drop_last();
        let known = known_states(before);
        let wanted = (id, ButtonReading::Binary(Some(down)));
        lemma_known_states(before, id, down);
        assert(readings =~= before.push(readings.last()));
        assert(readings.contains(wanted) <==> before.contains(wanted) || readings.last()
            == wanted) by {
            if before.contains(wanted) {
                let i = choose|i: int| 0 <= i < before.len() && before[i] == wanted;
                assert(readings[i] == wanted);
            }
            if readings.last() == wanted {
                assert(readings[readings.len() - 1] == wanted);
            }
            if readings.contains(wanted) && readings.last() != wanted {
                let i = choose|i: int| 0 <= i < readings.len() && readings[i] == wanted;
                assert(before[i] == wanted);
            }
        }
        if let ButtonReading::Binary(Some(state)) = readings.last().1 {
            let last = (readings.last().0, state);
            assert(known.push(last).contains((id, down)) <==> known.contains((id, down)) || last
                == (id, down)) by {
                assert(known.push(last)[known.len() as int] == last);
                if known.contains((id, down)) {
                    let i = choose|i: int| 0 <= i < known.len() && known[i] == (id, down);
                    assert(known.push(last)[i] == (id, down));
                }
                if known.push(last).contains((id, down)) && last != (id, down) {
                    let i = choose|i: int|
                        0 <= i < known.push(last).len() && known.push(last)[i] == (id, down);
                    assert(known[i] == (id, down));
                }
            }
        }
    }
}

/// A button whose state a reading tells occurs in the reading.
proof fn lemma_known_is_read(readings: Seq<(u64, ButtonReading)>, i: int)
    requires
        0 <= i < known_states(readings).len(),
    ensures
        readings.contains(
            (known_states(readings)[i].0, ButtonReading::Binary(Some(known_states(readings)[i].1))),
        ),
{
    let (id, down) = known_states(readings)[i];
    assert(known_states(readings).contains((id, down)));
    lemma_known_states(readings, id, down);
}

/// What is told once in a reading is known once.
proof fn lemma_known_once(readings: Seq<(u64, ButtonReading)>)
    requires
        each_read_once(readings),
    ensures
        each_once(known_states(readings)),
    decreases readings.len(),
{
    if readings.len() > 0 {
        let before = readings.drop_last();
        assert(each_read_once(before)) by {
            assert forall|i: int, j: int| 0 <= i < j < before.len() implies (
            #[trigger] before[i]).0 != (#[trigger] before[j]).0 by {
                assert(before[i] == readings[i] && before[j] == readings[j]);
            }
        }
        lemma_known_once(before);
        let known = known_states(before);
        assert forall|i: int| 0 <= i < known.len() implies (#[trigger] known[i]).0
            != readings.last().0 by {
            lemma_known_is_read(before, i);
            let wanted = (known[i].0, ButtonReading::Binary(Some(known[i].1)));
            let k = choose|k: int| 0 <= k < before.len() && before[k] == wanted;
            assert(readings[k].0 != readings[readings.len() - 1].0);
        }
    }
}

/// A reading is remembered as it is: a button that it finds down is remembered
/// down, one that it finds up is remembered up, and of every other nothing
/// changes.
proof fn lemma_last_state_is_remembered(prev: Map<u64, bool>, states: Seq<(u64, bool)>, id: u64)
    requires
        each_once(states),
    ensures
        forall|down: bool| #[trigger]
            states.contains((id, down)) ==> remembered(prev, states).contains_key(id)
                && remembered(prev, states)[id] == down,
    decreases states.len(),
{
    if states.len() > 0 {
        let before = states.drop_last();
        assert(each_once(before)) by {
            assert forall|i: int, j: int| 0 <= i < j < before.len() implies (
            #[trigger] before[i]).0 != (#[trigger] before[j]).0 by {
                assert(before[i] == states[i] && before[j] == states[j]);
            }
        }
        lemma_last_state_is_remembered(prev, before, id);
        assert forall|down: bool| #[trigger] states.contains((id, down)) implies remembered(
            prev,
            states,
        ).contains_key(id) && remembered(prev, states)[id] == down by {
            let i = choose|i: int| 0 <= i < states.len() && states[i] == (id, down);
            if i < before.len() {
                assert(before[i] == (id, down));
                assert(before.contains((id, down)));
                assert(states[i].0 != states[states.len() - 1].0);
            }
        }
    }
}

/// What taking a reading does to each button, by what the reading holds of it. A
/// press is told exactly of a button that is found down and was not down before;
/// found down it is remembered down, found up it is remembered up; not readable,
/// of another kind or not in the reading at all, it stays as it was and is not
/// told.
pub proof fn law_reading_decides_on_each_button(
    prev: Map<u64, bool>,
    readings: Seq<(u64, ButtonReading)>,
    id: u64,
)
    requires
        each_read_once(readings),
    ensures
        ({
            let told = went_down(prev, known_states(readings));
            let after = remembered(prev, known_states(readings));
            let down = readings.contains((id, ButtonReading::Binary(Some(true))));
            let up = readings.contains((id, ButtonReading::Binary(Some(false))));
            &&& told.contains(id) <==> down && !(prev.contains_key(id) && prev[id])
            &&& down ==> after.contains_key(id) && after[id]
            &&& up ==> after.contains_key(id) && !after[id]
            &&& !down && !up ==> {
                &&& after.contains_key(id) == prev.contains_key(id)
                &&& prev.contains_key(id) ==> after[id] == prev[id]
            }
        }),
{
    let states = known_states(readings);
    lemma_known_once(readings);
    lemma_known_states(readings, id, true);
    lemma_known_states(readings, id, false);
    law_press_is_told_once(prev, states, id);
    lemma_last_state_is_remembered(prev, states, id);
    if !states.contains((id, true)) && !states.contains((id, false)) {
        assert forall|i: int| 0 <= i < states.len() implies (#[trigger] states[i]).0 != id by {
            assert(states.contains(states[i]));
            assert(states[i] == (states[i].0, states[i].1));
        }
        lemma_unmentioned_stays(prev, states, id);
    }
}

/// Presses are told in the order of the reading: the places at which they were
/// read, one for each that is told.
pub open spec fn told_in_order(
    told: Seq<u64>,
    readings: Seq<(u64, ButtonReading)>,
    places: Seq<int>,
) -> bool {
    &&& places.len() == told.len()
    &&& forall|k: int|
        0 <= k < places.len() ==> 0 <= #[trigger] places[k] < readings.len()
            && readings[places[k]] == (told[k], ButtonReading::Binary(Some(true)))
    &&& forall|a: int, b: int|
        0 <= a < b < places.len() ==> #[trigger] places[a] < #[trigger] places[b]
}

/// Presses are told in the order of the reading, and each once.
pub proof fn law_presses_are_told_in_order(
    prev: Map<u64, bool>,
    readings: Seq<(u64, ButtonReading)>,
) -> (places: Seq<int>)
    ensures
        told_in_order(went_down(prev, known_states(readings)), readings, places),
    decreases readings.len(),
{
    if readings.len() == 0 {
        Seq::empty()
    } else {
        let before = readings.drop_last();
        let places = law_presses_are_told_in_order(prev, before);
        let known = known_states(before);
        assert forall|k: int| 0 <= k < places.len() implies 0 <= #[trigger] places[k]
            < readings.len() && readings[places[k]] == before[places[k]] by {}
        match readings.last().1 {
            ButtonReading::Binary(Some(down)) => {
                let last = (readings.last().0, down);
                assert(known.push(last).drop_last() =~= known);
                if down && !was_down(remembered(prev, known), last.0) {
                    places.push(readings.len() - 1)
                } else {
                    places
                }
            },
            _ => places,
        }
    }
}

/// A button is down exactly if it has an action that is up or down, could be read,
/// and was found down. The log and the guardian see the same: a button that is
/// down, read alone for the first time, is told.
pub proof fn law_down_is_read_and_found_down(id: u64, reading: ButtonReading)
    ensures
        !reads_down(None),
        reads_down(Some(reading)) <==> (reading matches ButtonReading::Binary(Some(state))
            && state),
        reads_down(Some(reading)) <==> went_down(
            Map::empty(),
            known_states(seq![(id, reading)]),
        ) == seq![id],
{
    let readings = seq![(id, reading)];
    assert(readings.drop_last() =~= Seq::empty());
    reveal_with_fuel(known_states, 2);
    assert(known_states(readings.drop_last()) == Seq::<(u64, bool)>::empty());
    if let ButtonReading::Binary(Some(state)) = reading {
        let known = Seq::<(u64, bool)>::empty().push((id, state));
        assert(known_states(readings) == known);
        assert(known.drop_last() =~= Seq::empty());
        reveal_with_fuel(went_down, 2);
        if state {
            assert(went_down(Map::empty(), known) =~= seq![id]);
        } else {
            assert(went_down(Map::empty(), known).len() == 0);
        }
    } else {
        assert(went_down(Map::empty(), known_states(readings)).len() == 0);
    }
}

} // verus!
