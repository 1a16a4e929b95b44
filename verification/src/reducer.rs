//! The state machine: how each action changes the sequencer's state.

use crate::action::Action;
use crate::seq_lemmas::{lemma_filter_all, lemma_filter_membership};
use crate::state::{
    contains_octave, GlobalState, GlobalStateView, Note, NoteView, Player, NOTE_COUNT,
};
use vstd::prelude::*;

verus! {

/// The test that keeps every row but `y`.
pub open spec fn other_than(y: usize) -> spec_fn(usize) -> bool {
    |row: usize| row != y
}

/// The rows of a step after row `y` was toggled: without `y` where it was
/// among them, with `y` at the end where it was not.
pub open spec fn toggled(octaves: Seq<usize>, y: usize) -> Seq<usize> {
    if octaves.contains(y) {
        octaves.filter(other_than(y))
    } else {
        octaves.push(y)
    }
}

/// The step counter after one tick: it wraps to 0 at the largest value.
pub open spec fn next_interval(interval: usize) -> usize {
    if interval == usize::MAX {
        0
    } else {
        (interval + 1) as usize
    }
}

/// The state that follows `state` on `action`.
///
/// A toggle changes one step of the active layer, and nothing where the
/// active section, the active layer or the column does not exist. The step's
/// length becomes 1 whichever way the row went. The selections take any
/// position, also one that no section or layer stands at.
pub open spec fn reduce(state: GlobalStateView, action: Action) -> GlobalStateView {
    match action {
        Action::Noop => state,
        Action::GridToggle { x, y } => {
            if state.resolves(x as int) {
                state.with_active_note(
                    x as int,
                    NoteView {
                        octaves: toggled(state.active_layer().notes[x as int].octaves, y as usize),
                        length: 1,
                    },
                )
            } else {
                state
            }
        },
        Action::LayerSelect { pos } => GlobalStateView {
            player: Player { active_layer_index: pos as usize, ..state.player },
            ..state
        },
        Action::PlayModeChange(play_mode) => GlobalStateView {
            player: Player { play_mode, ..state.player },
            ..state
        },
        Action::SectionSelect { pos } => GlobalStateView {
            player: Player { active_section_index: pos as usize, ..state.player },
            ..state
        },
        Action::TimeInterval => GlobalStateView {
            player: Player { interval: next_interval(state.player.interval), ..state.player },
            ..state
        },
    }
}

/// The rows of a step after row `y` was toggled.
fn toggle_octave(octaves: &Vec<usize>, y: usize) -> (result: Vec<usize>)
    ensures
        result@ == toggled(octaves@, y),
{
    let mut result: Vec<usize> = Vec::new();
    let present = contains_octave(octaves, y);
    let mut i: usize = 0;
    while i < octaves.len()
        invariant
            i <= octaves.len(),
            present ==> result@ == octaves@.take(i as int).filter(other_than(y)),
            !present ==> result@ == octaves@.take(i as int),
        decreases octaves.len() - i,
    {
        proof {
            reveal(Seq::filter);
            assert(octaves@.take(i + 1).drop_last() =~= octaves@.take(i as int));
        }
        if !present || octaves[i] != y {
            result.push(octaves[i]);
        }
        i += 1;
    }
    assert(octaves@.take(i as int) =~= octaves@);
    if !present {
        result.push(y);
    }
    result
}

/// Folds one action into the state.
pub fn reducer(state: GlobalState, action: Action) -> (next: GlobalState)
    ensures
        next@ == reduce(state@, action),
{
    let ghost before = state@;
    let mut next = state;
    match action {
        Action::Noop => {},
        Action::LayerSelect { pos } => {
            next.player.active_layer_index = pos as usize;
        },
        Action::GridToggle { x, y } => {
            let section_index = next.player.active_section_index;
            let layer_index = next.player.active_layer_index;
            let column = x as usize;
            if section_index < next.sections.len() && layer_index
                < next.sections[section_index].layers.len() && column < NOTE_COUNT {
                let octaves = toggle_octave(
                    &next.sections[section_index].layers[layer_index].notes[column].octaves,
                    y as usize,
                );
                next.sections[section_index].layers[layer_index].notes[column] = Note {
                    octaves,
                    length: 1,
                };
                proof {
                    let expected = reduce(before, action);
                    let si = section_index as int;
                    let li = layer_index as int;
                    assert forall|i: int| 0 <= i < expected.sections.len() implies next@.sections[i]
                        == expected.sections[i] by {
                        if i == si {
                            assert forall|j: int|
                                0 <= j < expected.sections[si].layers.len() implies next@.sections[si].layers[j]
                                == expected.sections[si].layers[j] by {
                                if j == li {
                                    assert(next@.sections[si].layers[li].notes
                                        =~= expected.sections[si].layers[li].notes);
                                }
                            }
                            assert(next@.sections[si].layers =~= expected.sections[si].layers);
                        }
                    }
                    assert(next@.sections =~= expected.sections);
                }
            }
        },
        Action::PlayModeChange(play_mode) => {
            next.player.play_mode = play_mode;
        },
        Action::SectionSelect { pos } => {
            next.player.active_section_index = pos as usize;
        },
        Action::TimeInterval => {
            next.player.interval = next.player.interval.wrapping_add(1);
        },
    }
    next
}

/// Toggling a row changes whether the step lights it, and no other row.
pub proof fn lemma_toggled_rows(octaves: Seq<usize>, y: usize, row: usize)
    ensures
        toggled(octaves, y).contains(row) <==> if row == y {
            !octaves.contains(row)
        } else {
            octaves.contains(row)
        },
{
    if octaves.contains(y) {
        lemma_filter_membership(octaves, other_than(y), row);
    } else {
        let pushed = octaves.push(y);
        if pushed.contains(row) {
            let i = choose|i: int| 0 <= i < pushed.len() && pushed[i] == row;
            if i < octaves.len() {
                assert(octaves[i] == row);
            }
        }
        if row == y {
            assert(pushed[octaves.len() as int] == y);
        } else if octaves.contains(row) {
            let i = choose|i: int| 0 <= i < octaves.len() && octaves[i] == row;
            assert(pushed[i] == row);
        }
    }
}

/// Toggling the same row twice gives the rows back as a set, and as the very
/// sequence where the row was not lit before.
pub proof fn lemma_toggled_twice(octaves: Seq<usize>, y: usize)
    ensures
        toggled(toggled(octaves, y), y).to_set() == octaves.to_set(),
        !octaves.contains(y) ==> toggled(toggled(octaves, y), y) == octaves,
{
    let once = toggled(octaves, y);
    let twice = toggled(once, y);
    assert forall|row: usize| twice.contains(row) <==> octaves.contains(row) by {
        lemma_toggled_rows(octaves, y, row);
        lemma_toggled_rows(once, y, row);
    }
    assert(twice.to_set() =~= octaves.to_set());
    if !octaves.contains(y) {
        lemma_toggled_rows(octaves, y, y);
        reveal(Seq::filter);
        assert(once.drop_last() =~= octaves);
        assert forall|i: int| 0 <= i < octaves.len() implies other_than(y)(
            #[trigger] octaves[i],
        ) by {
            assert(octaves.contains(octaves[i]));
        }
        lemma_filter_all(octaves, other_than(y));
    }
}

/// Where the active step exists, replacing it twice is replacing it once with
/// the second step, and the replaced step is the one found afterwards.
pub proof fn lemma_with_active_note(state: GlobalStateView, x: int, first: NoteView, second: NoteView)
    requires
        state.resolves(x),
    ensures
        state.with_active_note(x, first).resolves(x),
        state.with_active_note(x, first).player == state.player,
        state.with_active_note(x, first).active_layer().notes[x] == first,
        state.with_active_note(x, first).with_active_note(x, second) == state.with_active_note(
            x,
            second,
        ),
{
    let one = state.with_active_note(x, first);
    let two = one.with_active_note(x, second);
    let direct = state.with_active_note(x, second);
    let si = state.player.active_section_index as int;
    let li = state.player.active_layer_index as int;
    assert(two.sections[si].layers[li].notes =~= direct.sections[si].layers[li].notes);
    assert(two.sections[si].layers =~= direct.sections[si].layers);
    assert(two.sections =~= direct.sections);
}

/// Reducing the same toggle twice in a row gives back every step of the
/// state, the toggled one as far as its rows go: that step lights the same set
/// of rows as before (the same sequence, where the row was not lit before),
/// and its length is 1 whatever it was. Where the toggle does not resolve, the
/// state is unchanged.
pub proof fn lemma_toggle_twice(state: GlobalStateView, x: u32, y: u32)
    ensures
        ({
            let action = Action::GridToggle { x, y };
            let twice = reduce(reduce(state, action), action);
            let before = state.active_layer().notes[x as int];
            let after = twice.active_layer().notes[x as int];
            if state.resolves(x as int) {
                &&& twice == state.with_active_note(x as int, after)
                &&& after.rows() == before.rows()
                &&& after.length == 1
                &&& !before.octaves.contains(y as usize) ==> after.octaves == before.octaves
            } else {
                twice == state
            }
        }),
{
    if state.resolves(x as int) {
        let before = state.active_layer().notes[x as int];
        let first = NoteView { octaves: toggled(before.octaves, y as usize), length: 1 };
        let second = NoteView { octaves: toggled(first.octaves, y as usize), length: 1 };
        lemma_with_active_note(state, x as int, first, second);
        lemma_with_active_note(state, x as int, second, second);
        lemma_toggled_twice(before.octaves, y as usize);
    }
}

/// No action makes a step inconsistent: a state in which every empty step
/// lights no row is followed by such a state.
pub proof fn lemma_reduce_keeps_consistency(state: GlobalStateView, action: Action)
    requires
        state.consistent(),
    ensures
        reduce(state, action).consistent(),
{
    let next = reduce(state, action);
    assert forall|s: int, l: int, n: int|
        0 <= s < next.sections.len() && 0 <= l < next.sections[s].layers.len() && 0 <= n
            < next.sections[s].layers[l].notes.len() implies (
    #[trigger] next.sections[s].layers[l].notes[n]).consistent() by {
        assert(state.sections[s].layers[l].notes[n].consistent());
    }
}

/// No action changes the shape of the arrangement: a well-formed state is
/// followed by a well-formed state with as many sections.
pub proof fn lemma_reduce_keeps_shape(state: GlobalStateView, action: Action)
    requires
        state.well_formed(),
    ensures
        reduce(state, action).well_formed(),
        reduce(state, action).sections.len() == state.sections.len(),
{
    let next = reduce(state, action);
    assert forall|s: int| 0 <= s < next.sections.len() implies (
    #[trigger] next.sections[s]).well_formed() by {
        assert(state.sections[s].well_formed());
        assert forall|l: int| 0 <= l < next.sections[s].layers.len() implies (
        #[trigger] next.sections[s].layers[l]).well_formed() by {
            assert(state.sections[s].layers[l].well_formed());
        }
    }
}

/// Only a toggle changes the arrangement, and only a tick changes the step
/// counter. A tick below the largest value raises the counter by one.
pub proof fn lemma_reduce_frame(state: GlobalStateView, action: Action)
    ensures
        !(action is GridToggle) ==> reduce(state, action).sections == state.sections,
        !(action is TimeInterval) ==> reduce(state, action).player.interval
            == state.player.interval,
        action is TimeInterval && state.player.interval < usize::MAX ==> reduce(
            state,
            action,
        ).player.interval == state.player.interval + 1,
{
}

} // verus!
