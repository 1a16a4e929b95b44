//! The sequencer's musical state and its mathematical model.

use vstd::prelude::*;

verus! {

/// Number of steps in a layer, and of rows that a step can light.
pub const NOTE_COUNT: usize = 8;

/// Transport mode.
#[derive(Clone, Copy, Debug, PartialEq, Eq, Structural)]
pub enum PlayMode {
    Paused,
    Playing,
    Stopped,
}

impl Default for PlayMode {
    fn default() -> (mode: PlayMode)
        ensures
            mode == PlayMode::Stopped,
    {
        PlayMode::Stopped
    }
}

/// One step of one layer: the rows that it lights and the number of columns
/// that it spans. A step of length 0 is empty.
#[derive(Clone, Debug, PartialEq, Eq)]
pub struct Note {
    pub octaves: Vec<usize>,
    pub length: usize,
}

/// A Layer represents a collection of notes for an instrument, which can
/// overlap with other layers or be sequenced against other layers.
#[derive(Clone, Debug, PartialEq, Eq)]
pub struct Layer {
    pub notes: [Note; 8],
    pub instrument: String,
}

/// A Player represents the play state: the transport mode, the layer and the
/// section that the grid shows, and the step counter that the clock advances.
#[derive(Clone, Copy, Debug, PartialEq, Eq, Structural)]
pub struct Player {
    pub play_mode: PlayMode,
    pub active_layer_index: usize,
    pub active_section_index: usize,
    pub interval: usize,
}

impl Default for Player {
    fn default() -> (player: Player)
        ensures
            player == (Player {
                play_mode: PlayMode::Stopped,
                active_layer_index: 0,
                active_section_index: 0,
                interval: 0,
            }),
    {
        Player {
            play_mode: PlayMode::Stopped,
            active_layer_index: 0,
            active_section_index: 0,
            interval: 0,
        }
    }
}

/// Sections contain one or more layers. All of the layers in a section are
/// played in parallel. Sections can be sequenced together.
#[derive(Clone, Debug, PartialEq, Eq)]
pub struct Section {
    pub layers: Vec<Layer>,
}

/// The whole state: the arrangement and the player.
#[derive(Clone, Debug, PartialEq, Eq)]
pub struct GlobalState {
    pub sections: Vec<Section>,
    pub player: Player,
}

/// Model of a [`Note`].
pub struct NoteView {
    pub octaves: Seq<usize>,
    pub length: usize,
}

/// Model of a [`Layer`].
pub struct LayerView {
    pub notes: Seq<NoteView>,
    pub instrument: Seq<char>,
}

/// Model of a [`Section`].
pub struct SectionView {
    pub layers: Seq<LayerView>,
}

/// Model of a [`GlobalState`].
pub struct GlobalStateView {
    pub sections: Seq<SectionView>,
    pub player: Player,
}

impl NoteView {
    /// The rows that the step lights, as a set.
    pub open spec fn rows(self) -> Set<usize> {
        self.octaves.to_set()
    }

    /// Whether the step is active and lights `row`.
    pub open spec fn sounds(self, row: usize) -> bool {
        self.length > 0 && self.octaves.contains(row)
    }

    /// An empty step lights no row.
    pub open spec fn consistent(self) -> bool {
        self.length == 0 ==> self.octaves.len() == 0
    }
}

impl LayerView {
    /// A layer has eight steps.
    pub open spec fn well_formed(self) -> bool {
        self.notes.len() == NOTE_COUNT
    }
}

impl SectionView {
    /// The layers can be counted and each is well formed.
    pub open spec fn well_formed(self) -> bool {
        &&& self.layers.len() <= usize::MAX
        &&& forall|l: int| 0 <= l < self.layers.len() ==> (#[trigger] self.layers[l]).well_formed()
    }
}

impl GlobalStateView {
    /// Whether this is the model of a state that can exist: the sections can
    /// be counted and each is well formed.
    pub open spec fn well_formed(self) -> bool {
        &&& self.sections.len() <= usize::MAX
        &&& forall|s: int|
            0 <= s < self.sections.len() ==> (#[trigger] self.sections[s]).well_formed()
    }

    /// Whether the active section, the active layer in it and column `x` in
    /// that layer all exist.
    pub open spec fn resolves(self, x: int) -> bool {
        &&& self.player.active_section_index < self.sections.len()
        &&& self.player.active_layer_index < self.active_section().layers.len()
        &&& 0 <= x < self.active_layer().notes.len()
    }

    /// The section that the player points at, where there is one.
    pub open spec fn active_section(self) -> SectionView {
        self.sections[self.player.active_section_index as int]
    }

    /// The layer of the active section that the player points at, where
    /// there is one.
    pub open spec fn active_layer(self) -> LayerView {
        self.active_section().layers[self.player.active_layer_index as int]
    }

    /// The state with `note` in column `x` of the active layer.
    pub open spec fn with_active_note(self, x: int, note: NoteView) -> GlobalStateView {
        let layer = LayerView { notes: self.active_layer().notes.update(x, note), ..self.active_layer() };
        let section = SectionView {
            layers: self.active_section().layers.update(self.player.active_layer_index as int, layer),
        };
        GlobalStateView {
            sections: self.sections.update(self.player.active_section_index as int, section),
            ..self
        }
    }

    /// Every step of every layer is consistent.
    pub open spec fn consistent(self) -> bool {
        forall|s: int, l: int, n: int|
            0 <= s < self.sections.len() && 0 <= l < self.sections[s].layers.len() && 0 <= n
                < self.sections[s].layers[l].notes.len()
                ==> (#[trigger] self.sections[s].layers[l].notes[n]).consistent()
    }
}

impl View for Note {
    type V = NoteView;

    open spec fn view(&self) -> NoteView {
        NoteView { octaves: self.octaves@, length: self.length }
    }
}

impl View for Layer {
    type V = LayerView;

    open spec fn view(&self) -> LayerView {
        LayerView { notes: self.notes@.map_values(|note: Note| note@), instrument: self.instrument@ }
    }
}

impl View for Section {
    type V = SectionView;

    open spec fn view(&self) -> SectionView {
        SectionView { layers: self.layers@.map_values(|layer: Layer| layer@) }
    }
}

impl View for GlobalState {
    type V = GlobalStateView;

    open spec fn view(&self) -> GlobalStateView {
        GlobalStateView {
            sections: self.sections@.map_values(|section: Section| section@),
            player: self.player,
        }
    }
}

/// Whether `row` is among `octaves`.
pub fn contains_octave(octaves: &Vec<usize>, row: usize) -> (found: bool)
    ensures
        found == octaves@.contains(row),
{
    let mut i: usize = 0;
    while i < octaves.len()
        invariant
            i <= octaves.len(),
            forall|k: int| 0 <= k < i ==> octaves@[k] != row,
        decreases octaves.len() - i,
    {
        if octaves[i] == row {
            return true;
        }
        i += 1;
    }
    false
}

impl Note {
    /// Whether the step is active and lights `row`.
    pub fn sounds(&self, row: usize) -> (result: bool)
        ensures
            result == self@.sounds(row),
    {
        self.length > 0 && contains_octave(&self.octaves, row)
    }
}

/// The model of every state is well formed.
pub proof fn lemma_view_well_formed(state: GlobalState)
    ensures
        state@.well_formed(),
{
    assert(state@.sections.len() == state.sections.len());
    assert forall|s: int| 0 <= s < state@.sections.len() implies (
    #[trigger] state@.sections[s]).well_formed() by {
        let section = state.sections@[s];
        assert(section@.layers.len() == section.layers.len());
        assert forall|l: int| 0 <= l < section@.layers.len() implies (
        #[trigger] section@.layers[l]).well_formed() by {
            let layer = section.layers@[l];
            assert(layer@.notes.len() == layer.notes@.len());
        }
    }
}

impl Default for GlobalState {
    /// A state without sections, with the player stopped at step 0.
    fn default() -> (state: GlobalState)
        ensures
            state@.sections.len() == 0,
            state@.player == (Player {
                play_mode: PlayMode::Stopped,
                active_layer_index: 0,
                active_section_index: 0,
                interval: 0,
            }),
    {
        GlobalState { sections: Vec::new(), player: Player::default() }
    }
}

/// An empty step.
pub open spec fn empty_note() -> NoteView {
    NoteView { octaves: Seq::empty(), length: 0 }
}

/// A layer of eight empty steps for the instrument "Beep Boops".
pub open spec fn initial_layer() -> LayerView {
    LayerView { notes: Seq::new(8, |i: int| empty_note()), instrument: "Beep Boops"@ }
}

/// A section of eight initial layers.
pub open spec fn initial_section() -> SectionView {
    SectionView { layers: Seq::new(8, |i: int| initial_layer()) }
}

/// Eight initial sections, with the player paused at step 0 on the first
/// layer of the first section.
pub open spec fn initial_state_spec() -> GlobalStateView {
    GlobalStateView {
        sections: Seq::new(8, |i: int| initial_section()),
        player: Player {
            play_mode: PlayMode::Paused,
            active_layer_index: 0,
            active_section_index: 0,
            interval: 0,
        },
    }
}

/// The initial state is well formed, every step in it is consistent, and the
/// player points at a layer that exists.
pub proof fn lemma_initial_state()
    ensures
        initial_state_spec().well_formed(),
        initial_state_spec().consistent(),
        forall|x: int| 0 <= x < NOTE_COUNT ==> initial_state_spec().resolves(x),
{
}

fn new_note() -> (note: Note)
    ensures
        note@ == empty_note(),
{
    Note { octaves: Vec::new(), length: 0 }
}

fn new_layer() -> (layer: Layer)
    ensures
        layer@ == initial_layer(),
{
    let layer = Layer {
        notes: [
            new_note(),
            new_note(),
            new_note(),
            new_note(),
            new_note(),
            new_note(),
            new_note(),
            new_note(),
        ],
        instrument: "Beep Boops".to_string(),
    };
    assert(layer@.notes =~= initial_layer().notes);
    layer
}

fn new_section() -> (section: Section)
    ensures
        section@ == initial_section(),
{
    let mut layers: Vec<Layer> = Vec::new();
    let mut i: usize = 0;
    while i < 8
        invariant
            i <= 8,
            layers@.len() == i,
            forall|k: int| 0 <= k < i ==> (#[trigger] layers@[k])@ == initial_layer(),
        decreases 8 - i,
    {
        layers.push(new_layer());
        i += 1;
    }
    let section = Section { layers };
    assert(section@.layers =~= initial_section().layers);
    section
}

/// The state that the sequencer starts in.
pub fn initial_state() -> (state: GlobalState)
    ensures
        state@ == initial_state_spec(),
{
    let mut sections: Vec<Section> = Vec::new();
    let mut i: usize = 0;
    while i < 8
        invariant
            i <= 8,
            sections@.len() == i,
            forall|k: int| 0 <= k < i ==> (#[trigger] sections@[k])@ == initial_section(),
        decreases 8 - i,
    {
        sections.push(new_section());
        i += 1;
    }
    let state = GlobalState {
        sections,
        player: Player {
            play_mode: PlayMode::Paused,
            active_layer_index: 0,
            active_section_index: 0,
            interval: 0,
        },
    };
    assert(state@.sections =~= initial_state_spec().sections);
    state
}

} // verus!
