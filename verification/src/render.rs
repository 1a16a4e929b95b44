//! The renderer: the lighting commands that show a state on the controller.
//!
//! A state is drawn whole each time: first the transport button, then for
//! each section its button and, for the active section, each layer's button
//! and, for the active layer, the sixty-four cells of the matrix, column by
//! column and row by row.

use crate::device::{Button, Color, ColorStyle, Lighting};
use crate::seq_lemmas::{lemma_flatten_eights, lemma_flatten_member};
use crate::state::{
    GlobalState, GlobalStateView, Layer, LayerView, Note, NoteView, PlayMode, Section,
    SectionView, NOTE_COUNT,
};
use vstd::prelude::*;

verus! {

/// The hue of each layer. Order dictates the layer.
pub const LAYER_COLORS: [u32; 8] = [
    0x0000ff,
    0x00ffff,
    0x00ff00,
    0xffff00,
    0xff0000,
    0xff00ff,
    0xffaa00,
    0xffffff,
];

/// The colour of a button that no rule lights.
pub open spec fn off() -> Color {
    Color { rgb: 0, style: ColorStyle::Steady100 }
}

/// The hue of the layer at `layer`: the layers take the eight hues in turn.
pub open spec fn layer_hue(layer: usize) -> u32 {
    LAYER_COLORS[layer as int % 8]
}

/// The colour code of a selection button: 1 where it selects what is active,
/// else 0.
pub open spec fn active_color_spec(current: usize, active: usize) -> u32 {
    if current == active {
        1
    } else {
        0
    }
}

/// The colour of the transport button in each mode: steady while playing,
/// blinking while paused, off while stopped.
pub open spec fn play_mode_color_spec(play_mode: PlayMode) -> Color {
    match play_mode {
        PlayMode::Playing => Color { rgb: 1, style: ColorStyle::Steady100 },
        PlayMode::Paused => Color { rgb: 1, style: ColorStyle::Blink2 },
        PlayMode::Stopped => Color { rgb: 0, style: ColorStyle::Steady100 },
    }
}

/// Whether the playhead stands on column `column` of the section at
/// `section`: each section takes eight steps of the step counter.
pub open spec fn playhead_at(interval: usize, section: usize, column: usize) -> bool {
    interval == column + section * 8
}

/// The colour of a cell in row `octave` of column `note_index`, given the
/// step that sounds there and how many columns before it that step began.
///
/// Under the playhead the cell has the layer's hue, bright where the step
/// lights the row and dimmer where it does not. Elsewhere a lit row has the
/// hue, brighter in the column where the step begins than in the columns that
/// it goes on for, and every other cell is off.
pub open spec fn note_color_spec(
    layer: usize,
    section: usize,
    interval: usize,
    note_index: usize,
    note: NoteView,
    octave: usize,
    length_pos: usize,
) -> Color {
    if playhead_at(interval, section, note_index) {
        if note.sounds(octave) {
            Color { rgb: layer_hue(layer), style: ColorStyle::Steady95 }
        } else {
            Color { rgb: layer_hue(layer), style: ColorStyle::Steady50 }
        }
    } else if note.sounds(octave) {
        if length_pos == 0 {
            Color { rgb: layer_hue(layer), style: ColorStyle::Steady75 }
        } else {
            Color { rgb: layer_hue(layer), style: ColorStyle::Steady65 }
        }
    } else {
        off()
    }
}

/// Whether the step in column `start` lights `row` and spans column `column`.
pub open spec fn reaches(notes: Seq<NoteView>, start: int, column: int, row: usize) -> bool {
    &&& 0 <= start <= column
    &&& start < notes.len()
    &&& notes[start].octaves.contains(row)
    &&& column - start < notes[start].length
}

/// Whether some step lights `row` and spans column `column`.
pub open spec fn covered(notes: Seq<NoteView>, column: int, row: usize) -> bool {
    exists|start: int| reaches(notes, start, column, row)
}

/// The colour of the cell in column `column` and row `row` of a layer.
///
/// The playhead comes first: on its column a cell has the layer's hue, bright
/// where a step sounds and dimmer where none does. Off the playhead, a cell
/// in which a step begins is brighter than one that a step from an earlier
/// column goes on into, and a cell that no step covers is off.
pub open spec fn cell_color_spec(
    layer: usize,
    section: usize,
    interval: usize,
    notes: Seq<NoteView>,
    column: usize,
    row: usize,
) -> Color {
    if playhead_at(interval, section, column) {
        if covered(notes, column as int, row) {
            Color { rgb: layer_hue(layer), style: ColorStyle::Steady95 }
        } else {
            Color { rgb: layer_hue(layer), style: ColorStyle::Steady50 }
        }
    } else if reaches(notes, column as int, column as int, row) {
        Color { rgb: layer_hue(layer), style: ColorStyle::Steady75 }
    } else if covered(notes, column as int, row) {
        Color { rgb: layer_hue(layer), style: ColorStyle::Steady65 }
    } else {
        off()
    }
}

/// The commands for the cells of one column, from row 0 up.
pub open spec fn render_note_spec(
    interval: usize,
    section_index: usize,
    layer_index: usize,
    note_index: usize,
    notes: Seq<NoteView>,
) -> Seq<Lighting> {
    Seq::new(
        NOTE_COUNT as nat,
        |row: int|
            Lighting {
                button: Button::Grid { x: note_index, y: row as usize },
                color: cell_color_spec(
                    layer_index,
                    section_index,
                    interval,
                    notes,
                    note_index,
                    row as usize,
                ),
            },
    )
}

/// The commands for a layer: its button, lit where the layer is the active
/// one, and for the active layer its cells, column by column.
pub open spec fn render_layer_spec(
    interval: usize,
    section_index: usize,
    active_layer_index: usize,
    layer_index: usize,
    layer: LayerView,
) -> Seq<Lighting> {
    let button = Lighting {
        button: Button::Layer { index: layer_index },
        color: Color {
            rgb: active_color_spec(layer_index, active_layer_index),
            style: ColorStyle::Steady100,
        },
    };
    if layer_index == active_layer_index {
        seq![button] + Seq::new(
            layer.notes.len(),
            |column: int|
                render_note_spec(interval, section_index, layer_index, column as usize, layer.notes),
        ).flatten()
    } else {
        seq![button]
    }
}

/// The commands for a section: its button, lit where the section is the
/// active one, and for the active section its layers in order.
pub open spec fn render_section_spec(
    interval: usize,
    active_section_index: usize,
    active_layer_index: usize,
    section_index: usize,
    section: SectionView,
) -> Seq<Lighting> {
    let button = Lighting {
        button: Button::Section { index: section_index },
        color: Color {
            rgb: active_color_spec(section_index, active_section_index),
            style: ColorStyle::Steady100,
        },
    };
    if section_index == active_section_index {
        seq![button] + Seq::new(
            section.layers.len(),
            |index: int|
                render_layer_spec(
                    interval,
                    section_index,
                    active_layer_index,
                    index as usize,
                    section.layers[index],
                ),
        ).flatten()
    } else {
        seq![button]
    }
}

/// The commands that show a state: the transport button, then the sections in
/// order.
pub open spec fn render_spec(state: GlobalStateView) -> Seq<Lighting> {
    seq![Lighting { button: Button::Play, color: play_mode_color_spec(state.player.play_mode) }]
        + Seq::new(
        state.sections.len(),
        |index: int|
            render_section_spec(
                state.player.interval,
                state.player.active_section_index,
                state.player.active_layer_index,
                index as usize,
                state.sections[index],
            ),
    ).flatten()
}

/// The colour code of a selection button.
pub fn active_color(current: usize, active: usize) -> (rgb: u32)
    ensures
        rgb == active_color_spec(current, active),
{
    if current == active {
        1
    } else {
        0
    }
}

/// The colour of the transport button.
pub fn play_mode_color(play_mode: PlayMode) -> (color: Color)
    ensures
        color == play_mode_color_spec(play_mode),
{
    match play_mode {
        PlayMode::Playing => Color { rgb: 0x1, style: ColorStyle::Steady100 },
        PlayMode::Paused => Color { rgb: 0x1, style: ColorStyle::Blink2 },
        PlayMode::Stopped => Color { rgb: 0x0, style: ColorStyle::Steady100 },
    }
}

/// The colour of a cell, given the step that sounds there and how far into
/// that step the cell lies.
pub fn note_color(
    layer: usize,
    section: usize,
    interval: usize,
    note_index: usize,
    note: &Note,
    octave: usize,
    length_pos: usize,
) -> (color: Color)
    ensures
        color == note_color_spec(layer, section, interval, note_index, note@, octave, length_pos),
{
    let hue = LAYER_COLORS[layer % 8];
    let under_playhead = interval >= note_index && (interval - note_index) % 8 == 0 && (interval
        - note_index) / 8 == section;
    if under_playhead {
        if note.sounds(octave) {
            Color { rgb: hue, style: ColorStyle::Steady95 }
        } else {
            Color { rgb: hue, style: ColorStyle::Steady50 }
        }
    } else if note.sounds(octave) {
        if length_pos == 0 {
            Color { rgb: hue, style: ColorStyle::Steady75 }
        } else {
            Color { rgb: hue, style: ColorStyle::Steady65 }
        }
    } else {
        Color { rgb: 0, style: ColorStyle::Steady100 }
    }
}

/// The colour of the cell in column `column` and row `row` of a layer.
pub fn cell_color(
    layer_index: usize,
    section: usize,
    interval: usize,
    layer: &Layer,
    column: usize,
    row: usize,
) -> (color: Color)
    requires
        column < NOTE_COUNT,
    ensures
        color == cell_color_spec(layer_index, section, interval, layer@.notes, column, row),
{
    let mut start: usize = column + 1;
    while start > 0
        invariant
            start <= column + 1,
            column < NOTE_COUNT,
            forall|k: int| start <= k <= column ==> !reaches(layer@.notes, k, column as int, row),
        decreases start,
    {
        start -= 1;
        let note = &layer.notes[start];
        if note.length > column - start && note.sounds(row) {
            assert(reaches(layer@.notes, start as int, column as int, row));
            return note_color(layer_index, section, interval, column, note, row, column - start);
        }
    }
    assert(layer@.notes[column as int] == layer.notes[column as int]@);
    note_color(layer_index, section, interval, column, &layer.notes[column], row, 0)
}

/// The commands for the cells of column `note_index` of a layer.
pub fn render_note(
    interval: usize,
    section_index: usize,
    layer_index: usize,
    note_index: usize,
    layer: &Layer,
) -> (commands: Vec<Lighting>)
    requires
        note_index < NOTE_COUNT,
    ensures
        commands@ == render_note_spec(
            interval,
            section_index,
            layer_index,
            note_index,
            layer@.notes,
        ),
{
    let mut commands: Vec<Lighting> = Vec::new();
    let mut row: usize = 0;
    while row < NOTE_COUNT
        invariant
            row <= NOTE_COUNT,
            note_index < NOTE_COUNT,
            commands@.len() == row,
            forall|k: int|
                0 <= k < row ==> commands@[k] == render_note_spec(
                    interval,
                    section_index,
                    layer_index,
                    note_index,
                    layer@.notes,
                )[k],
        decreases NOTE_COUNT - row,
    {
        let color = cell_color(layer_index, section_index, interval, layer, note_index, row);
        commands.push(Lighting { button: Button::Grid { x: note_index, y: row }, color });
        row += 1;
    }
    commands
}

/// The commands for the layer at `layer_index` of a section.
pub fn render_layer(
    interval: usize,
    section_index: usize,
    active_layer_index: usize,
    layer_index: usize,
    layer: &Layer,
) -> (commands: Vec<Lighting>)
    ensures
        commands@ == render_layer_spec(
            interval,
            section_index,
            active_layer_index,
            layer_index,
            layer@,
        ),
{
    let mut commands: Vec<Lighting> = Vec::new();
    commands.push(
        Lighting {
            button: Button::Layer { index: layer_index },
            color: Color {
                rgb: active_color(layer_index, active_layer_index),
                style: ColorStyle::Steady100,
            },
        },
    );
    if layer_index == active_layer_index {
        let ghost button = commands@;
        let ghost columns = Seq::new(
            layer@.notes.len(),
            |column: int|
                render_note_spec(interval, section_index, layer_index, column as usize, layer@.notes),
        );
        let mut column: usize = 0;
        while column < NOTE_COUNT
            invariant
                column <= NOTE_COUNT,
                columns.len() == NOTE_COUNT,
                columns == Seq::new(
                    layer@.notes.len(),
                    |column: int|
                        render_note_spec(
                            interval,
                            section_index,
                            layer_index,
                            column as usize,
                            layer@.notes,
                        ),
                ),
                commands@ == button + columns.take(column as int).flatten(),
            decreases NOTE_COUNT - column,
        {
            let mut cells = render_note(interval, section_index, layer_index, column, layer);
            proof {
                assert(columns.take(column + 1) =~= columns.take(column as int).push(
                    columns[column as int],
                ));
                columns.take(column as int).lemma_flatten_push(columns[column as int]);
            }
            commands.append(&mut cells);
            column += 1;
        }
        assert(columns.take(column as int) =~= columns);
    }
    commands
}

/// The commands for the section at `section_index` of a state.
pub fn render_section(
    interval: usize,
    active_section_index: usize,
    active_layer_index: usize,
    section_index: usize,
    section: &Section,
) -> (commands: Vec<Lighting>)
    ensures
        commands@ == render_section_spec(
            interval,
            active_section_index,
            active_layer_index,
            section_index,
            section@,
        ),
{
    let mut commands: Vec<Lighting> = Vec::new();
    commands.push(
        Lighting {
            button: Button::Section { index: section_index },
            color: Color {
                rgb: active_color(section_index, active_section_index),
                style: ColorStyle::Steady100,
            },
        },
    );
    if section_index == active_section_index {
        let ghost button = commands@;
        let ghost layers = Seq::new(
            section@.layers.len(),
            |index: int|
                render_layer_spec(
                    interval,
                    section_index,
                    active_layer_index,
                    index as usize,
                    section@.layers[index],
                ),
        );
        let mut layer_index: usize = 0;
        while layer_index < section.layers.len()
            invariant
                layer_index <= section.layers.len(),
                layers == Seq::new(
                    section@.layers.len(),
                    |index: int|
                        render_layer_spec(
                            interval,
                            section_index,
                            active_layer_index,
                            index as usize,
                            section@.layers[index],
                        ),
                ),
                commands@ == button + layers.take(layer_index as int).flatten(),
            decreases section.layers.len() - layer_index,
        {
            let mut part = render_layer(
                interval,
                section_index,
                active_layer_index,
                layer_index,
                &section.layers[layer_index],
            );
            proof {
                assert(layers.take(layer_index + 1) =~= layers.take(layer_index as int).push(
                    layers[layer_index as int],
                ));
                layers.take(layer_index as int).lemma_flatten_push(layers[layer_index as int]);
            }
            commands.append(&mut part);
            layer_index += 1;
        }
        assert(layers.take(layer_index as int) =~= layers);
    }
    commands
}

/// The commands that show `state` on the controller, in the order in which
/// they are to be sent.
pub fn render(state: &GlobalState) -> (commands: Vec<Lighting>)
    ensures
        commands@ == render_spec(state@),
{
    let mut commands: Vec<Lighting> = Vec::new();
    commands.push(
        Lighting { button: Button::Play, color: play_mode_color(state.player.play_mode) },
    );
    let ghost button = commands@;
    let ghost sections = Seq::new(
        state@.sections.len(),
        |index: int|
            render_section_spec(
                state.player.interval,
                state.player.active_section_index,
                state.player.active_layer_index,
                index as usize,
                state@.sections[index],
            ),
    );
    let mut section_index: usize = 0;
    while section_index < state.sections.len()
        invariant
            section_index <= state.sections.len(),
            sections == Seq::new(
                state@.sections.len(),
                |index: int|
                    render_section_spec(
                        state.player.interval,
                        state.player.active_section_index,
                        state.player.active_layer_index,
                        index as usize,
                        state@.sections[index],
                    ),
            ),
            commands@ == button + sections.take(section_index as int).flatten(),
        decreases state.sections.len() - section_index,
    {
        let mut part = render_section(
            state.player.interval,
            state.player.active_section_index,
            state.player.active_layer_index,
            section_index,
            &state.sections[section_index],
        );
        proof {
            assert(sections.take(section_index + 1) =~= sections.take(section_index as int).push(
                sections[section_index as int],
            ));
            sections.take(section_index as int).lemma_flatten_push(sections[section_index as int]);
        }
        commands.append(&mut part);
        section_index += 1;
    }
    assert(sections.take(section_index as int) =~= sections);
    commands
}

/// The commands of the active layer: its button, lit, and then one command
/// for each of the sixty-four cells, column by column and row by row within a
/// column. No cell is left out and none is named twice.
pub proof fn lemma_active_layer_layout(
    interval: usize,
    section_index: usize,
    layer_index: usize,
    layer: LayerView,
)
    requires
        layer.notes.len() == NOTE_COUNT,
    ensures
        ({
            let commands = render_layer_spec(interval, section_index, layer_index, layer_index, layer);
            &&& commands.len() == 65
            &&& commands[0] == Lighting {
                button: Button::Layer { index: layer_index },
                color: Color { rgb: 1, style: ColorStyle::Steady100 },
            }
            &&& forall|column: int, row: int|
                0 <= column < 8 && 0 <= row < 8 ==> #[trigger] commands[1 + 8 * column + row]
                    == Lighting {
                    button: Button::Grid { x: column as usize, y: row as usize },
                    color: cell_color_spec(
                        layer_index,
                        section_index,
                        interval,
                        layer.notes,
                        column as usize,
                        row as usize,
                    ),
                }
        }),
{
    let columns = Seq::new(
        layer.notes.len(),
        |column: int|
            render_note_spec(interval, section_index, layer_index, column as usize, layer.notes),
    );
    lemma_flatten_eights(columns);
    let commands = render_layer_spec(interval, section_index, layer_index, layer_index, layer);
    assert forall|column: int, row: int| 0 <= column < 8 && 0 <= row < 8 implies #[trigger] commands[1
        + 8 * column + row] == Lighting {
        button: Button::Grid { x: column as usize, y: row as usize },
        color: cell_color_spec(
            layer_index,
            section_index,
            interval,
            layer.notes,
            column as usize,
            row as usize,
        ),
    } by {
        assert(columns.flatten()[8 * column + row] == columns[column][row]);
    }
}

/// Whether a button belongs to a state: the transport button always, the
/// button of a section that the state holds, the button of a layer that the
/// active section holds, and a cell of the matrix where the active layer
/// exists.
pub open spec fn belongs_to(button: Button, state: GlobalStateView) -> bool {
    match button {
        Button::Play => true,
        Button::Section { index } => index < state.sections.len(),
        Button::Layer { index } => {
            &&& state.player.active_section_index < state.sections.len()
            &&& index < state.active_section().layers.len()
        },
        Button::Grid { x, y } => {
            &&& state.resolves(x as int)
            &&& y < NOTE_COUNT
        },
    }
}

/// The commands of a layer name its own button and, for the active layer,
/// cells of the matrix.
proof fn lemma_layer_buttons(
    interval: usize,
    section_index: usize,
    active_layer_index: usize,
    layer_index: usize,
    layer: LayerView,
    k: int,
)
    requires
        layer.well_formed(),
        0 <= k < render_layer_spec(
            interval,
            section_index,
            active_layer_index,
            layer_index,
            layer,
        ).len(),
    ensures
        match render_layer_spec(interval, section_index, active_layer_index, layer_index, layer)[k].button {
            Button::Layer { index } => index == layer_index,
            Button::Grid { x, y } => layer_index == active_layer_index && x < layer.notes.len() && y
                < NOTE_COUNT,
            _ => false,
        },
{
    if k > 0 {
        let columns = Seq::new(
            layer.notes.len(),
            |column: int|
                render_note_spec(interval, section_index, layer_index, column as usize, layer.notes),
        );
        lemma_flatten_member(columns, k - 1);
    }
}

/// The commands of a section name its own button and, for the active
/// section, the buttons of its layers and cells of its active layer.
proof fn lemma_section_buttons(
    interval: usize,
    active_section_index: usize,
    active_layer_index: usize,
    section_index: usize,
    section: SectionView,
    k: int,
)
    requires
        section.well_formed(),
        0 <= k < render_section_spec(
            interval,
            active_section_index,
            active_layer_index,
            section_index,
            section,
        ).len(),
    ensures
        match render_section_spec(
            interval,
            active_section_index,
            active_layer_index,
            section_index,
            section,
        )[k].button {
            Button::Section { index } => index == section_index,
            Button::Layer { index } => section_index == active_section_index && index
                < section.layers.len(),
            Button::Grid { x, y } => {
                &&& section_index == active_section_index
                &&& active_layer_index < section.layers.len()
                &&& x < section.layers[active_layer_index as int].notes.len()
                &&& y < NOTE_COUNT
            },
            _ => false,
        },
{
    if k > 0 {
        let layers = Seq::new(
            section.layers.len(),
            |index: int|
                render_layer_spec(
                    interval,
                    section_index,
                    active_layer_index,
                    index as usize,
                    section.layers[index],
                ),
        );
        lemma_flatten_member(layers, k - 1);
        let (l, lk) = choose|i: int, j: int|
            0 <= i < layers.len() && 0 <= j < layers[i].len() && layers.flatten()[k - 1]
                == #[trigger] layers[i][j];
        lemma_layer_buttons(
            interval,
            section_index,
            active_layer_index,
            l as usize,
            section.layers[l],
            lk,
        );
    }
}

/// Rendering names no button but those that belong to the state.
pub proof fn lemma_render_buttons(state: GlobalStateView, k: int)
    requires
        state.well_formed(),
        0 <= k < render_spec(state).len(),
    ensures
        belongs_to(render_spec(state)[k].button, state),
{
    let player = state.player;
    let sections = Seq::new(
        state.sections.len(),
        |index: int|
            render_section_spec(
                player.interval,
                player.active_section_index,
                player.active_layer_index,
                index as usize,
                state.sections[index],
            ),
    );
    if k > 0 {
        lemma_flatten_member(sections, k - 1);
        let (s, sk) = choose|i: int, j: int|
            0 <= i < sections.len() && 0 <= j < sections[i].len() && sections.flatten()[k - 1]
                == #[trigger] sections[i][j];
        lemma_section_buttons(
            player.interval,
            player.active_section_index,
            player.active_layer_index,
            s as usize,
            state.sections[s],
            sk,
        );
    }
}

} // verus!
