//! The Akai APC mini mk2: the layout of its MIDI words, the decoder that turns
//! a word from the controller into an action, and the encoder that turns a
//! lighting command into a word for the controller.
//!
//! A word is 32 bits wide. Its upper twelve bits name the command, bits 19 to
//! 16 hold the style, bits 15 to 8 the position code of a button and bits 7 to
//! 0 the colour.

use crate::action::Action;
use crate::device::{Button, Color, ColorStyle, Lighting};
use crate::palette::{lemma_nearest_velocity_range, nearest_velocity, nearest_velocity_spec};
use crate::render::{lemma_render_buttons, render_spec};
use crate::state::{GlobalStateView, PlayMode};
use vstd::prelude::*;

verus! {

/// Position code of the first of the eight scene launch buttons, which select
/// a layer.
pub const SCENE_LAUNCH_OFFSET: u32 = 0x00000070;

/// Position code of the first of the eight track buttons, which select a
/// section.
pub const TRACK_OFFSET: u32 = 0x00000064;

/// Position code of the shift button, which starts playback.
pub const SHIFT_BUTTON: u32 = 0x0000007a;

/// A word whose command is note-on and whose fields are all 0.
pub const NOTE_ON_STATUS: u32 = 0x20900000;

/// A word whose command is note-off and whose fields are all 0.
pub const NOTE_OFF_STATUS: u32 = 0x20800000;

/// The bits of a word that hold the position code.
pub const GRID_MASK: u32 = 0x0000ff00;

/// The bits of a word that hold the style.
pub const STYLE_MASK: u32 = 0x000f0000;

/// The bits of a word that hold the colour.
pub const COLOR_MASK: u32 = 0x000000ff;

/// Number of cells in a row and in a column of the matrix, and of buttons in
/// each of the two rows beside it.
pub const GRID_SIZE: usize = 8;

pub const LED_10_BRIGHT: u32 = 0x00000000;

pub const LED_25_BRIGHT: u32 = 0x00010000;

pub const LED_50_BRIGHT: u32 = 0x00020000;

pub const LED_65_BRIGHT: u32 = 0x00030000;

pub const LED_75_BRIGHT: u32 = 0x00040000;

pub const LED_95_BRIGHT: u32 = 0x00050000;

pub const LED_100_BRIGHT: u32 = 0x00060000;

pub const PULSING_1_16: u32 = 0x00070000;

pub const PULSING_1_8: u32 = 0x00080000;

pub const PULSING_1_4: u32 = 0x00090000;

pub const PULSING_1_2: u32 = 0x000a0000;

pub const BLINKING_1_24: u32 = 0x000b0000;

pub const BLINKING_1_16: u32 = 0x000c0000;

pub const BLINKING_1_8: u32 = 0x000d0000;

pub const BLINKING_1_4: u32 = 0x000e0000;

pub const BLINKING_1_2: u32 = 0x000f0000;

/// The controller. It has no state of its own.
#[derive(Clone, Copy, Debug, PartialEq, Eq, Structural)]
pub struct AkaiApcMiniMk2 {}

/// The style field of a word, in place, for each style.
pub open spec fn style_bits(style: ColorStyle) -> u32 {
    match style {
        ColorStyle::Steady100 => LED_100_BRIGHT,
        ColorStyle::Steady95 => LED_95_BRIGHT,
        ColorStyle::Steady75 => LED_75_BRIGHT,
        ColorStyle::Steady65 => LED_65_BRIGHT,
        ColorStyle::Steady50 => LED_50_BRIGHT,
        ColorStyle::Steady25 => LED_25_BRIGHT,
        ColorStyle::Steady10 => LED_10_BRIGHT,
        ColorStyle::Pulse2 => PULSING_1_2,
        ColorStyle::Pulse4 => PULSING_1_4,
        ColorStyle::Pulse8 => PULSING_1_8,
        ColorStyle::Pulse16 => PULSING_1_16,
        ColorStyle::Blink2 => BLINKING_1_2,
        ColorStyle::Blink4 => BLINKING_1_4,
        ColorStyle::Blink8 => BLINKING_1_8,
        ColorStyle::Blink16 => BLINKING_1_16,
        ColorStyle::Blink24 => BLINKING_1_24,
    }
}

/// The action that a word from the controller stands for.
///
/// Only a note-on word stands for anything: a press on a cell of the matrix
/// toggles that cell, one of the eight track buttons selects a section, one of
/// the eight scene launch buttons selects a layer, and the shift button starts
/// playback. Every other word, a release among them, is no action.
pub open spec fn decode(word: u32) -> Action {
    let grid = (GRID_MASK & word) >> 8;
    if word >> 20 != NOTE_ON_STATUS >> 20 {
        Action::Noop
    } else if grid < 64 {
        Action::GridToggle { x: grid % 8, y: grid / 8 }
    } else if TRACK_OFFSET <= grid < TRACK_OFFSET + 8 {
        Action::SectionSelect { pos: (grid - TRACK_OFFSET) as u32 }
    } else if SCENE_LAUNCH_OFFSET <= grid < SCENE_LAUNCH_OFFSET + 8 {
        Action::LayerSelect { pos: (grid - SCENE_LAUNCH_OFFSET) as u32 }
    } else if grid == SHIFT_BUTTON {
        Action::PlayModeChange(PlayMode::Playing)
    } else {
        Action::Noop
    }
}

/// The note-on word that shows `color_field` in `style` on the button with
/// the given position code.
pub open spec fn encode(position_code: u8, style: ColorStyle, color_field: u8) -> u32 {
    NOTE_ON_STATUS | style_bits(style) | ((position_code as u32) << 8) | (color_field as u32)
}

/// The low byte of a colour, which the buttons beside the matrix take as it
/// is.
pub open spec fn low_byte(rgb: u32) -> u8 {
    (rgb & COLOR_MASK) as u8
}

/// The word that lights the cell in column `x` and row `y`, if there is such
/// a cell. A cell shows the palette entry nearest to the colour.
pub open spec fn grid_word(x: usize, y: usize, color: Color) -> Option<u32> {
    if x < GRID_SIZE && y < GRID_SIZE {
        Some(encode((x + y * 8) as u8, color.style, nearest_velocity_spec(color.rgb) as u8))
    } else {
        None
    }
}

/// The word that lights the button of the section at `index`, if the
/// controller has one.
pub open spec fn section_word(index: usize, color: Color) -> Option<u32> {
    if index < GRID_SIZE {
        Some(encode((TRACK_OFFSET + index) as u8, color.style, low_byte(color.rgb)))
    } else {
        None
    }
}

/// The word that lights the button of the layer at `index`, if the controller
/// has one.
pub open spec fn layer_word(index: usize, color: Color) -> Option<u32> {
    if index < GRID_SIZE {
        Some(encode((SCENE_LAUNCH_OFFSET + index) as u8, color.style, low_byte(color.rgb)))
    } else {
        None
    }
}

/// The word that lights the transport button.
pub open spec fn play_word(color: Color) -> u32 {
    encode(SHIFT_BUTTON as u8, color.style, low_byte(color.rgb))
}

/// The word that carries out a lighting command, if the controller has the
/// button.
pub open spec fn lighting_word_spec(lighting: Lighting) -> Option<u32> {
    match lighting.button {
        Button::Play => Some(play_word(lighting.color)),
        Button::Section { index } => section_word(index, lighting.color),
        Button::Layer { index } => layer_word(index, lighting.color),
        Button::Grid { x, y } => grid_word(x, y, lighting.color),
    }
}

/// The style field of a word, in place, for `style`.
pub fn color_style_to_u32(style: ColorStyle) -> (bits: u32)
    ensures
        bits == style_bits(style),
{
    match style {
        ColorStyle::Steady100 => LED_100_BRIGHT,
        ColorStyle::Steady95 => LED_95_BRIGHT,
        ColorStyle::Steady75 => LED_75_BRIGHT,
        ColorStyle::Steady65 => LED_65_BRIGHT,
        ColorStyle::Steady50 => LED_50_BRIGHT,
        ColorStyle::Steady25 => LED_25_BRIGHT,
        ColorStyle::Steady10 => LED_10_BRIGHT,
        ColorStyle::Pulse2 => PULSING_1_2,
        ColorStyle::Pulse4 => PULSING_1_4,
        ColorStyle::Pulse8 => PULSING_1_8,
        ColorStyle::Pulse16 => PULSING_1_16,
        ColorStyle::Blink2 => BLINKING_1_2,
        ColorStyle::Blink4 => BLINKING_1_4,
        ColorStyle::Blink8 => BLINKING_1_8,
        ColorStyle::Blink16 => BLINKING_1_16,
        ColorStyle::Blink24 => BLINKING_1_24,
    }
}

/// The note-on word that shows `color_field` in `style` on the button with
/// the given position code.
pub fn encode_button(position_code: u8, style: ColorStyle, color_field: u8) -> (word: u32)
    ensures
        word == encode(position_code, style, color_field),
{
    let position_field = (position_code as u32) << 8;
    NOTE_ON_STATUS | color_style_to_u32(style) | position_field | (color_field as u32)
}

/// The low byte of a colour.
fn color_low_byte(rgb: u32) -> (byte: u8)
    ensures
        byte == low_byte(rgb),
{
    assert(rgb & 0xff <= 0xff) by (bit_vector);
    (rgb & COLOR_MASK) as u8
}

impl AkaiApcMiniMk2 {
    /// Decodes a word that the controller sent.
    pub fn midi_to_action(&self, _context: u32, data: u32) -> (action: Action)
        ensures
            action == decode(data),
    {
        let command = data >> 20;
        if command == (NOTE_ON_STATUS >> 20) {
            let grid = (GRID_MASK & data) >> 8;
            if grid < 64 {
                let x = grid % 8;
                let y = grid / 8;
                Action::GridToggle { x, y }
            } else if grid >= TRACK_OFFSET && grid <= 0x6b {
                let bottom_button = grid - TRACK_OFFSET;
                Action::SectionSelect { pos: bottom_button }
            } else if grid >= SCENE_LAUNCH_OFFSET && grid <= 0x77 {
                let scene_launch_button = grid - SCENE_LAUNCH_OFFSET;
                Action::LayerSelect { pos: scene_launch_button }
            } else if grid == SHIFT_BUTTON {
                Action::PlayModeChange(PlayMode::Playing)
            } else {
                Action::Noop
            }
        } else {
            Action::Noop
        }
    }

    /// The word that lights the cell in column `x` and row `y` of the matrix.
    pub fn grid_button_word(&self, x: usize, y: usize, color: Color) -> (word: Option<u32>)
        ensures
            word == grid_word(x, y, color),
    {
        if x < GRID_SIZE && y < GRID_SIZE {
            let velocity = nearest_velocity(color.rgb);
            Some(encode_button((x + y * 8) as u8, color.style, velocity as u8))
        } else {
            None
        }
    }

    /// The word that lights the button of the layer at `layer_index`.
    pub fn layer_button_word(&self, layer_index: usize, color: Color) -> (word: Option<u32>)
        ensures
            word == layer_word(layer_index, color),
    {
        if layer_index < GRID_SIZE {
            let position = SCENE_LAUNCH_OFFSET + layer_index as u32;
            Some(encode_button(position as u8, color.style, color_low_byte(color.rgb)))
        } else {
            None
        }
    }

    /// The word that lights the transport button.
    pub fn play_button_word(&self, color: Color) -> (word: u32)
        ensures
            word == play_word(color),
    {
        encode_button(SHIFT_BUTTON as u8, color.style, color_low_byte(color.rgb))
    }

    /// The word that lights the button of the section at `section_index`.
    pub fn section_button_word(&self, section_index: usize, color: Color) -> (word: Option<u32>)
        ensures
            word == section_word(section_index, color),
    {
        if section_index < GRID_SIZE {
            let position = TRACK_OFFSET + section_index as u32;
            Some(encode_button(position as u8, color.style, color_low_byte(color.rgb)))
        } else {
            None
        }
    }

    /// The word that carries out a lighting command.
    pub fn lighting_word(&self, lighting: Lighting) -> (word: Option<u32>)
        ensures
            word == lighting_word_spec(lighting),
    {
        match lighting.button {
            Button::Play => Some(self.play_button_word(lighting.color)),
            Button::Section { index } => self.section_button_word(index, lighting.color),
            Button::Layer { index } => self.layer_button_word(index, lighting.color),
            Button::Grid { x, y } => self.grid_button_word(x, y, lighting.color),
        }
    }
}

proof fn lemma_packed_fields(style_field: u32, position_code: u32, color_field: u32)
    by (bit_vector)
    requires
        style_field & 0xfff0ffff == 0,
        position_code < 256,
        color_field < 256,
    ensures
        (0x20900000u32 | style_field | (position_code << 8) | color_field) >> 20 == 0x209,
        ((0x20900000u32 | style_field | (position_code << 8) | color_field) & 0x0000ff00) >> 8
            == position_code,
        (0x20900000u32 | style_field | (position_code << 8) | color_field) & 0x000f0000
            == style_field,
        (0x20900000u32 | style_field | (position_code << 8) | color_field) & 0x000000ff
            == color_field,
{
}

/// The style field of every style lies within bits 19 to 16.
pub proof fn lemma_style_bits_in_field(style: ColorStyle)
    ensures
        style_bits(style) & !STYLE_MASK == 0,
{
    let bits = style_bits(style);
    assert(bits & !0x000f0000u32 == 0) by (bit_vector)
        requires
            bits <= 0x000f0000,
            bits % 0x10000 == 0,
    ;
}

/// No two styles share a style field.
pub proof fn lemma_style_bits_distinct(a: ColorStyle, b: ColorStyle)
    requires
        style_bits(a) == style_bits(b),
    ensures
        a == b,
{
}

/// The fields of an encoded word are the values that were encoded: the
/// command is note-on, and the position code, the style and the colour can
/// each be read back from their bits.
pub proof fn lemma_encode_fields(position_code: u8, style: ColorStyle, color_field: u8)
    ensures
        encode(position_code, style, color_field) >> 20 == NOTE_ON_STATUS >> 20,
        (GRID_MASK & encode(position_code, style, color_field)) >> 8 == position_code,
        encode(position_code, style, color_field) & STYLE_MASK == style_bits(style),
        encode(position_code, style, color_field) & COLOR_MASK == color_field,
{
    lemma_style_bits_in_field(style);
    let bits = style_bits(style);
    assert(bits & 0xfff0ffff == 0) by (bit_vector)
        requires
            bits & !0x000f0000u32 == 0,
    ;
    lemma_packed_fields(bits, position_code as u32, color_field as u32);
    let word = encode(position_code, style, color_field);
    assert(GRID_MASK & word == word & GRID_MASK) by (bit_vector);
    assert(0x20900000u32 >> 20 == 0x209) by (bit_vector);
}

/// Lighting a cell and pressing it name the same cell: the word that lights
/// the cell in column `x` and row `y`, read as a word from the controller, is
/// the toggle of that cell, whatever the colour.
pub proof fn lemma_grid_round_trip(x: usize, y: usize, color: Color)
    requires
        x < GRID_SIZE,
        y < GRID_SIZE,
    ensures
        grid_word(x, y, color) is Some,
        decode(grid_word(x, y, color).unwrap()) == (Action::GridToggle { x: x as u32, y: y as u32 }),
{
    lemma_encode_fields((x + y * 8) as u8, color.style, nearest_velocity_spec(color.rgb) as u8);
}

/// The word that lights the button of a section, read as a word from the
/// controller, selects that section.
pub proof fn lemma_section_round_trip(index: usize, color: Color)
    requires
        index < GRID_SIZE,
    ensures
        section_word(index, color) is Some,
        decode(section_word(index, color).unwrap()) == (Action::SectionSelect {
            pos: index as u32,
        }),
{
    lemma_encode_fields((TRACK_OFFSET + index) as u8, color.style, low_byte(color.rgb));
}

/// The word that lights the button of a layer, read as a word from the
/// controller, selects that layer.
pub proof fn lemma_layer_round_trip(index: usize, color: Color)
    requires
        index < GRID_SIZE,
    ensures
        layer_word(index, color) is Some,
        decode(layer_word(index, color).unwrap()) == (Action::LayerSelect { pos: index as u32 }),
{
    lemma_encode_fields((SCENE_LAUNCH_OFFSET + index) as u8, color.style, low_byte(color.rgb));
}

/// The word that lights the transport button, read as a word from the
/// controller, starts playback.
pub proof fn lemma_play_round_trip(color: Color)
    ensures
        decode(play_word(color)) == Action::PlayModeChange(PlayMode::Playing),
{
    lemma_encode_fields(SHIFT_BUTTON as u8, color.style, low_byte(color.rgb));
}

/// A cell's word carries the velocity of the palette entry nearest to the
/// colour, and the style that was asked for.
pub proof fn lemma_grid_word_fields(x: usize, y: usize, color: Color)
    requires
        x < GRID_SIZE,
        y < GRID_SIZE,
    ensures
        grid_word(x, y, color).unwrap() & COLOR_MASK == nearest_velocity_spec(color.rgb),
        grid_word(x, y, color).unwrap() & STYLE_MASK == style_bits(color.style),
{
    lemma_nearest_velocity_range(color.rgb);
    lemma_encode_fields((x + y * 8) as u8, color.style, nearest_velocity_spec(color.rgb) as u8);
}

/// The release of a button is no action, whichever button it was.
pub proof fn lemma_note_off_is_noop(word: u32)
    requires
        word >> 20 == NOTE_OFF_STATUS >> 20,
    ensures
        decode(word) == Action::Noop,
{
    assert(0x20900000u32 >> 20 != 0x20800000u32 >> 20) by (bit_vector);
}

/// Whether the controller has the button.
pub open spec fn on_controller(button: Button) -> bool {
    match button {
        Button::Play => true,
        Button::Section { index } => index < GRID_SIZE,
        Button::Layer { index } => index < GRID_SIZE,
        Button::Grid { x, y } => x < GRID_SIZE && y < GRID_SIZE,
    }
}

/// A lighting command has a word exactly when the controller has the button.
pub proof fn lemma_lighting_word_exists(lighting: Lighting)
    ensures
        lighting_word_spec(lighting) is Some <==> on_controller(lighting.button),
{
}

/// Whether a state fits on the controller: at most eight sections, and at
/// most eight layers in the active section.
pub open spec fn fits_controller(state: GlobalStateView) -> bool {
    &&& state.sections.len() <= GRID_SIZE
    &&& state.player.active_section_index < state.sections.len()
        ==> state.active_section().layers.len() <= GRID_SIZE
}

/// Every command that shows a state that fits on the controller has a word.
pub proof fn lemma_rendered_commands_have_words(state: GlobalStateView, k: int)
    requires
        state.well_formed(),
        fits_controller(state),
        0 <= k < render_spec(state).len(),
    ensures
        lighting_word_spec(render_spec(state)[k]) is Some,
{
    lemma_render_buttons(state, k);
    if render_spec(state)[k].button is Grid {
        // A cell belongs to the active layer, which has eight columns.
        assert(state.active_section().well_formed());
        assert(state.active_layer().well_formed());
    }
}

} // verus!
