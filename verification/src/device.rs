//! What the sequencer asks of a controller: which button to light, and how.

use vstd::prelude::*;

verus! {

/// How a lit button behaves: steady at one of seven brightness levels,
/// pulsing at one of four rates, or blinking at one of five rates.
#[derive(Clone, Copy, Debug, PartialEq, Eq, Structural)]
pub enum ColorStyle {
    Steady100,
    Steady95,
    Steady75,
    Steady65,
    Steady50,
    Steady25,
    Steady10,
    Pulse2,
    Pulse4,
    Pulse8,
    Pulse16,
    Blink2,
    Blink4,
    Blink8,
    Blink16,
    Blink24,
}

/// A lighting request: a 24-bit RGB value and the style to show it in.
#[derive(Clone, Copy, Debug, PartialEq, Eq, Structural)]
pub struct Color {
    pub rgb: u32,
    pub style: ColorStyle,
}

/// A physical button of the controller.
#[derive(Clone, Copy, Debug, PartialEq, Eq, Structural)]
pub enum Button {
    /// The transport button.
    Play,
    /// The button that selects the section at `index`.
    Section { index: usize },
    /// The button that selects the layer at `index`.
    Layer { index: usize },
    /// The cell of the matrix in column `x` and row `y`.
    Grid { x: usize, y: usize },
}

/// One lighting command: the colour that a button is to show.
#[derive(Clone, Copy, Debug, PartialEq, Eq, Structural)]
pub struct Lighting {
    pub button: Button,
    pub color: Color,
}

} // verus!
