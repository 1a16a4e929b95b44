//! Device layer of a step sequencer that is played on a grid controller: the
//! codec for the controller's 32-bit MIDI words, the quantizer that maps an
//! RGB colour to the controller's indexed palette, the state machine that holds
//! the musical state, and the renderer that turns that state into lighting
//! commands.

pub mod action;
pub mod akai_apc_mini_mk2;
pub mod device;
pub mod error;
pub mod palette;
pub mod reducer;
pub mod render;
pub mod seq_lemmas;
pub mod state;
