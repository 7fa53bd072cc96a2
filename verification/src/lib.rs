//! Glider: the verified core of an endless momentum runner.
//!
//! `input` tracks TV-remote / keyboard actions with one-frame press pulses;
//! `game` holds the game's discrete rules: the screen flow, the combo meter,
//! the terrain column store, the snow-tile sequencer and the column scheduler.
pub mod game;
pub mod input;
