//! How raw MIDI data bytes are turned into button states and axis values.
pub mod button_behaviours;
pub mod axis_behaviours;
