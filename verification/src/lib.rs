//! Verified core of a bridge between MIDI control surfaces and the Pipeweaver
//! audio daemon: button and fader behaviours, the MIDI callback tree, the
//! commands sent to the daemon and the decisions made by the configuration UI.
pub mod behaviours;
pub mod config;
pub mod midi;
pub mod pipeweaver_controllers;
pub mod ui;
pub mod tray;
