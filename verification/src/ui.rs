//! The decisions the configuration UI makes: which behaviour a selection
//! builds, how the learnt MIDI message is shown and edited, and when the MIDI
//! port is (re)connected.
pub mod behaviour_selectors;
pub mod midi_device;
