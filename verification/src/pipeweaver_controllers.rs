//! What the MIDI side drives in the Pipeweaver daemon.
pub mod providers;
pub mod status;
pub mod commands;
