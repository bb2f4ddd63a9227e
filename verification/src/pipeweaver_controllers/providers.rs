//! The interfaces through which MIDI input reaches the daemon side.
use vstd::prelude::*;

verus! {

/// Something that reacts to the value of a MIDI control.
pub trait CallbackProvider {
    /// Called with the value (0..=127) of the control the provider is attached
    /// to.
    fn callback(&self, data: u8);
}

/// A provider driving a level, which can be told the daemon's current level.
pub trait AxisProvider: CallbackProvider {
    fn set(&self, data: u8);
}

/// A provider driving an on/off state, which can be told the daemon's state.
pub trait BooleanProvider: CallbackProvider {
    fn set(&self, data: bool);
}

} // verus!
