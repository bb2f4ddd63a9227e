//! MIDI events, their classification and the callback tree that dispatches
//! them.
pub mod event;
pub mod util;
pub mod callback_tree;
pub mod learn_event;
