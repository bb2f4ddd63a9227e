//! Classification of channel voice messages: which kind of control a message
//! addresses, which "place" (note or controller number) and which value.
use vstd::prelude::*;
use crate::midi::event::VoiceEvent;

verus! {

/// The kinds of channel voice message a callback can be attached to.
#[derive(Clone, Copy, Debug, PartialEq, Eq, Hash, Structural)]
pub enum ChannelVoiceKind {
    Note,
    ControlChange,
    Other,
}

/// Why a message could not be placed in, or dispatched through, the callback
/// tree.
#[derive(Clone, Copy, Debug, PartialEq, Eq, Structural)]
pub enum CallbackTreeError {
    /// A note kind was paired with a message that is not a note on or off.
    NotNoteMessage,
    /// A control change kind was paired with another message.
    NotControlChange,
    /// Only notes and control changes have a place.
    NoPlaceForKind,
    /// Only notes and control changes have a value.
    NoValueForKind,
    /// Only channel voice messages can carry a callback.
    NotChannelVoice,
}

/// The kind of a channel voice message.
pub open spec fn voice_kind(msg: VoiceEvent) -> ChannelVoiceKind {
    match msg {
        VoiceEvent::NoteOn { .. } => ChannelVoiceKind::Note,
        VoiceEvent::NoteOff { .. } => ChannelVoiceKind::Note,
        VoiceEvent::ControlChange { .. } => ChannelVoiceKind::ControlChange,
        VoiceEvent::Other => ChannelVoiceKind::Other,
    }
}

/// The place `kind` reads from `msg`: the note number of a note message, the
/// controller number of a control change.
pub open spec fn voice_place(kind: ChannelVoiceKind, msg: VoiceEvent) -> Result<u8, CallbackTreeError> {
    match kind {
        ChannelVoiceKind::Note => match msg {
            VoiceEvent::NoteOn { note, .. } => Ok(note),
            VoiceEvent::NoteOff { note, .. } => Ok(note),
            _ => Err(CallbackTreeError::NotNoteMessage),
        },
        ChannelVoiceKind::ControlChange => match msg {
            VoiceEvent::ControlChange { control, .. } => Ok(control),
            _ => Err(CallbackTreeError::NotControlChange),
        },
        ChannelVoiceKind::Other => Err(CallbackTreeError::NoPlaceForKind),
    }
}

/// The value `kind` reads from `msg`: 127 for a note on, 0 for a note off,
/// the controller value of a control change.
pub open spec fn voice_value(kind: ChannelVoiceKind, msg: VoiceEvent) -> Result<u8, CallbackTreeError> {
    match kind {
        ChannelVoiceKind::Note => match msg {
            VoiceEvent::NoteOn { .. } => Ok(127u8),
            VoiceEvent::NoteOff { .. } => Ok(0u8),
            _ => Err(CallbackTreeError::NotNoteMessage),
        },
        ChannelVoiceKind::ControlChange => match msg {
            VoiceEvent::ControlChange { value, .. } => Ok(value),
            _ => Err(CallbackTreeError::NotControlChange),
        },
        ChannelVoiceKind::Other => Err(CallbackTreeError::NoValueForKind),
    }
}

impl From<&VoiceEvent> for ChannelVoiceKind {
    fn from(msg: &VoiceEvent) -> (r: Self) {
        match msg {
            VoiceEvent::NoteOn { .. } => ChannelVoiceKind::Note,
            VoiceEvent::NoteOff { .. } => ChannelVoiceKind::Note,
            VoiceEvent::ControlChange { .. } => ChannelVoiceKind::ControlChange,
            VoiceEvent::Other => ChannelVoiceKind::Other,
        }
    }
}

impl vstd::std_specs::convert::FromSpecImpl<&VoiceEvent> for ChannelVoiceKind {
    open spec fn obeys_from_spec() -> bool {
        true
    }

    open spec fn from_spec(msg: &VoiceEvent) -> Self {
        voice_kind(*msg)
    }
}

impl ChannelVoiceKind {
    /// The note or controller number this kind reads from `msg`.
    pub fn get_place(self, msg: VoiceEvent) -> (r: Result<u8, CallbackTreeError>)
        ensures
            r == voice_place(self, msg),
    {
        match self {
            ChannelVoiceKind::Note => match msg {
                VoiceEvent::NoteOn { note, .. } => Ok(note),
                VoiceEvent::NoteOff { note, .. } => Ok(note),
                _ => Err(CallbackTreeError::NotNoteMessage),
            },
            ChannelVoiceKind::ControlChange => match msg {
                VoiceEvent::ControlChange { control, .. } => Ok(control),
                _ => Err(CallbackTreeError::NotControlChange),
            },
            ChannelVoiceKind::Other => Err(CallbackTreeError::NoPlaceForKind),
        }
    }

    /// The value this kind reads from `msg`, handed to a callback.
    pub fn get_val(self, msg: VoiceEvent) -> (r: Result<u8, CallbackTreeError>)
        ensures
            r == voice_value(self, msg),
    {
        match self {
            ChannelVoiceKind::Note => match msg {
                VoiceEvent::NoteOn { .. } => Ok(127),
                VoiceEvent::NoteOff { .. } => Ok(0),
                _ => Err(CallbackTreeError::NotNoteMessage),
            },
            ChannelVoiceKind::ControlChange => match msg {
                VoiceEvent::ControlChange { value, .. } => Ok(value),
                _ => Err(CallbackTreeError::NotControlChange),
            },
            ChannelVoiceKind::Other => Err(CallbackTreeError::NoValueForKind),
        }
    }
}

} // verus!
