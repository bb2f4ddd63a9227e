//! The MIDI messages this crate reacts to, held as plain values, and their
//! decoding from the bytes a MIDI port delivers.
use vstd::prelude::*;
use midi_msg::ChannelVoiceMsg as RawVoiceMsg;
use midi_msg::ControlChange as RawCC;
use midi_msg::MidiMsg as RawMidiMsg;

verus! {

/// The body of a channel voice message.
#[derive(Clone, Copy, Debug, PartialEq, Eq, Structural)]
pub enum VoiceEvent {
    NoteOn { note: u8, velocity: u8 },
    NoteOff { note: u8, velocity: u8 },
    /// A control change, by controller number and 7-bit value; `simple`
    /// tells whether the decoder gave it as a plain controller/value pair (as
    /// opposed to a named or high-resolution control).
    ControlChange { control: u8, value: u8, simple: bool },
    /// Any other channel voice message (pressure, program change, pitch bend).
    Other,
}

/// A MIDI message.
#[derive(Clone, Copy, Debug, PartialEq, Eq, Structural)]
pub enum MidiEvent {
    /// A channel voice message; `channel` is 0 for MIDI channel 1 up to 15
    /// for channel 16.
    ChannelVoice { channel: u8, msg: VoiceEvent },
    /// Any message that is not a channel voice message.
    Other,
}

/// What `MidiMsg::from_midi` of the midi-msg crate makes of `bytes` (with a
/// fresh receiver context), read into a `MidiEvent`: `None` when it reports a
/// parse error.
pub uninterp spec fn parsed_midi_event(bytes: Seq<u8>) -> Option<MidiEvent>;

/// Calls `midi_msg::MidiMsg::from_midi` on `bytes` and reads the message into
/// a `MidiEvent` (the channel by its index; a plain `ControlChange::CC` by its
/// fields, any other control change by `ControlChange::control` and
/// `ControlChange::value`). Claimed: the result
/// is a function of the bytes alone, and a channel index is below 16 (the
/// crate's `Channel` has sixteen variants, `Ch1` to `Ch16`, as `repr(u8)`).
/// Nothing else is claimed of the parser.
#[verifier::external_body]
pub(crate) fn parse_midi_event(bytes: &[u8]) -> (r: Option<MidiEvent>)
    ensures
        r == parsed_midi_event(bytes@),
        r matches Some(MidiEvent::ChannelVoice { channel, .. }) ==> channel < 16,
{
    match RawMidiMsg::from_midi(bytes) {
        Ok((RawMidiMsg::ChannelVoice { channel, msg }, _)) => Some(MidiEvent::ChannelVoice {
            channel: channel as u8,
            msg: match msg {
                RawVoiceMsg::NoteOn { note, velocity } => VoiceEvent::NoteOn { note, velocity },
                RawVoiceMsg::NoteOff { note, velocity } => VoiceEvent::NoteOff { note, velocity },
                RawVoiceMsg::ControlChange { control: RawCC::CC { control, value } } => VoiceEvent::ControlChange { control, value, simple: true },
                RawVoiceMsg::ControlChange { control: c } => VoiceEvent::ControlChange { control: c.control(), value: c.value(), simple: false },
                _ => VoiceEvent::Other,
            },
        }),
        Ok(_) => Some(MidiEvent::Other),
        Err(_) => None,
    }
}

} // verus!
