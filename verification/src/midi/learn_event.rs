//! Learning a binding: waiting for the next MIDI message that differs from
//! the one seen when learning started.
use vstd::prelude::*;
use crate::midi::event::MidiEvent;

verus! {

/// The outcome of one poll while learning: `None` to keep waiting, or the
/// learnt message once the last message seen differs from the one seen when
/// learning started. The last message seen never goes back to "none", which
/// is what `requires` states.
pub fn learnt_event(start: Option<MidiEvent>, current: Option<MidiEvent>) -> (r: Option<MidiEvent>)
    requires
        current != start ==> current is Some,
    ensures
        r == if current != start {
            current
        } else {
            None
        },
{
    let changed = match (start, current) {
        (None, None) => false,
        (Some(a), Some(b)) => a != b,
        _ => true,
    };
    if changed {
        match current {
            Some(e) => Some(e),
            None => None,
        }
    } else {
        None
    }
}

} // verus!
