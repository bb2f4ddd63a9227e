//! The MIDI device panel: showing and editing the learnt message, and keeping
//! the MIDI port connected.
use vstd::prelude::*;
use crate::midi::callback_tree::{MidiMsgCallbackTree, event_addressable, event_key, lemma_lookup_after_insert};
use crate::midi::event::{MidiEvent, VoiceEvent};
use crate::midi::util::ChannelVoiceKind;

verus! {

/// How the panel shows a learnt message: the channel index, whether it is a
/// control change (rather than a note) and the controller or note number.
/// Without a message, or for a message that is not a channel voice message,
/// it shows channel 1, control change 0; a control change that is not a plain
/// controller/value pair shows as control change 0, other channel voice
/// messages as note 0 on their channel.
pub open spec fn learn_display(learn: Option<MidiEvent>) -> (u8, bool, u8) {
    match learn {
        None => (0, true, 0),
        Some(MidiEvent::ChannelVoice { channel, msg }) => match msg {
            VoiceEvent::ControlChange { control, simple, .. } => (channel, true, if simple {
                control
            } else {
                0
            }),
            VoiceEvent::NoteOff { note, .. } => (channel, false, note),
            VoiceEvent::NoteOn { note, .. } => (channel, false, note),
            VoiceEvent::Other => (channel, false, 0),
        },
        Some(MidiEvent::Other) => (0, true, 0),
    }
}

/// The message the panel builds from a hand-edited channel, type and number:
/// a control change with value 0 or a note on with velocity 0.
pub open spec fn custom_learn_event(channel: u8, is_cc: bool, number: u8) -> MidiEvent {
    MidiEvent::ChannelVoice {
        channel,
        msg: if is_cc {
            VoiceEvent::ControlChange { control: number, value: 0, simple: true }
        } else {
            VoiceEvent::NoteOn { note: number, velocity: 0 }
        },
    }
}

/// The channel, type and number the panel shows for the learnt message.
pub fn learn_selection(learn: Option<MidiEvent>) -> (r: (u8, bool, u8))
    ensures
        r == learn_display(learn),
{
    match learn {
        None => (0, true, 0),
        Some(msg) => match msg {
            MidiEvent::ChannelVoice { channel, msg } => {
                let (is_cc, value) = match msg {
                    VoiceEvent::ControlChange { control, simple, .. } => (true, if simple {
                        control
                    } else {
                        0
                    }),
                    VoiceEvent::NoteOff { note, .. } | VoiceEvent::NoteOn { note, .. } => (false, note),
                    _ => (false, 0),
                };
                (channel, is_cc, value)
            },
            _ => (0, true, 0),
        },
    }
}

/// The message the panel builds from a hand-edited channel, type and number.
pub fn custom_event(channel: u8, is_cc: bool, number: u8) -> (r: MidiEvent)
    ensures
        r == custom_learn_event(channel, is_cc, number),
{
    MidiEvent::ChannelVoice {
        channel,
        msg: if is_cc {
            VoiceEvent::ControlChange { control: number, value: 0, simple: true }
        } else {
            VoiceEvent::NoteOn { note: number, velocity: 0 }
        },
    }
}

/// The message a saved binding is attached to: the learnt one, or a note on
/// of note 0 on channel 1 when nothing was learnt.
pub fn binding_event(learn: Option<MidiEvent>) -> (r: MidiEvent)
    ensures
        r == match learn {
            Some(e) => e,
            None => MidiEvent::ChannelVoice { channel: 0, msg: VoiceEvent::NoteOn { note: 0, velocity: 0 } },
        },
{
    match learn {
        Some(e) => e,
        None => MidiEvent::ChannelVoice { channel: 0, msg: VoiceEvent::NoteOn { note: 0, velocity: 0 } },
    }
}

/// Saving a binding: `callback` is attached to the message the binding is
/// made for (the learnt one, or the default of `binding_event`), which is
/// returned so that it can be stored with the configuration. Afterwards that
/// message reaches `callback`, and nothing else in the tree changed.
pub fn save_binding<C: Clone>(tree: &mut MidiMsgCallbackTree<C>, learn: Option<MidiEvent>, callback: C) -> (r: MidiEvent)
    requires
        event_key(match learn {
            Some(e) => e,
            None => MidiEvent::ChannelVoice { channel: 0, msg: VoiceEvent::NoteOn { note: 0, velocity: 0 } },
        }) is Some,
    ensures
        r == match learn {
            Some(e) => e,
            None => MidiEvent::ChannelVoice { channel: 0, msg: VoiceEvent::NoteOn { note: 0, velocity: 0 } },
        },
        final(tree)@ == old(tree)@.insert(event_key(r)->0, callback),
        final(tree).lookup(r) == Some(callback),
{
    let event = binding_event(learn);
    let _ = tree.insert_callback(&event, callback);
    proof {
        lemma_lookup_after_insert(*old(tree), *tree, event, callback, event);
    }
    event
}

/// Deleting a binding: the callback the learnt message reaches, if any, is
/// detached; without a learnt message nothing changes.
pub fn forget_binding<C: Clone>(tree: &mut MidiMsgCallbackTree<C>, learn: Option<MidiEvent>)
    requires
        learn matches Some(e) ==> event_addressable(e),
    ensures
        final(tree)@ == match learn {
            Some(e) => match event_key(e) {
                Some(k) => old(tree)@.remove(k),
                None => old(tree)@,
            },
            None => old(tree)@,
        },
{
    match learn {
        Some(e) => tree.rm_callback(&e),
        None => {},
    }
}

/// The bindings of `tree` once each message of `bindings` has been bound to
/// its callback, in order, starting from `bindings_before`.
pub open spec fn with_bindings<C>(
    bindings_before: Map<(u8, ChannelVoiceKind, u8), C>,
    bindings: Seq<(MidiEvent, C)>,
) -> Map<(u8, ChannelVoiceKind, u8), C>
    decreases bindings.len(),
{
    if bindings.len() == 0 {
        bindings_before
    } else {
        with_bindings(bindings_before, bindings.drop_last()).insert(
            event_key(bindings.last().0)->0,
            bindings.last().1,
        )
    }
}

/// Registering saved bindings: each message is bound to its callback, in
/// order, so a later binding of the same message replaces an earlier one.
pub fn register_bindings<C: Clone>(tree: &mut MidiMsgCallbackTree<C>, bindings: Vec<(MidiEvent, C)>)
    requires
        forall|i: int| 0 <= i < bindings@.len() ==> (event_key(#[trigger] bindings@[i].0) is Some),
    ensures
        final(tree)@ == with_bindings(old(tree)@, bindings@),
{
    let ghost all = bindings@;
    assert(all.len() == bindings.len());
    let mut rest = bindings;
    let mut i: usize = 0;
    assert(all.take(0) =~= Seq::<(MidiEvent, C)>::empty());
    assert(all.skip(0) =~= all);
    while rest.len() > 0
        invariant
            i <= all.len() <= usize::MAX,
            rest@ == all.skip(i as int),
            tree@ == with_bindings(old(tree)@, all.take(i as int)),
            forall|j: int| 0 <= j < all.len() ==> (event_key(#[trigger] all[j].0) is Some),
        decreases rest@.len(),
    {
        assert(rest@.len() == all.len() - i);
        let (event, callback) = rest.remove(0);
        assert(all[i as int] == (event, callback));
        let _ = tree.insert_callback(&event, callback);
        assert(all.take(i + 1).drop_last() =~= all.take(i as int));
        assert(all.skip(i + 1) =~= all.skip(i as int).drop_first());
        i = i + 1;
    }
    assert(all.take(i as int) =~= all);
}

/// What to do with the MIDI connection after the panel was drawn.
#[derive(Clone, Copy, Debug, PartialEq, Eq, Structural)]
pub enum PortAction {
    /// The port changed: disconnect, then connect to the new port.
    Reconnect,
    /// The port no longer exists: disconnect.
    Disconnect,
    /// The port is valid and nothing is connected: connect.
    Connect,
    /// Leave the connection as it is.
    Keep,
}

/// Decides what to do with the MIDI connection: a changed port is
/// reconnected, a vanished port disconnected, a valid unconnected port
/// connected.
pub fn port_action(port_changed: bool, port_valid: bool, connected: bool) -> (r: PortAction)
    ensures
        r == if port_changed {
            PortAction::Reconnect
        } else if !port_valid {
            PortAction::Disconnect
        } else if !connected {
            PortAction::Connect
        } else {
            PortAction::Keep
        },
{
    if port_changed {
        PortAction::Reconnect
    } else if !port_valid {
        PortAction::Disconnect
    } else if port_valid && !connected {
        PortAction::Connect
    } else {
        PortAction::Keep
    }
}

/// The index of the first port whose name is `device`, if any.
pub fn find_port(port_names: &Vec<String>, device: &String) -> (r: Option<usize>)
    ensures
        match r {
            Some(i) => i < port_names@.len() && port_names@[i as int]@ == device@ && forall|j: int|
                0 <= j < i ==> port_names@[j]@ != device@,
            None => forall|j: int| 0 <= j < port_names@.len() ==> port_names@[j]@ != device@,
        },
{
    let mut i: usize = 0;
    while i < port_names.len()
        invariant
            i <= port_names@.len(),
            forall|j: int| 0 <= j < i ==> port_names@[j]@ != device@,
        decreases port_names@.len() - i,
    {
        if port_names[i] == *device {
            return Some(i);
        }
        i += 1;
    }
    None
}

/// Editing the learnt message by hand and reading it back gives what was
/// entered: the panel shows exactly the channel, type and number typed in.
pub proof fn lemma_custom_event_round_trip(channel: u8, is_cc: bool, number: u8)
    ensures
        learn_display(Some(custom_learn_event(channel, is_cc, number))) == (channel, is_cc, number),
{
}

} // verus!
