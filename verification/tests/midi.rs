use pipeweaver_midi::midi::callback_tree::{
    is_event_valid, incoming_event, CallbackTreeLeaves, ChannelVoiceMsgCallbackTree, IncomingMidi,
    MidiMsgCallbackTree,
};
use pipeweaver_midi::midi::event::{MidiEvent, VoiceEvent};
use pipeweaver_midi::midi::learn_event::learnt_event;
use pipeweaver_midi::midi::util::{CallbackTreeError, ChannelVoiceKind};
use pipeweaver_midi::pipeweaver_controllers::providers::CallbackProvider;
use std::cell::RefCell;
use std::rc::Rc;

#[derive(Clone)]
struct Recorder {
    name: u32,
    seen: Rc<RefCell<Vec<(u32, u8)>>>,
}

impl CallbackProvider for Recorder {
    fn callback(&self, data: u8) {
        self.seen.borrow_mut().push((self.name, data));
    }
}

fn note_on(channel: u8, note: u8, velocity: u8) -> MidiEvent {
    MidiEvent::ChannelVoice { channel, msg: VoiceEvent::NoteOn { note, velocity } }
}

fn note_off(channel: u8, note: u8, velocity: u8) -> MidiEvent {
    MidiEvent::ChannelVoice { channel, msg: VoiceEvent::NoteOff { note, velocity } }
}

fn cc(channel: u8, control: u8, value: u8) -> MidiEvent {
    MidiEvent::ChannelVoice { channel, msg: VoiceEvent::ControlChange { control, value, simple: true } }
}

#[test]
fn parses_note_on() {
    assert_eq!(incoming_event(&[0x90, 60, 100]), IncomingMidi::Accepted(note_on(0, 60, 100)));
}

#[test]
fn parses_note_off_and_control_change_with_channel() {
    assert_eq!(incoming_event(&[0x85, 61, 0]), IncomingMidi::Accepted(note_off(5, 61, 0)));
    assert_eq!(incoming_event(&[0xBF, 7, 99]), IncomingMidi::Accepted(cc(15, 7, 99)));
}

#[test]
fn ignores_other_messages() {
    assert_eq!(incoming_event(&[0xC0, 5]), IncomingMidi::Ignored);
    assert_eq!(incoming_event(&[0xF8]), IncomingMidi::Ignored);
    // Controller numbers from 120 on are channel mode messages.
    assert_eq!(incoming_event(&[0xB0, 121, 0]), IncomingMidi::Ignored);
}

#[test]
fn rejects_malformed_bytes() {
    assert_eq!(incoming_event(&[]), IncomingMidi::Unparsable);
    assert_eq!(incoming_event(&[0x90, 60]), IncomingMidi::Unparsable);
    assert_eq!(incoming_event(&[0x90, 200, 1]), IncomingMidi::Unparsable);
}

#[test]
fn event_validity() {
    assert!(is_event_valid(note_on(0, 1, 2)));
    assert!(is_event_valid(note_off(0, 1, 2)));
    assert!(is_event_valid(cc(3, 1, 2)));
    assert!(!is_event_valid(MidiEvent::ChannelVoice { channel: 0, msg: VoiceEvent::Other }));
    assert!(!is_event_valid(MidiEvent::Other));
}

#[test]
fn kind_place_and_value() {
    let on = VoiceEvent::NoteOn { note: 40, velocity: 3 };
    let off = VoiceEvent::NoteOff { note: 41, velocity: 90 };
    let c = VoiceEvent::ControlChange { control: 20, value: 77, simple: true };
    assert_eq!(ChannelVoiceKind::from(&on), ChannelVoiceKind::Note);
    assert_eq!(ChannelVoiceKind::from(&off), ChannelVoiceKind::Note);
    assert_eq!(ChannelVoiceKind::from(&c), ChannelVoiceKind::ControlChange);
    assert_eq!(ChannelVoiceKind::from(&VoiceEvent::Other), ChannelVoiceKind::Other);
    assert_eq!(ChannelVoiceKind::Note.get_place(on), Ok(40));
    assert_eq!(ChannelVoiceKind::Note.get_place(off), Ok(41));
    assert_eq!(ChannelVoiceKind::ControlChange.get_place(c), Ok(20));
    assert_eq!(ChannelVoiceKind::Note.get_val(on), Ok(127));
    assert_eq!(ChannelVoiceKind::Note.get_val(off), Ok(0));
    assert_eq!(ChannelVoiceKind::ControlChange.get_val(c), Ok(77));
}

#[test]
fn kind_errors() {
    let on = VoiceEvent::NoteOn { note: 40, velocity: 3 };
    let c = VoiceEvent::ControlChange { control: 20, value: 77, simple: true };
    assert_eq!(ChannelVoiceKind::Note.get_place(c), Err(CallbackTreeError::NotNoteMessage));
    assert_eq!(ChannelVoiceKind::ControlChange.get_place(on), Err(CallbackTreeError::NotControlChange));
    assert_eq!(ChannelVoiceKind::Other.get_place(on), Err(CallbackTreeError::NoPlaceForKind));
    assert_eq!(ChannelVoiceKind::Note.get_val(c), Err(CallbackTreeError::NotNoteMessage));
    assert_eq!(ChannelVoiceKind::ControlChange.get_val(on), Err(CallbackTreeError::NotControlChange));
    assert_eq!(ChannelVoiceKind::Other.get_val(on), Err(CallbackTreeError::NoValueForKind));
}

#[test]
fn leaves_insert_get_remove() {
    let mut leaves: CallbackTreeLeaves<u32> = CallbackTreeLeaves::new();
    assert_eq!(leaves.get_if_exists(3), None);
    assert_eq!(leaves.insert_callback(3, 7), Ok(()));
    assert_eq!(leaves.get_if_exists(3), Some(7));
    assert_eq!(leaves.insert_callback(3, 8), Ok(()));
    assert_eq!(leaves.get_if_exists(3), Some(8));
    leaves.remove_callback(3);
    assert_eq!(leaves.get_if_exists(3), None);
    leaves.remove_callback(3);
}

#[test]
fn channel_tree_keeps_kinds_apart() {
    let mut t: ChannelVoiceMsgCallbackTree<u32> = ChannelVoiceMsgCallbackTree::new();
    assert_eq!(t.insert_callback(ChannelVoiceKind::Note, 10, 1), Ok(()));
    assert_eq!(t.insert_callback(ChannelVoiceKind::ControlChange, 10, 2), Ok(()));
    assert_eq!(t.get_if_exists(ChannelVoiceKind::Note, 10), Some(1));
    assert_eq!(t.get_if_exists(ChannelVoiceKind::ControlChange, 10), Some(2));
    assert_eq!(t.get_if_exists(ChannelVoiceKind::Other, 10), None);
    t.rm_callback(ChannelVoiceKind::Note, 10);
    assert_eq!(t.get_if_exists(ChannelVoiceKind::Note, 10), None);
    assert_eq!(t.get_if_exists(ChannelVoiceKind::ControlChange, 10), Some(2));
    t.rm_callback(ChannelVoiceKind::Other, 4);
}

#[test]
fn tree_read_after_write_and_remove() {
    let mut tree: MidiMsgCallbackTree<u32> = MidiMsgCallbackTree::new();
    assert_eq!(tree.get_if_exists(&cc(0, 20, 0)), None);
    assert_eq!(tree.insert_callback(&cc(0, 20, 0), 5), Ok(()));
    assert_eq!(tree.insert_callback(&note_on(1, 20, 0), 6), Ok(()));
    // The value carried by the message does not matter.
    assert_eq!(tree.get_if_exists(&cc(0, 20, 127)), Some(5));
    // Note on and note off share a binding.
    assert_eq!(tree.get_if_exists(&note_off(1, 20, 64)), Some(6));
    // Channels and kinds are kept apart.
    assert_eq!(tree.get_if_exists(&cc(1, 20, 0)), None);
    assert_eq!(tree.get_if_exists(&note_on(0, 20, 0)), None);
    assert_eq!(tree.get_if_exists(&MidiEvent::Other), None);
    tree.rm_callback(&cc(0, 20, 99));
    assert_eq!(tree.get_if_exists(&cc(0, 20, 0)), None);
    assert_eq!(tree.get_if_exists(&note_on(1, 20, 1)), Some(6));
    tree.rm_callback(&MidiEvent::Other);
    tree.rm_callback(&cc(9, 9, 9));
}

#[test]
fn tree_insert_errors_leave_it_unchanged() {
    let mut tree: MidiMsgCallbackTree<u32> = MidiMsgCallbackTree::new();
    assert_eq!(tree.insert_callback(&MidiEvent::Other, 1), Err(CallbackTreeError::NotChannelVoice));
    let other_voice = MidiEvent::ChannelVoice { channel: 2, msg: VoiceEvent::Other };
    assert_eq!(tree.insert_callback(&other_voice, 1), Err(CallbackTreeError::NoPlaceForKind));
    assert_eq!(tree.get_if_exists(&MidiEvent::Other), None);
}

#[test]
fn tree_exec_hands_values_to_callbacks() {
    let seen = Rc::new(RefCell::new(Vec::new()));
    let mut tree = MidiMsgCallbackTree::new();
    tree.insert_callback(&cc(0, 7, 0), Recorder { name: 1, seen: seen.clone() }).unwrap();
    tree.insert_callback(&note_on(0, 60, 0), Recorder { name: 2, seen: seen.clone() }).unwrap();
    assert_eq!(tree.exec(&cc(0, 7, 42)), Ok(true));
    assert_eq!(tree.exec(&note_on(0, 60, 5)), Ok(true));
    assert_eq!(tree.exec(&note_off(0, 60, 5)), Ok(true));
    assert_eq!(tree.exec(&cc(0, 8, 42)), Ok(false));
    assert_eq!(tree.exec(&cc(3, 7, 42)), Ok(false));
    assert_eq!(tree.exec(&MidiEvent::Other), Ok(false));
    assert_eq!(
        tree.exec(&MidiEvent::ChannelVoice { channel: 0, msg: VoiceEvent::Other }),
        Err(CallbackTreeError::NoPlaceForKind)
    );
    assert_eq!(*seen.borrow(), vec![(1, 42), (2, 127), (2, 0)]);
}

#[test]
fn learning_waits_for_a_change() {
    assert_eq!(learnt_event(None, None), None);
    assert_eq!(learnt_event(Some(cc(0, 1, 1)), Some(cc(0, 1, 1))), None);
    assert_eq!(learnt_event(None, Some(cc(0, 1, 1))), Some(cc(0, 1, 1)));
    assert_eq!(learnt_event(Some(cc(0, 1, 1)), Some(cc(0, 1, 2))), Some(cc(0, 1, 2)));
}

#[test]
fn tree_dispatch_gives_callback_and_value() {
    let mut tree: MidiMsgCallbackTree<u32> = MidiMsgCallbackTree::new();
    tree.insert_callback(&cc(0, 20, 0), 5).unwrap();
    tree.insert_callback(&note_on(0, 60, 0), 6).unwrap();
    assert_eq!(tree.dispatch(&cc(0, 20, 99)), Ok(Some((5, 99))));
    assert_eq!(tree.dispatch(&note_on(0, 60, 9)), Ok(Some((6, 127))));
    assert_eq!(tree.dispatch(&note_off(0, 60, 9)), Ok(Some((6, 0))));
    assert_eq!(tree.dispatch(&cc(1, 20, 99)), Ok(None));
    assert_eq!(tree.dispatch(&note_on(0, 20, 9)), Ok(None));
    assert_eq!(tree.dispatch(&MidiEvent::Other), Ok(None));
    assert_eq!(
        tree.dispatch(&MidiEvent::ChannelVoice { channel: 0, msg: VoiceEvent::Other }),
        Err(CallbackTreeError::NoPlaceForKind)
    );
}

#[test]
fn tree_exec_calls_once_with_the_value() {
    let seen = Rc::new(RefCell::new(Vec::new()));
    let mut tree = MidiMsgCallbackTree::new();
    tree.insert_callback(&cc(0, 20, 0), Recorder { name: 1, seen: seen.clone() }).unwrap();
    assert_eq!(tree.exec(&cc(0, 20, 99)), Ok(true));
    assert_eq!(tree.exec(&cc(1, 20, 99)), Ok(false));
    assert_eq!(tree.exec(&note_on(0, 20, 9)), Ok(false));
    assert_eq!(*seen.borrow(), vec![(1, 99)]);
}

#[test]
fn channel_tree_holds_the_last_binding() {
    let mut t: ChannelVoiceMsgCallbackTree<u32> = ChannelVoiceMsgCallbackTree::new();
    assert_eq!(t.get_if_exists(ChannelVoiceKind::Note, 1), None);
    t.insert_callback(ChannelVoiceKind::Note, 1, 10).unwrap();
    t.insert_callback(ChannelVoiceKind::Note, 2, 20).unwrap();
    t.insert_callback(ChannelVoiceKind::Note, 1, 11).unwrap();
    t.rm_callback(ChannelVoiceKind::Note, 2);
    t.insert_callback(ChannelVoiceKind::ControlChange, 2, 30).unwrap();
    t.rm_callback(ChannelVoiceKind::ControlChange, 2);
    t.insert_callback(ChannelVoiceKind::ControlChange, 2, 31).unwrap();
    assert_eq!(t.get_if_exists(ChannelVoiceKind::Note, 1), Some(11));
    assert_eq!(t.get_if_exists(ChannelVoiceKind::Note, 2), None);
    assert_eq!(t.get_if_exists(ChannelVoiceKind::ControlChange, 2), Some(31));
    assert_eq!(t.get_if_exists(ChannelVoiceKind::ControlChange, 1), None);
}
