use pipeweaver_midi::config::{config_base, ConfigBase};
use pipeweaver_midi::behaviours::axis_behaviours::AxisBehaviour;
use pipeweaver_midi::behaviours::button_behaviours::BooleanBehaviour;
use pipeweaver_midi::midi::event::{MidiEvent, VoiceEvent};
use pipeweaver_midi::tray::{
    tray_message, tray_tick, ui_loop_action, window_frame, LifecycleFlags, TrayMessages, UiLoopAction,
};
use pipeweaver_midi::ui::behaviour_selectors::{
    AxisBehaviourKind, AxisBehaviourState, BoolBehaviourKind, BoolBehaviourState,
};
use pipeweaver_midi::midi::callback_tree::MidiMsgCallbackTree;
use pipeweaver_midi::ui::midi_device::{
    binding_event, custom_event, find_port, forget_binding, learn_selection, port_action, register_bindings,
    save_binding, PortAction,
};

#[test]
fn bool_settings_build_behaviours() {
    match (BoolBehaviourState::Toggle { threshold: 30, invert: true }).make_behaviour() {
        BooleanBehaviour::Toggle(t) => assert_eq!(t.to_parts(), (false, false, 30, true)),
        _ => panic!("expected a toggle"),
    }
    match (BoolBehaviourState::Push { threshold: 31, invert: false }).make_behaviour() {
        BooleanBehaviour::Push(p) => assert_eq!(p.to_parts(), (31, false)),
        _ => panic!("expected a push button"),
    }
}

#[test]
fn axis_settings_build_behaviours() {
    match (AxisBehaviourState::MidiAbsolute {}).make_behaviour() {
        AxisBehaviour::Absolute(a) => assert_eq!(a.to_parts(), (0, 127, 0, 100)),
        _ => panic!("expected an absolute axis"),
    }
    match (AxisBehaviourState::CustomAbsolute { min_in: 5, max_in: 90 }).make_behaviour() {
        AxisBehaviour::Absolute(a) => assert_eq!(a.to_parts(), (5, 90, 0, 100)),
        _ => panic!("expected an absolute axis"),
    }
    match (AxisBehaviourState::CustomRelative { threshold: 9, invert: true }).make_behaviour() {
        AxisBehaviour::CustomRelative(a) => assert_eq!(a.to_parts(), (0, 9, true, 1)),
        _ => panic!("expected a custom relative axis"),
    }
    match (AxisBehaviourState::TwosComplimentRelative {}).make_behaviour() {
        AxisBehaviour::TwosComplimentRelative(a) => assert_eq!(a.to_parts(), (0, false)),
        _ => panic!("expected a two's complement axis"),
    }
    match (AxisBehaviourState::SignMagnitudeRelative {}).make_behaviour() {
        AxisBehaviour::SignMagnitudeRelative(a) => assert_eq!(a.to_parts(), (0, false)),
        _ => panic!("expected a sign magnitude axis"),
    }
    match (AxisBehaviourState::BinaryOffsetRelative {}).make_behaviour() {
        AxisBehaviour::BinaryOffsetRelative(a) => assert_eq!(a.to_parts(), (0, false)),
        _ => panic!("expected a binary offset axis"),
    }
}

#[test]
fn selectors_keep_or_reset() {
    let t = BoolBehaviourState::Toggle { threshold: 10, invert: true };
    assert_eq!(t.select(BoolBehaviourKind::Toggle), t);
    assert_eq!(t.select(BoolBehaviourKind::Push), BoolBehaviourState::Push { threshold: 64, invert: false });
    let p = BoolBehaviourState::Push { threshold: 1, invert: false };
    assert_eq!(p.select(BoolBehaviourKind::Toggle), BoolBehaviourState::Toggle { threshold: 64, invert: false });
    let a = AxisBehaviourState::CustomAbsolute { min_in: 3, max_in: 4 };
    assert_eq!(a.select(AxisBehaviourKind::CustomAbsolute), a);
    assert_eq!(a.select(AxisBehaviourKind::CustomRelative), AxisBehaviourState::CustomRelative { threshold: 64, invert: false });
    assert_eq!(
        (AxisBehaviourState::MidiAbsolute {}).select(AxisBehaviourKind::CustomAbsolute),
        AxisBehaviourState::CustomAbsolute { min_in: 0, max_in: 127 }
    );
    assert_eq!(a.select(AxisBehaviourKind::BinaryOffsetRelative), AxisBehaviourState::BinaryOffsetRelative {});
    assert_eq!(BoolBehaviourState::default(), BoolBehaviourState::Toggle { threshold: 64, invert: false });
    assert_eq!(AxisBehaviourState::default(), AxisBehaviourState::MidiAbsolute {});
}

#[test]
fn learn_selection_shows_the_message() {
    assert_eq!(learn_selection(None), (0, true, 0));
    assert_eq!(learn_selection(Some(MidiEvent::Other)), (0, true, 0));
    let cc = MidiEvent::ChannelVoice { channel: 4, msg: VoiceEvent::ControlChange { control: 21, value: 9, simple: true } };
    assert_eq!(learn_selection(Some(cc)), (4, true, 21));
    let off = MidiEvent::ChannelVoice { channel: 2, msg: VoiceEvent::NoteOff { note: 50, velocity: 9 } };
    assert_eq!(learn_selection(Some(off)), (2, false, 50));
    let named = MidiEvent::ChannelVoice { channel: 3, msg: VoiceEvent::ControlChange { control: 7, value: 9, simple: false } };
    assert_eq!(learn_selection(Some(named)), (3, true, 0));
    let other = MidiEvent::ChannelVoice { channel: 7, msg: VoiceEvent::Other };
    assert_eq!(learn_selection(Some(other)), (7, false, 0));
}

#[test]
fn custom_event_round_trips() {
    for (channel, is_cc, number) in [(0u8, true, 5u8), (15, false, 127), (3, false, 0)] {
        assert_eq!(learn_selection(Some(custom_event(channel, is_cc, number))), (channel, is_cc, number));
    }
    assert_eq!(
        custom_event(1, true, 7),
        MidiEvent::ChannelVoice { channel: 1, msg: VoiceEvent::ControlChange { control: 7, value: 0, simple: true } }
    );
    assert_eq!(
        custom_event(1, false, 7),
        MidiEvent::ChannelVoice { channel: 1, msg: VoiceEvent::NoteOn { note: 7, velocity: 0 } }
    );
}

#[test]
fn binding_event_defaults_to_first_note() {
    assert_eq!(
        binding_event(None),
        MidiEvent::ChannelVoice { channel: 0, msg: VoiceEvent::NoteOn { note: 0, velocity: 0 } }
    );
    assert_eq!(binding_event(Some(MidiEvent::Other)), MidiEvent::Other);
}

#[test]
fn port_actions() {
    assert_eq!(port_action(true, false, true), PortAction::Reconnect);
    assert_eq!(port_action(false, false, true), PortAction::Disconnect);
    assert_eq!(port_action(false, true, false), PortAction::Connect);
    assert_eq!(port_action(false, true, true), PortAction::Keep);
}

#[test]
fn port_found_by_name() {
    let names = vec!["a".to_string(), "b".to_string(), "b".to_string()];
    assert_eq!(find_port(&names, &"b".to_string()), Some(1));
    assert_eq!(find_port(&names, &"c".to_string()), None);
    assert_eq!(find_port(&vec![], &"a".to_string()), None);
}

#[test]
fn tray_and_window_flags() {
    let f = LifecycleFlags { ui_on: true, stop: false };
    let t = tray_message(f, TrayMessages::Toggle);
    assert_eq!(t.flags, LifecycleFlags { ui_on: false, stop: false });
    assert!(!t.exit && !t.close_window);
    assert_eq!(tray_message(t.flags, TrayMessages::Toggle).flags, f);
    let q = tray_message(f, TrayMessages::Quit);
    assert!(q.flags.stop && q.exit && q.close_window);
    assert!(tray_tick(q.flags).exit);
    assert!(!tray_tick(f).exit);
    assert_eq!(ui_loop_action(q.flags), UiLoopAction::Exit);
    assert_eq!(ui_loop_action(f), UiLoopAction::ShowWindow);
    assert_eq!(ui_loop_action(t.flags), UiLoopAction::Wait);
    let w = window_frame(f, true);
    assert!(!w.close);
    assert!(!w.flags.ui_on);
    assert!(window_frame(w.flags, false).close);
    assert!(window_frame(q.flags, false).close);
}

#[test]
fn saving_a_binding_attaches_the_callback() {
    let mut tree: MidiMsgCallbackTree<u32> = MidiMsgCallbackTree::new();
    let learnt = MidiEvent::ChannelVoice { channel: 2, msg: VoiceEvent::ControlChange { control: 7, value: 3, simple: true } };
    assert_eq!(save_binding(&mut tree, Some(learnt), 5), learnt);
    assert_eq!(tree.get_if_exists(&learnt), Some(5));
    let default = MidiEvent::ChannelVoice { channel: 0, msg: VoiceEvent::NoteOn { note: 0, velocity: 0 } };
    assert_eq!(save_binding(&mut tree, None, 6), default);
    assert_eq!(tree.get_if_exists(&default), Some(6));
    assert_eq!(tree.get_if_exists(&learnt), Some(5));
}

#[test]
fn forgetting_a_binding_detaches_it() {
    let mut tree: MidiMsgCallbackTree<u32> = MidiMsgCallbackTree::new();
    let learnt = MidiEvent::ChannelVoice { channel: 2, msg: VoiceEvent::NoteOn { note: 9, velocity: 3 } };
    save_binding(&mut tree, Some(learnt), 5);
    forget_binding(&mut tree, None);
    assert_eq!(tree.get_if_exists(&learnt), Some(5));
    forget_binding(&mut tree, Some(MidiEvent::Other));
    assert_eq!(tree.get_if_exists(&learnt), Some(5));
    forget_binding(&mut tree, Some(learnt));
    assert_eq!(tree.get_if_exists(&learnt), None);
}

#[test]
fn config_base_prefers_xdg_then_home() {
    assert_eq!(config_base(true, true), ConfigBase::XdgConfigHome);
    assert_eq!(config_base(true, false), ConfigBase::XdgConfigHome);
    assert_eq!(config_base(false, true), ConfigBase::HomeConfig);
    assert_eq!(config_base(false, false), ConfigBase::CurrentDir);
}

#[test]
fn registering_bindings_binds_each_in_order() {
    let mut tree: MidiMsgCallbackTree<u32> = MidiMsgCallbackTree::new();
    let a = MidiEvent::ChannelVoice { channel: 0, msg: VoiceEvent::NoteOn { note: 1, velocity: 0 } };
    let b = MidiEvent::ChannelVoice { channel: 1, msg: VoiceEvent::ControlChange { control: 7, value: 0, simple: true } };
    let a_off = MidiEvent::ChannelVoice { channel: 0, msg: VoiceEvent::NoteOff { note: 1, velocity: 9 } };
    register_bindings(&mut tree, vec![(a, 1), (b, 2), (a_off, 3)]);
    assert_eq!(tree.get_if_exists(&a), Some(3));
    assert_eq!(tree.get_if_exists(&b), Some(2));
    register_bindings(&mut tree, vec![]);
    assert_eq!(tree.get_if_exists(&b), Some(2));
}
