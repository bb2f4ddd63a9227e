use pipeweaver_midi::behaviours::axis_behaviours::{AxisBehaviour, TwosComplimentRelativeAxis};
use pipeweaver_midi::behaviours::button_behaviours::{BooleanBehaviour, PushBtn, ToggleBtn};
use pipeweaver_midi::pipeweaver_controllers::commands::{
    axis_updates, bool_updates, route_grid, source_device_commands, target_device_commands, ApiCommand, AxisCommand,
    BoolCommand, DaemonRequest,
};
use pipeweaver_midi::pipeweaver_controllers::status::{
    ids_contain, mute_targets_contain, route_index, source_index, target_index, DaemonStatus, Mix, MuteState,
    MuteTarget, RouteStatus, SourceDeviceStatus, TargetDeviceStatus,
};

fn source(id: u128, volume_a: u8, volume_b: u8, mute_targets: Vec<MuteTarget>) -> SourceDeviceStatus {
    SourceDeviceStatus { id, volume_a, volume_b, mute_targets }
}

fn target(id: u128, volume: u8, mute_state: MuteState, mix: Mix) -> TargetDeviceStatus {
    TargetDeviceStatus { id, volume, mute_state, mix }
}

fn status() -> DaemonStatus {
    DaemonStatus {
        physical_sources: vec![source(1, 10, 11, vec![MuteTarget::TargetA]), source(2, 20, 21, vec![])],
        virtual_sources: vec![source(3, 30, 31, vec![MuteTarget::TargetB]), source(1, 99, 99, vec![])],
        physical_targets: vec![target(10, 50, MuteState::Muted, Mix::A)],
        virtual_targets: vec![target(11, 60, MuteState::Unmuted, Mix::B), target(10, 1, MuteState::Unmuted, Mix::B)],
        routes: vec![
            RouteStatus { source: 1, targets: vec![10, 11] },
            RouteStatus { source: 2, targets: vec![] },
        ],
    }
}

#[test]
fn axis_value_prefers_physical_devices() {
    let s = status();
    assert_eq!(AxisCommand::SourceVolume { id: 1, mix: Mix::A }.get_value(&s), Some(10));
    assert_eq!(AxisCommand::SourceVolume { id: 1, mix: Mix::B }.get_value(&s), Some(11));
    assert_eq!(AxisCommand::SourceVolume { id: 3, mix: Mix::B }.get_value(&s), Some(31));
    assert_eq!(AxisCommand::SourceVolume { id: 4, mix: Mix::A }.get_value(&s), None);
    assert_eq!(AxisCommand::TargetVolume { id: 10 }.get_value(&s), Some(50));
    assert_eq!(AxisCommand::TargetVolume { id: 11 }.get_value(&s), Some(60));
    assert_eq!(AxisCommand::TargetVolume { id: 1 }.get_value(&s), None);
}

#[test]
fn bool_values() {
    let s = status();
    assert_eq!(BoolCommand::Route { in_id: 1, out_id: 11 }.get_value(&s), Some(true));
    assert_eq!(BoolCommand::Route { in_id: 2, out_id: 11 }.get_value(&s), Some(false));
    assert_eq!(BoolCommand::SourceMute { id: 1, target: MuteTarget::TargetA }.get_value(&s), Some(true));
    assert_eq!(BoolCommand::SourceMute { id: 1, target: MuteTarget::TargetB }.get_value(&s), Some(false));
    assert_eq!(BoolCommand::SourceMute { id: 3, target: MuteTarget::TargetB }.get_value(&s), Some(true));
    assert_eq!(BoolCommand::SourceMute { id: 9, target: MuteTarget::TargetB }.get_value(&s), None);
    assert_eq!(BoolCommand::TargetMute { id: 10 }.get_value(&s), Some(true));
    assert_eq!(BoolCommand::TargetMute { id: 11 }.get_value(&s), Some(false));
    assert_eq!(BoolCommand::TargetMix { id: 10 }.get_value(&s), Some(true));
    assert_eq!(BoolCommand::TargetMix { id: 11 }.get_value(&s), Some(false));
    assert_eq!(BoolCommand::TargetMix { id: 12 }.get_value(&s), None);
}

#[test]
fn axis_requests() {
    assert_eq!(
        AxisCommand::SourceVolume { id: 5, mix: Mix::B }.to_request(42),
        DaemonRequest::Pipewire(ApiCommand::SetSourceVolume(5, Mix::B, 42))
    );
    assert_eq!(
        AxisCommand::TargetVolume { id: 6 }.to_request(7),
        DaemonRequest::Pipewire(ApiCommand::SetTargetVolume(6, 7))
    );
}

#[test]
fn bool_requests() {
    assert_eq!(
        BoolCommand::Route { in_id: 1, out_id: 2 }.to_request(true),
        DaemonRequest::Pipewire(ApiCommand::SetRoute(1, 2, true))
    );
    let mute = BoolCommand::SourceMute { id: 3, target: MuteTarget::TargetB };
    assert_eq!(mute.to_request(true), DaemonRequest::Pipewire(ApiCommand::AddSourceMuteTarget(3, MuteTarget::TargetB)));
    assert_eq!(mute.to_request(false), DaemonRequest::Pipewire(ApiCommand::DelSourceMuteTarget(3, MuteTarget::TargetB)));
    let tmute = BoolCommand::TargetMute { id: 4 };
    assert_eq!(tmute.to_request(true), DaemonRequest::Pipewire(ApiCommand::SetTargetMuteState(4, MuteState::Muted)));
    assert_eq!(tmute.to_request(false), DaemonRequest::Pipewire(ApiCommand::SetTargetMuteState(4, MuteState::Unmuted)));
    let mix = BoolCommand::TargetMix { id: 5 };
    assert_eq!(mix.to_request(true), DaemonRequest::Pipewire(ApiCommand::SetTargetMix(5, Mix::A)));
    assert_eq!(mix.to_request(false), DaemonRequest::Pipewire(ApiCommand::SetTargetMix(5, Mix::B)));
}

#[test]
fn respond_feeds_the_behaviour() {
    let mut b = BooleanBehaviour::Toggle(ToggleBtn::new(64, None));
    let cmd = BoolCommand::TargetMute { id: 8 };
    assert_eq!(cmd.respond(&mut b, 127), DaemonRequest::Pipewire(ApiCommand::SetTargetMuteState(8, MuteState::Muted)));
    assert_eq!(cmd.respond(&mut b, 0), DaemonRequest::Pipewire(ApiCommand::SetTargetMuteState(8, MuteState::Muted)));
    assert_eq!(cmd.respond(&mut b, 127), DaemonRequest::Pipewire(ApiCommand::SetTargetMuteState(8, MuteState::Unmuted)));
    let mut p = BooleanBehaviour::Push(PushBtn::new(64, None));
    assert_eq!(
        BoolCommand::Route { in_id: 1, out_id: 2 }.respond(&mut p, 10),
        DaemonRequest::Pipewire(ApiCommand::SetRoute(1, 2, false))
    );
    let mut a = AxisBehaviour::TwosComplimentRelative(TwosComplimentRelativeAxis::from_parts(40, false));
    assert_eq!(
        AxisCommand::TargetVolume { id: 9 }.respond(&mut a, 2),
        DaemonRequest::Pipewire(ApiCommand::SetTargetVolume(9, 42))
    );
}

#[test]
fn updates_for_every_binding() {
    let s = status();
    let axes = vec![AxisCommand::TargetVolume { id: 11 }, AxisCommand::SourceVolume { id: 7, mix: Mix::A }];
    assert_eq!(axis_updates(&axes, &s), vec![Some(60), None]);
    let buttons = vec![BoolCommand::TargetMix { id: 11 }, BoolCommand::Route { in_id: 1, out_id: 10 }];
    assert_eq!(bool_updates(&buttons, &s), vec![Some(false), Some(true)]);
    assert_eq!(axis_updates(&vec![], &s), vec![]);
}

#[test]
fn device_panel_commands() {
    assert_eq!(
        source_device_commands(4),
        [
            (BoolCommand::SourceMute { id: 4, target: MuteTarget::TargetA }, AxisCommand::SourceVolume { id: 4, mix: Mix::A }),
            (BoolCommand::SourceMute { id: 4, target: MuteTarget::TargetB }, AxisCommand::SourceVolume { id: 4, mix: Mix::B }),
        ]
    );
    assert_eq!(target_device_commands(5), (BoolCommand::TargetMute { id: 5 }, AxisCommand::TargetVolume { id: 5 }));
}

#[test]
fn status_searches() {
    let s = status();
    assert_eq!(source_index(&s.virtual_sources, 1), Some(1));
    assert_eq!(source_index(&s.virtual_sources, 2), None);
    assert_eq!(target_index(&s.virtual_targets, 10), Some(1));
    assert_eq!(route_index(&s.routes, 2), Some(1));
    assert_eq!(route_index(&s.routes, 3), None);
    assert!(ids_contain(&vec![1, 2, 3], 3));
    assert!(!ids_contain(&vec![], 3));
    assert!(mute_targets_contain(&vec![MuteTarget::TargetB], MuteTarget::TargetB));
    assert!(!mute_targets_contain(&vec![MuteTarget::TargetB], MuteTarget::TargetA));
}

#[test]
fn route_grid_rows_follow_targets_and_routes() {
    let s = status();
    let grid = route_grid(&s);
    let row = |out_id: u128| vec![BoolCommand::Route { in_id: 1, out_id }, BoolCommand::Route { in_id: 2, out_id }];
    assert_eq!(grid, vec![(10, row(10)), (11, row(11)), (10, row(10))]);
    assert_eq!(grid[1].1[0].get_value(&s), Some(true));
    assert_eq!(grid[1].1[1].get_value(&s), Some(false));
}

#[test]
fn route_grid_without_routes_or_targets() {
    let mut s = status();
    s.routes = vec![];
    assert_eq!(route_grid(&s), vec![(10, vec![]), (11, vec![]), (10, vec![])]);
    s.physical_targets = vec![];
    s.virtual_targets = vec![];
    assert_eq!(route_grid(&s), vec![]);
}
