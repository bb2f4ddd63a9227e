//! The daemon controls a MIDI control can be bound to, the requests that set
//! them and the reading of their current value from the daemon's status.
use vstd::prelude::*;
use crate::behaviours::axis_behaviours::{AxisBehaviour, AxisBehaviourTrait, axis_result, axis_stepped};
use crate::behaviours::button_behaviours::{BooleanBehaviour, BooleanBehaviourTrait, boolean_result, boolean_stepped};
use crate::pipeweaver_controllers::status::{
    DaemonStatus, Mix, MuteState, MuteTarget, RouteStatus, SourceDeviceStatus, TargetDeviceStatus, find_route, ids_contain,
    mute_targets_contain, route_index, routes_well_formed, source_index, source_volume, status_source, status_target,
    target_index, lemma_find_route_is_the_entry,
};

verus! {

/// A level the daemon exposes.
#[derive(Clone, Copy, Debug, PartialEq, Eq, Hash, Structural)]
pub enum AxisCommand {
    /// The volume of a source into one mix.
    SourceVolume { id: u128, mix: Mix },
    /// The volume of a target.
    TargetVolume { id: u128 },
}

/// An on/off state the daemon exposes.
#[derive(Clone, Copy, Debug, PartialEq, Eq, Hash, Structural)]
pub enum BoolCommand {
    /// Whether source `in_id` is routed to target `out_id`.
    Route { in_id: u128, out_id: u128 },
    /// Whether a source is muted to one of its mute targets.
    SourceMute { id: u128, target: MuteTarget },
    /// Whether a target is muted.
    TargetMute { id: u128 },
    /// Whether a target listens to mix A (rather than mix B).
    TargetMix { id: u128 },
}

/// The daemon's API commands this crate sends.
#[derive(Clone, Copy, Debug, PartialEq, Eq, Structural)]
pub enum ApiCommand {
    SetSourceVolume(u128, Mix, u8),
    SetTargetVolume(u128, u8),
    SetRoute(u128, u128, bool),
    AddSourceMuteTarget(u128, MuteTarget),
    DelSourceMuteTarget(u128, MuteTarget),
    SetTargetMuteState(u128, MuteState),
    SetTargetMix(u128, Mix),
}

/// A request to the daemon.
#[derive(Clone, Copy, Debug, PartialEq, Eq, Structural)]
pub enum DaemonRequest {
    Pipewire(ApiCommand),
}

/// The request that sets the level of `cmd` to `data`.
pub open spec fn axis_request(cmd: AxisCommand, data: u8) -> DaemonRequest {
    match cmd {
        AxisCommand::SourceVolume { id, mix } => DaemonRequest::Pipewire(ApiCommand::SetSourceVolume(id, mix, data)),
        AxisCommand::TargetVolume { id } => DaemonRequest::Pipewire(ApiCommand::SetTargetVolume(id, data)),
    }
}

/// The request that sets the state of `cmd` to `data`: a route is set, a
/// mute target added or removed, a target muted or unmuted, a target switched
/// to mix A (on) or mix B (off).
pub open spec fn bool_request(cmd: BoolCommand, data: bool) -> DaemonRequest {
    match cmd {
        BoolCommand::Route { in_id, out_id } => DaemonRequest::Pipewire(ApiCommand::SetRoute(in_id, out_id, data)),
        BoolCommand::SourceMute { id, target } => DaemonRequest::Pipewire(
            if data {
                ApiCommand::AddSourceMuteTarget(id, target)
            } else {
                ApiCommand::DelSourceMuteTarget(id, target)
            },
        ),
        BoolCommand::TargetMute { id } => DaemonRequest::Pipewire(
            ApiCommand::SetTargetMuteState(
                id,
                if data {
                    MuteState::Muted
                } else {
                    MuteState::Unmuted
                },
            ),
        ),
        BoolCommand::TargetMix { id } => DaemonRequest::Pipewire(
            ApiCommand::SetTargetMix(
                id,
                if data {
                    Mix::A
                } else {
                    Mix::B
                },
            ),
        ),
    }
}

/// The current level of `cmd` in `status`, if its device is there.
pub open spec fn axis_value(cmd: AxisCommand, status: DaemonStatus) -> Option<u8> {
    match cmd {
        AxisCommand::SourceVolume { id, mix } => match status_source(status, id) {
            Some(d) => Some(source_volume(d, mix)),
            None => None,
        },
        AxisCommand::TargetVolume { id } => match status_target(status, id) {
            Some(d) => Some(d.volume),
            None => None,
        },
    }
}

/// Whether the current state of `cmd` can be read from `status` without
/// failing: a route is read from the routing table, which must have an entry
/// for its source.
pub open spec fn bool_value_readable(cmd: BoolCommand, status: DaemonStatus) -> bool {
    match cmd {
        BoolCommand::Route { in_id, .. } => find_route(status.routes@, in_id) is Some,
        _ => true,
    }
}

/// The current state of `cmd` in `status`, if its device is there.
pub open spec fn bool_value(cmd: BoolCommand, status: DaemonStatus) -> Option<bool> {
    match cmd {
        BoolCommand::Route { in_id, out_id } => match find_route(status.routes@, in_id) {
            Some(r) => Some(r.targets@.contains(out_id)),
            None => None,
        },
        BoolCommand::SourceMute { id, target } => match status_source(status, id) {
            Some(d) => Some(d.mute_targets@.contains(target)),
            None => None,
        },
        BoolCommand::TargetMute { id } => match status_target(status, id) {
            Some(d) => Some(d.mute_state == MuteState::Muted),
            None => None,
        },
        BoolCommand::TargetMix { id } => match status_target(status, id) {
            Some(d) => Some(d.mix == Mix::A),
            None => None,
        },
    }
}

fn find_status_source(status: &DaemonStatus, id: u128) -> (r: Option<&SourceDeviceStatus>)
    ensures
        match status_source(*status, id) {
            Some(d) => r == Some(&d),
            None => r is None,
        },
{
    match source_index(&status.physical_sources, id) {
        Some(i) => Some(&status.physical_sources[i]),
        None => match source_index(&status.virtual_sources, id) {
            Some(i) => Some(&status.virtual_sources[i]),
            None => None,
        },
    }
}

fn find_status_target(status: &DaemonStatus, id: u128) -> (r: Option<&TargetDeviceStatus>)
    ensures
        match status_target(*status, id) {
            Some(d) => r == Some(&d),
            None => r is None,
        },
{
    match target_index(&status.physical_targets, id) {
        Some(i) => Some(&status.physical_targets[i]),
        None => match target_index(&status.virtual_targets, id) {
            Some(i) => Some(&status.virtual_targets[i]),
            None => None,
        },
    }
}

impl AxisCommand {
    /// The request that sets this level to `data`.
    pub fn to_request(&self, data: u8) -> (r: DaemonRequest)
        ensures
            r == axis_request(*self, data),
    {
        match self {
            AxisCommand::SourceVolume { id, mix } => DaemonRequest::Pipewire(
                ApiCommand::SetSourceVolume(*id, *mix, data),
            ),
            AxisCommand::TargetVolume { id } => DaemonRequest::Pipewire(ApiCommand::SetTargetVolume(*id, data)),
        }
    }

    /// The current value of this level in `status`: the device is looked up
    /// among the physical devices, then the virtual ones.
    pub fn get_value(&self, status: &DaemonStatus) -> (r: Option<u8>)
        ensures
            r == axis_value(*self, *status),
    {
        match *self {
            AxisCommand::SourceVolume { id, mix } => match find_status_source(status, id) {
                Some(d) => match mix {
                    Mix::A => Some(d.volume_a),
                    Mix::B => Some(d.volume_b),
                },
                None => None,
            },
            AxisCommand::TargetVolume { id } => match find_status_target(status, id) {
                Some(d) => Some(d.volume),
                None => None,
            },
        }
    }

    /// Feeds `data` to `behaviour` and builds the request that sets this
    /// level to the resulting value.
    pub fn respond(&self, behaviour: &mut AxisBehaviour, data: u8) -> (r: DaemonRequest)
        requires
            old(behaviour).get_allowed(data),
        ensures
            axis_stepped(*old(behaviour), *final(behaviour), data, axis_result(*old(behaviour), data)),
            r == axis_request(*self, axis_result(*old(behaviour), data)),
    {
        let value = behaviour.get(data);
        self.to_request(value)
    }
}

impl BoolCommand {
    /// The request that sets this state to `data`.
    pub fn to_request(&self, data: bool) -> (r: DaemonRequest)
        ensures
            r == bool_request(*self, data),
    {
        match self {
            BoolCommand::Route { in_id, out_id } => DaemonRequest::Pipewire(
                ApiCommand::SetRoute(*in_id, *out_id, data),
            ),
            BoolCommand::SourceMute { id, target } => {
                let command: ApiCommand;
                if data {
                    command = ApiCommand::AddSourceMuteTarget(*id, *target);
                } else {
                    command = ApiCommand::DelSourceMuteTarget(*id, *target);
                }
                DaemonRequest::Pipewire(command)
            },
            BoolCommand::TargetMute { id } => {
                let state: MuteState = if data {
                    MuteState::Muted
                } else {
                    MuteState::Unmuted
                };
                DaemonRequest::Pipewire(ApiCommand::SetTargetMuteState(*id, state))
            },
            BoolCommand::TargetMix { id } => {
                let mix = if data {
                    Mix::A
                } else {
                    Mix::B
                };
                DaemonRequest::Pipewire(ApiCommand::SetTargetMix(*id, mix))
            },
        }
    }

    /// The current value of this state in `status`: a route from the routing
    /// table; a device state from the device, looked up among the physical
    /// devices, then the virtual ones.
    pub fn get_value(&self, status: &DaemonStatus) -> (r: Option<bool>)
        requires
            bool_value_readable(*self, *status),
        ensures
            r == bool_value(*self, *status),
    {
        match self {
            BoolCommand::Route { in_id, out_id } => match route_index(&status.routes, *in_id) {
                Some(i) => Some(ids_contain(&status.routes[i].targets, *out_id)),
                None => None,
            },
            BoolCommand::SourceMute { id, target } => match find_status_source(status, *id) {
                Some(d) => Some(mute_targets_contain(&d.mute_targets, *target)),
                None => None,
            },
            BoolCommand::TargetMute { id } => match find_status_target(status, *id) {
                Some(d) => Some(d.mute_state == MuteState::Muted),
                None => None,
            },
            BoolCommand::TargetMix { id } => match find_status_target(status, *id) {
                Some(d) => Some(d.mix == Mix::A),
                None => None,
            },
        }
    }

    /// Feeds `data` to `behaviour` and builds the request that sets this
    /// state to the resulting value.
    pub fn respond(&self, behaviour: &mut BooleanBehaviour, data: u8) -> (r: DaemonRequest)
        ensures
            boolean_stepped(*old(behaviour), *final(behaviour), data, boolean_result(*old(behaviour), data)),
            r == bool_request(*self, boolean_result(*old(behaviour), data)),
    {
        let value = behaviour.get(data);
        self.to_request(value)
    }
}


/// The levels a new status sets the bound axes to, one per command (`None`
/// where the command's device is not in the status).
pub fn axis_updates(commands: &Vec<AxisCommand>, status: &DaemonStatus) -> (r: Vec<Option<u8>>)
    ensures
        r@.len() == commands@.len(),
        forall|i: int| 0 <= i < commands@.len() ==> r@[i] == axis_value(#[trigger] commands@[i], *status),
{
    let mut r: Vec<Option<u8>> = Vec::new();
    let mut i: usize = 0;
    while i < commands.len()
        invariant
            i <= commands@.len(),
            r@.len() == i,
            forall|j: int| 0 <= j < i ==> r@[j] == axis_value(#[trigger] commands@[j], *status),
        decreases commands@.len() - i,
    {
        r.push(commands[i].get_value(status));
        i += 1;
    }
    r
}

/// The states a new status sets the bound buttons to, one per command
/// (`None` where the command's device is not in the status).
pub fn bool_updates(commands: &Vec<BoolCommand>, status: &DaemonStatus) -> (r: Vec<Option<bool>>)
    requires
        forall|i: int| 0 <= i < commands@.len() ==> bool_value_readable(#[trigger] commands@[i], *status),
    ensures
        r@.len() == commands@.len(),
        forall|i: int| 0 <= i < commands@.len() ==> r@[i] == bool_value(#[trigger] commands@[i], *status),
{
    let mut r: Vec<Option<bool>> = Vec::new();
    let mut i: usize = 0;
    while i < commands.len()
        invariant
            i <= commands@.len(),
            r@.len() == i,
            forall|j: int| 0 <= j < commands@.len() ==> bool_value_readable(#[trigger] commands@[j], *status),
            forall|j: int| 0 <= j < i ==> r@[j] == bool_value(#[trigger] commands@[j], *status),
        decreases commands@.len() - i,
    {
        r.push(commands[i].get_value(status));
        i += 1;
    }
    r
}

/// The controls of a source device's panel: for mix A and mix B, the mute
/// towards the matching mute target and the volume into that mix.
pub fn source_device_commands(id: u128) -> (r: [(BoolCommand, AxisCommand); 2])
    ensures
        r@ == seq![
            (BoolCommand::SourceMute { id, target: MuteTarget::TargetA }, AxisCommand::SourceVolume { id, mix: Mix::A }),
            (BoolCommand::SourceMute { id, target: MuteTarget::TargetB }, AxisCommand::SourceVolume { id, mix: Mix::B }),
        ],
{
    let mute_a_cmd = BoolCommand::SourceMute { id, target: MuteTarget::TargetA };
    let mute_b_cmd = BoolCommand::SourceMute { id, target: MuteTarget::TargetB };
    let vol_a_cmd = AxisCommand::SourceVolume { id, mix: Mix::A };
    let vol_b_cmd = AxisCommand::SourceVolume { id, mix: Mix::B };
    let r = [(mute_a_cmd, vol_a_cmd), (mute_b_cmd, vol_b_cmd)];
    assert(r@ =~= seq![(mute_a_cmd, vol_a_cmd), (mute_b_cmd, vol_b_cmd)]);
    r
}

/// The controls of a target device's panel: its mute and its volume.
pub fn target_device_commands(id: u128) -> (r: (BoolCommand, AxisCommand))
    ensures
        r == (BoolCommand::TargetMute { id }, AxisCommand::TargetVolume { id }),
{
    (BoolCommand::TargetMute { id }, AxisCommand::TargetVolume { id })
}

/// The targets of the routing table's rows: the physical targets, then the
/// virtual ones.
pub open spec fn status_targets(status: DaemonStatus) -> Seq<TargetDeviceStatus> {
    status.physical_targets@ + status.virtual_targets@
}

/// The row of the routing table for `target`: one route command per entry of
/// the routing table, from that entry's source to `target`.
pub open spec fn route_row(routes: Seq<RouteStatus>, target: u128) -> Seq<BoolCommand> {
    routes.map_values(|route: RouteStatus| BoolCommand::Route { in_id: route.source, out_id: target })
}

fn route_commands(routes: &Vec<RouteStatus>, target: u128) -> (r: Vec<BoolCommand>)
    ensures
        r@ == route_row(routes@, target),
{
    let mut r: Vec<BoolCommand> = Vec::new();
    let mut i: usize = 0;
    while i < routes.len()
        invariant
            i <= routes@.len(),
            r@ == route_row(routes@.take(i as int), target),
        decreases routes@.len() - i,
    {
        r.push(BoolCommand::Route { in_id: routes[i].source, out_id: target });
        assert(routes@.take(i + 1) =~= routes@.take(i as int).push(routes@[i as int]));
        i += 1;
    }
    assert(routes@.take(i as int) =~= routes@);
    r
}

/// The routing table's grid of route commands: one row per target, physical
/// targets first, each row headed by the target's id and holding a route
/// command from every source of the routing table, in its order, to that
/// target.
pub fn route_grid(status: &DaemonStatus) -> (r: Vec<(u128, Vec<BoolCommand>)>)
    ensures
        r@.len() == status_targets(*status).len(),
        forall|i: int|
            0 <= i < r@.len() ==> (#[trigger] r@[i]).0 == status_targets(*status)[i].id && r@[i].1@ == route_row(
                status.routes@,
                status_targets(*status)[i].id,
            ),
{
    let ghost targets = status_targets(*status);
    let mut r: Vec<(u128, Vec<BoolCommand>)> = Vec::new();
    let mut i: usize = 0;
    while i < status.physical_targets.len()
        invariant
            targets == status_targets(*status),
            i <= status.physical_targets@.len(),
            r@.len() == i,
            forall|j: int|
                0 <= j < r@.len() ==> (#[trigger] r@[j]).0 == targets[j].id && r@[j].1@ == route_row(
                    status.routes@,
                    targets[j].id,
                ),
        decreases status.physical_targets@.len() - i,
    {
        let id = status.physical_targets[i].id;
        r.push((id, route_commands(&status.routes, id)));
        i += 1;
    }
    let mut k: usize = 0;
    while k < status.virtual_targets.len()
        invariant
            targets == status_targets(*status),
            k <= status.virtual_targets@.len(),
            r@.len() == status.physical_targets@.len() + k,
            forall|j: int|
                0 <= j < r@.len() ==> (#[trigger] r@[j]).0 == targets[j].id && r@[j].1@ == route_row(
                    status.routes@,
                    targets[j].id,
                ),
        decreases status.virtual_targets@.len() - k,
    {
        let id = status.virtual_targets[k].id;
        assert(targets[status.physical_targets@.len() + k] == status.virtual_targets@[k as int]);
        r.push((id, route_commands(&status.routes, id)));
        k += 1;
    }
    r
}

/// Each cell of the routing table reads its own entry: in a well-formed
/// routing table, the button in column `i` of the row for `target` shows
/// whether entry `i` routes its source to `target`, and can always be read.
pub proof fn lemma_route_cell_reads_its_entry(status: DaemonStatus, target: u128, i: int)
    requires
        routes_well_formed(status.routes@),
        0 <= i < status.routes@.len(),
    ensures
        bool_value_readable(route_row(status.routes@, target)[i], status),
        bool_value(route_row(status.routes@, target)[i], status) == Some(status.routes@[i].targets@.contains(target)),
{
    lemma_find_route_is_the_entry(status.routes@, i);
}

/// The level control a request sets, and to what: read off the daemon
/// command itself.
pub open spec fn request_sets_level(request: DaemonRequest) -> Option<(AxisCommand, u8)> {
    match request {
        DaemonRequest::Pipewire(ApiCommand::SetSourceVolume(id, mix, v)) => Some(
            (AxisCommand::SourceVolume { id, mix }, v),
        ),
        DaemonRequest::Pipewire(ApiCommand::SetTargetVolume(id, v)) => Some((AxisCommand::TargetVolume { id }, v)),
        _ => None,
    }
}

/// The on/off control a request sets, and to what: a route set on or off, a
/// mute target added (on) or removed (off), a target muted (on) or unmuted
/// (off), a target switched to mix A (on) or mix B (off).
pub open spec fn request_sets_state(request: DaemonRequest) -> Option<(BoolCommand, bool)> {
    match request {
        DaemonRequest::Pipewire(ApiCommand::SetRoute(in_id, out_id, on)) => Some(
            (BoolCommand::Route { in_id, out_id }, on),
        ),
        DaemonRequest::Pipewire(ApiCommand::AddSourceMuteTarget(id, target)) => Some(
            (BoolCommand::SourceMute { id, target }, true),
        ),
        DaemonRequest::Pipewire(ApiCommand::DelSourceMuteTarget(id, target)) => Some(
            (BoolCommand::SourceMute { id, target }, false),
        ),
        DaemonRequest::Pipewire(ApiCommand::SetTargetMuteState(id, state)) => Some(
            (BoolCommand::TargetMute { id }, state == MuteState::Muted),
        ),
        DaemonRequest::Pipewire(ApiCommand::SetTargetMix(id, mix)) => Some(
            (BoolCommand::TargetMix { id }, mix == Mix::A),
        ),
        _ => None,
    }
}

/// A level request addresses exactly its own control (the same device, and
/// for a source the same mix) and carries exactly the level asked for; it is
/// never an on/off request.
pub proof fn lemma_axis_request_sets_its_control(cmd: AxisCommand, data: u8)
    ensures
        request_sets_level(axis_request(cmd, data)) == Some((cmd, data)),
        request_sets_state(axis_request(cmd, data)) is None,
{
}

/// An on/off request addresses exactly its own control and carries exactly
/// the state asked for; it is never a level request. In particular the
/// requests for on and off differ.
pub proof fn lemma_bool_request_sets_its_control(cmd: BoolCommand, data: bool)
    ensures
        request_sets_state(bool_request(cmd, data)) == Some((cmd, data)),
        request_sets_level(bool_request(cmd, data)) is None,
        bool_request(cmd, true) != bool_request(cmd, false),
{
    assert(request_sets_state(bool_request(cmd, true)) != request_sets_state(bool_request(cmd, false)));
}

/// Reading a control reads its own device and field: a source's mix A
/// volume for mix A and its mix B volume for mix B, a target's volume, mute
/// state and mix; and a control whose device is missing reads nothing.
pub proof fn lemma_values_read_their_control(status: DaemonStatus, id: u128, target: MuteTarget)
    ensures
        match status_source(status, id) {
            Some(d) => {
                &&& axis_value(AxisCommand::SourceVolume { id, mix: Mix::A }, status) == Some(d.volume_a)
                &&& axis_value(AxisCommand::SourceVolume { id, mix: Mix::B }, status) == Some(d.volume_b)
                &&& bool_value(BoolCommand::SourceMute { id, target }, status) == Some(d.mute_targets@.contains(target))
            },
            None => {
                &&& axis_value(AxisCommand::SourceVolume { id, mix: Mix::A }, status) is None
                &&& axis_value(AxisCommand::SourceVolume { id, mix: Mix::B }, status) is None
                &&& bool_value(BoolCommand::SourceMute { id, target }, status) is None
            },
        },
        match status_target(status, id) {
            Some(d) => {
                &&& axis_value(AxisCommand::TargetVolume { id }, status) == Some(d.volume)
                &&& bool_value(BoolCommand::TargetMute { id }, status) == Some(d.mute_state == MuteState::Muted)
                &&& bool_value(BoolCommand::TargetMix { id }, status) == Some(d.mix == Mix::A)
            },
            None => {
                &&& axis_value(AxisCommand::TargetVolume { id }, status) is None
                &&& bool_value(BoolCommand::TargetMute { id }, status) is None
                &&& bool_value(BoolCommand::TargetMix { id }, status) is None
            },
        },
{
}

} // verus!
