//! The part of the daemon's status that the MIDI side reads, held as plain
//! values: device ids are the 128-bit values of the daemon's ULIDs.
use vstd::prelude::*;

verus! {

/// One of the two mixes a source feeds and a target listens to.
#[derive(Clone, Copy, Debug, PartialEq, Eq, Hash, Structural)]
pub enum Mix {
    A,
    B,
}

/// One of the two mute targets of a source.
#[derive(Clone, Copy, Debug, PartialEq, Eq, Hash, Structural)]
pub enum MuteTarget {
    TargetA,
    TargetB,
}

/// Whether a target device is muted.
#[derive(Clone, Copy, Debug, PartialEq, Eq, Hash, Structural)]
pub enum MuteState {
    Unmuted,
    Muted,
}

/// A source device (physical or virtual).
#[derive(Clone, Debug)]
pub struct SourceDeviceStatus {
    pub id: u128,
    /// The volume into mix A.
    pub volume_a: u8,
    /// The volume into mix B.
    pub volume_b: u8,
    /// The mute targets currently muting this source.
    pub mute_targets: Vec<MuteTarget>,
}

/// A target device (physical or virtual).
#[derive(Clone, Debug)]
pub struct TargetDeviceStatus {
    pub id: u128,
    pub volume: u8,
    pub mute_state: MuteState,
    /// The mix the target listens to.
    pub mix: Mix,
}

/// The targets a source is routed to.
#[derive(Clone, Debug)]
pub struct RouteStatus {
    pub source: u128,
    pub targets: Vec<u128>,
}

/// The devices and routes of the daemon's current profile.
#[derive(Clone, Debug)]
pub struct DaemonStatus {
    pub physical_sources: Vec<SourceDeviceStatus>,
    pub virtual_sources: Vec<SourceDeviceStatus>,
    pub physical_targets: Vec<TargetDeviceStatus>,
    pub virtual_targets: Vec<TargetDeviceStatus>,
    /// The routing table, in the order the daemon lists it; see
    /// `routes_well_formed` for the one entry per source it holds.
    pub routes: Vec<RouteStatus>,
}

/// The volume of a source into `mix`.
pub open spec fn source_volume(device: SourceDeviceStatus, mix: Mix) -> u8 {
    match mix {
        Mix::A => device.volume_a,
        Mix::B => device.volume_b,
    }
}

/// The first source in `devices` with the given id.
pub open spec fn find_source(devices: Seq<SourceDeviceStatus>, id: u128) -> Option<SourceDeviceStatus>
    decreases devices.len(),
{
    if devices.len() == 0 {
        None
    } else if devices[0].id == id {
        Some(devices[0])
    } else {
        find_source(devices.drop_first(), id)
    }
}

/// The first target in `devices` with the given id.
pub open spec fn find_target(devices: Seq<TargetDeviceStatus>, id: u128) -> Option<TargetDeviceStatus>
    decreases devices.len(),
{
    if devices.len() == 0 {
        None
    } else if devices[0].id == id {
        Some(devices[0])
    } else {
        find_target(devices.drop_first(), id)
    }
}

/// The first route entry in `routes` for the given source.
pub open spec fn find_route(routes: Seq<RouteStatus>, source: u128) -> Option<RouteStatus>
    decreases routes.len(),
{
    if routes.len() == 0 {
        None
    } else if routes[0].source == source {
        Some(routes[0])
    } else {
        find_route(routes.drop_first(), source)
    }
}

/// The routing table holds at most one entry per source, as the daemon's map
/// from source id to targets does.
pub open spec fn routes_well_formed(routes: Seq<RouteStatus>) -> bool {
    forall|i: int, j: int| 0 <= i < j < routes.len() ==> #[trigger] routes[i].source != #[trigger] routes[j].source
}

/// In a well-formed routing table the entry read for a source is that
/// source's one entry, wherever it stands.
pub proof fn lemma_find_route_is_the_entry(routes: Seq<RouteStatus>, i: int)
    requires
        routes_well_formed(routes),
        0 <= i < routes.len(),
    ensures
        find_route(routes, routes[i].source) == Some(routes[i]),
    decreases i,
{
    if i > 0 {
        assert(routes[0].source != routes[i].source);
        let rest = routes.drop_first();
        assert forall|a: int, b: int| 0 <= a < b < rest.len() implies #[trigger] rest[a].source
            != #[trigger] rest[b].source by {
            assert(rest[a] == routes[a + 1]);
            assert(rest[b] == routes[b + 1]);
        }
        assert(rest[i - 1] == routes[i]);
        lemma_find_route_is_the_entry(rest, i - 1);
    }
}

/// The source with the given id: the physical sources are searched first,
/// then the virtual ones.
pub open spec fn status_source(status: DaemonStatus, id: u128) -> Option<SourceDeviceStatus> {
    match find_source(status.physical_sources@, id) {
        Some(d) => Some(d),
        None => find_source(status.virtual_sources@, id),
    }
}

/// The target with the given id: the physical targets are searched first,
/// then the virtual ones.
pub open spec fn status_target(status: DaemonStatus, id: u128) -> Option<TargetDeviceStatus> {
    match find_target(status.physical_targets@, id) {
        Some(d) => Some(d),
        None => find_target(status.virtual_targets@, id),
    }
}

/// The index of the first source in `devices` with the given id.
pub fn source_index(devices: &Vec<SourceDeviceStatus>, id: u128) -> (r: Option<usize>)
    ensures
        match find_source(devices@, id) {
            Some(d) => r matches Some(i) && i < devices@.len() && devices@[i as int] == d,
            None => r is None,
        },
{
    let mut i: usize = 0;
    assert(devices@.skip(0) =~= devices@);
    while i < devices.len()
        invariant
            i <= devices@.len(),
            find_source(devices@.skip(i as int), id) == find_source(devices@, id),
        decreases devices@.len() - i,
    {
        if devices[i].id == id {
            return Some(i);
        }
        assert(devices@.skip(i as int).drop_first() =~= devices@.skip(i + 1));
        i += 1;
    }
    None
}

/// The index of the first target in `devices` with the given id.
pub fn target_index(devices: &Vec<TargetDeviceStatus>, id: u128) -> (r: Option<usize>)
    ensures
        match find_target(devices@, id) {
            Some(d) => r matches Some(i) && i < devices@.len() && devices@[i as int] == d,
            None => r is None,
        },
{
    let mut i: usize = 0;
    assert(devices@.skip(0) =~= devices@);
    while i < devices.len()
        invariant
            i <= devices@.len(),
            find_target(devices@.skip(i as int), id) == find_target(devices@, id),
        decreases devices@.len() - i,
    {
        if devices[i].id == id {
            return Some(i);
        }
        assert(devices@.skip(i as int).drop_first() =~= devices@.skip(i + 1));
        i += 1;
    }
    None
}

/// The index of the first route entry in `routes` for the given source.
pub fn route_index(routes: &Vec<RouteStatus>, source: u128) -> (r: Option<usize>)
    ensures
        match find_route(routes@, source) {
            Some(d) => r matches Some(i) && i < routes@.len() && routes@[i as int] == d,
            None => r is None,
        },
{
    let mut i: usize = 0;
    assert(routes@.skip(0) =~= routes@);
    while i < routes.len()
        invariant
            i <= routes@.len(),
            find_route(routes@.skip(i as int), source) == find_route(routes@, source),
        decreases routes@.len() - i,
    {
        if routes[i].source == source {
            return Some(i);
        }
        assert(routes@.skip(i as int).drop_first() =~= routes@.skip(i + 1));
        i += 1;
    }
    None
}

/// Whether `targets` holds `target`.
pub fn mute_targets_contain(targets: &Vec<MuteTarget>, target: MuteTarget) -> (r: bool)
    ensures
        r == targets@.contains(target),
{
    let mut i: usize = 0;
    while i < targets.len()
        invariant
            i <= targets@.len(),
            forall|j: int| 0 <= j < i ==> targets@[j] != target,
        decreases targets@.len() - i,
    {
        if targets[i] == target {
            assert(targets@[i as int] == target);
            return true;
        }
        i += 1;
    }
    false
}

/// Whether `ids` holds `id`.
pub fn ids_contain(ids: &Vec<u128>, id: u128) -> (r: bool)
    ensures
        r == ids@.contains(id),
{
    let mut i: usize = 0;
    while i < ids.len()
        invariant
            i <= ids@.len(),
            forall|j: int| 0 <= j < i ==> ids@[j] != id,
        decreases ids@.len() - i,
    {
        if ids[i] == id {
            assert(ids@[i as int] == id);
            return true;
        }
        i += 1;
    }
    false
}

} // verus!
