//! Buildings: their ids, kinds, inhabitants and how they are selected.
use vstd::prelude::*;

pub mod asset_paths;
pub mod building_selection;
pub mod building_types;
pub mod inhabitants;

use crate::game::ant::ant_spawner::AntSpawner;
use crate::game::building::building_types::BuildingType;
use crate::game::building::inhabitants::{after_take, larger_half, Inhabitants};
use crate::world_grid::GridTransform;

verus! {

/// The id under which a map stores a building.
#[derive(Clone, Copy, Debug, Default, PartialEq, Eq, Hash, Structural)]
pub struct BuildingId(pub usize);

impl BuildingId {
    pub fn new(id: usize) -> (building_id: BuildingId)
        ensures
            building_id.0 == id,
    {
        BuildingId(id)
    }

    pub fn id(&self) -> (id: usize)
        ensures
            id == self.0,
    {
        self.0
    }
}

/// What a map records of a building: its kind and where it stands.
#[derive(Clone, Copy, Debug, PartialEq, Eq, Structural)]
pub struct BuildingInfo {
    pub building_type: BuildingType,
    pub grid_transform: GridTransform,
}

/// A move order from a building: the larger half of its inhabitants leave
/// as ants of the kind it produces, towards the target building. Returns the
/// spawner that sends them, or nothing when no ant leaves.
pub fn dispatch_move_order(inhabitants: &mut Inhabitants, building_type: BuildingType, target: u64) -> (spawner: Option<AntSpawner>)
    ensures
        larger_half(old(inhabitants)@.current) == 0 ==> spawner is None && final(inhabitants)@ == old(inhabitants)@,
        larger_half(old(inhabitants)@.current) != 0 ==> {
            &&& spawner == Some(AntSpawner {
                ant_type: building_type.spec_ants_produced(),
                left_to_spawn: larger_half(old(inhabitants)@.current) as u32,
                target_building: target,
            })
            &&& final(inhabitants)@.current == after_take(old(inhabitants)@.current, larger_half(old(inhabitants)@.current))
            &&& final(inhabitants)@.max == old(inhabitants)@.max
        },
{
    let to_move = inhabitants.send_half();
    if to_move == 0 {
        return None;
    }
    let ant_type = building_type.ants_produced();
    Some(AntSpawner { ant_type, left_to_spawn: to_move as u32, target_building: target })
}

} // verus!
