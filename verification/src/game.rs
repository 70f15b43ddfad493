//! The rules of a game: ants, buildings, players and the state of a match.
use vstd::prelude::*;

use bevy::platform::collections::HashMap;

use crate::collections::{index_table, index_table_get, owner_table, owner_table_get, owner_table_insert, owner_table_new};
use crate::game::building::building_types::BuildingType;
use crate::game::building::{BuildingId, BuildingInfo};

pub mod ant;
pub mod bot;
pub mod building;
pub mod game_info;
pub mod player;

verus! {

/// The player a building starts the game with: a head quarter goes to the
/// player given its slot, when that player takes part; other buildings start
/// without owner.
pub open spec fn starting_owner(
    info: BuildingInfo,
    slot_players: Map<usize, usize>,
    player_entities: Map<usize, u64>,
) -> Option<u64> {
    match info.building_type {
        BuildingType::HeadQuarter { index } => if player_entities.dom().contains(slot_players[index]) {
            Some(player_entities[slot_players[index]])
        } else {
            None
        },
        _ => None,
    }
}

/// Every head quarter among `buildings` has a player slot assigned.
pub open spec fn slots_assigned(buildings: Seq<(BuildingId, BuildingInfo)>, slot_players: Map<usize, usize>) -> bool {
    forall|i: int| 0 <= i < buildings.len() ==> match (#[trigger] buildings[i]).1.building_type {
        BuildingType::HeadQuarter { index } => slot_players.dom().contains(index),
        _ => true,
    }
}

/// Which player owns each building when a game starts. `buildings` are the
/// buildings of the map with their ids; `slot_players` gives the player id
/// put on each head quarter slot, `player_entities` the entity of each
/// player id (entities written as their 64-bit form). The result maps the id
/// of each building that starts owned to its owner.
pub fn starting_owners(
    buildings: &Vec<(BuildingId, BuildingInfo)>,
    slot_players: &HashMap<usize, usize>,
    player_entities: &HashMap<usize, u64>,
) -> (owners: HashMap<usize, u64>)
    requires
        forall|i: int, j: int| 0 <= i < j < buildings@.len() ==> buildings@[i].0 != buildings@[j].0,
        slots_assigned(buildings@, index_table(*slot_players)),
    ensures
        forall|id: usize| #[trigger] owner_table(owners).dom().contains(id) <==> exists|i: int| 0 <= i < buildings@.len()
            && buildings@[i].0.0 == id
            && starting_owner(buildings@[i].1, index_table(*slot_players), owner_table(*player_entities)) is Some,
        forall|i: int| 0 <= i < buildings@.len()
            && (#[trigger] starting_owner(buildings@[i].1, index_table(*slot_players), owner_table(*player_entities))) is Some
            ==> owner_table(owners)[buildings@[i].0.0]
                == starting_owner(buildings@[i].1, index_table(*slot_players), owner_table(*player_entities))->0,
{
    let ghost slots = index_table(*slot_players);
    let ghost players = owner_table(*player_entities);
    let mut owners = owner_table_new();
    for i in 0..buildings.len()
        invariant
            slots == index_table(*slot_players),
            players == owner_table(*player_entities),
            forall|a: int, b: int| 0 <= a < b < buildings@.len() ==> buildings@[a].0 != buildings@[b].0,
            slots_assigned(buildings@, slots),
            forall|id: usize| #[trigger] owner_table(owners).dom().contains(id) <==> exists|k: int| 0 <= k < i
                && buildings@[k].0.0 == id && starting_owner(buildings@[k].1, slots, players) is Some,
            forall|k: int| 0 <= k < i && (#[trigger] starting_owner(buildings@[k].1, slots, players)) is Some
                ==> owner_table(owners)[buildings@[k].0.0] == starting_owner(buildings@[k].1, slots, players)->0,
    {
        let (building_id, building_info) = buildings[i];
        let owner = match building_info.building_type {
            BuildingType::HeadQuarter { index } => {
                proof {
                    assert(match buildings@[i as int].1.building_type {
                        BuildingType::HeadQuarter { index } => slots.dom().contains(index),
                        _ => true,
                    });
                }
                let player_id = index_table_get(slot_players, index).unwrap();
                owner_table_get(player_entities, player_id)
            },
            _ => None,
        };
        proof {
            assert(owner == starting_owner(buildings@[i as int].1, slots, players));
        }
        let ghost before = owner_table(owners);
        if let Some(player) = owner {
            owner_table_insert(&mut owners, building_id.id(), player);
        }
        proof {
            assert forall|id: usize| #[trigger] owner_table(owners).dom().contains(id) <==> exists|k: int| 0 <= k < i + 1
                && buildings@[k].0.0 == id && starting_owner(buildings@[k].1, slots, players) is Some by {
                if owner_table(owners).dom().contains(id) && !before.dom().contains(id) {
                    assert(buildings@[i as int].0.0 == id);
                }
                if exists|k: int| 0 <= k < i + 1 && buildings@[k].0.0 == id && starting_owner(buildings@[k].1, slots, players) is Some {
                    let k = choose|k: int| 0 <= k < i + 1 && buildings@[k].0.0 == id && starting_owner(buildings@[k].1, slots, players) is Some;
                    if k < i {
                        assert(before.dom().contains(id));
                    }
                }
            }
            assert forall|k: int| 0 <= k < i + 1 && (#[trigger] starting_owner(buildings@[k].1, slots, players)) is Some
                implies owner_table(owners)[buildings@[k].0.0] == starting_owner(buildings@[k].1, slots, players)->0 by {
                if k < i {
                    assert(buildings@[k].0 != buildings@[i as int].0);
                    assert(buildings@[k].0.0 != buildings@[i as int].0.0);
                }
            }
        }
    }
    owners
}

/// Which player owns each building when a game starts, once every head
/// quarter is found to have a player slot assigned; `None` when one has not.
pub fn checked_starting_owners(
    buildings: &Vec<(BuildingId, BuildingInfo)>,
    slot_players: &HashMap<usize, usize>,
    player_entities: &HashMap<usize, u64>,
) -> (owners: Option<HashMap<usize, u64>>)
    requires
        forall|i: int, j: int| 0 <= i < j < buildings@.len() ==> buildings@[i].0 != buildings@[j].0,
    ensures
        owners is None <==> !slots_assigned(buildings@, index_table(*slot_players)),
        owners is Some ==> forall|id: usize| #[trigger] owner_table(owners->0).dom().contains(id) <==> exists|i: int|
            0 <= i < buildings@.len() && buildings@[i].0.0 == id
            && starting_owner(buildings@[i].1, index_table(*slot_players), owner_table(*player_entities)) is Some,
        owners is Some ==> forall|i: int| 0 <= i < buildings@.len()
            && (#[trigger] starting_owner(buildings@[i].1, index_table(*slot_players), owner_table(*player_entities))) is Some
            ==> owner_table(owners->0)[buildings@[i].0.0]
                == starting_owner(buildings@[i].1, index_table(*slot_players), owner_table(*player_entities))->0,
{
    let ghost slots = index_table(*slot_players);
    for i in 0..buildings.len()
        invariant
            slots == index_table(*slot_players),
            forall|k: int| 0 <= k < i ==> match (#[trigger] buildings@[k]).1.building_type {
                BuildingType::HeadQuarter { index } => slots.dom().contains(index),
                _ => true,
            },
    {
        match buildings[i].1.building_type {
            BuildingType::HeadQuarter { index } => {
                if index_table_get(slot_players, index).is_none() {
                    proof {
                        assert(match buildings@[i as int].1.building_type {
                            BuildingType::HeadQuarter { index } => !slots.dom().contains(index),
                            _ => false,
                        });
                    }
                    return None;
                }
            },
            _ => {},
        }
    }
    Some(starting_owners(buildings, slot_players, player_entities))
}

} // verus!
