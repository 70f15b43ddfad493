use vstd::prelude::*;

use crate::game::ant::ant_type::AntType;
use crate::world_grid::GridSize;

verus! {

pub const HOUSE_MAX_INHABITANTS: i32 = 20;
pub const HQ_MAX_INHABITANTS: i32 = 40;
pub const TOWER_MAX_INHABITANTS: i32 = 30;
pub const CASERN_MAX_INHABITANTS: i32 = 20;
pub const WALLS_MAX_INHABITANTS: i32 = 50;

/// The kinds of buildings; a head quarter carries the index of the player
/// slot it starts with.
#[derive(Clone, Copy, Debug, Default, PartialEq, Eq, Structural)]
pub enum BuildingType {
    #[default]
    House,
    HeadQuarter { index: usize },
    Tower,
    Casern,
    Walls,
}

/// The name of a building kind as the game shows it.
pub open spec fn spec_building_name(building_type: BuildingType) -> Seq<char> {
    match building_type {
        BuildingType::House => "House"@,
        BuildingType::HeadQuarter { .. } => "Head Quarter"@,
        BuildingType::Tower => "Tower"@,
        BuildingType::Casern => "Casern"@,
        BuildingType::Walls => "Walls"@,
    }
}

impl BuildingType {
    pub fn name(&self) -> (name: String)
        ensures
            name@ == spec_building_name(*self),
    {
        let name = match self {
            BuildingType::House => "House",
            BuildingType::HeadQuarter { index: _ } => "Head Quarter",
            BuildingType::Tower => "Tower",
            BuildingType::Casern => "Casern",
            BuildingType::Walls => "Walls",
        };
        String::from_str(name)
    }

    /// The number of cells a building of this kind covers along each axis.
    pub open spec fn spec_grid_side(self) -> u32 {
        match self {
            BuildingType::House => 3,
            BuildingType::HeadQuarter { .. } => 4,
            BuildingType::Tower => 2,
            BuildingType::Casern => 3,
            BuildingType::Walls => 5,
        }
    }

    pub fn grid_size(&self) -> (size: GridSize)
        ensures
            size == (GridSize { x: self.spec_grid_side(), y: self.spec_grid_side() }),
    {
        match self {
            BuildingType::House => GridSize::splat(3),
            BuildingType::HeadQuarter { index: _ } => GridSize::splat(4),
            BuildingType::Tower => GridSize::splat(2),
            BuildingType::Casern => GridSize::splat(3),
            BuildingType::Walls => GridSize::splat(5),
        }
    }

    /// The kind of ant a building of this kind sends out.
    pub open spec fn spec_ants_produced(self) -> AntType {
        match self {
            BuildingType::House => AntType::Unit,
            BuildingType::HeadQuarter { .. } => AntType::Worker,
            BuildingType::Tower => AntType::Unit,
            BuildingType::Casern => AntType::Soldier,
            BuildingType::Walls => AntType::Unit,
        }
    }

    pub fn ants_produced(&self) -> (ant_type: AntType)
        ensures
            ant_type == self.spec_ants_produced(),
    {
        match self {
            BuildingType::House => AntType::Unit,
            BuildingType::HeadQuarter { index: _ } => AntType::Worker,
            BuildingType::Tower => AntType::Unit,
            BuildingType::Casern => AntType::Soldier,
            BuildingType::Walls => AntType::Unit,
        }
    }

    /// The population a building of this kind grows to.
    pub open spec fn spec_max_inhabitants(self) -> i32 {
        match self {
            BuildingType::House => HOUSE_MAX_INHABITANTS,
            BuildingType::HeadQuarter { .. } => HQ_MAX_INHABITANTS,
            BuildingType::Tower => TOWER_MAX_INHABITANTS,
            BuildingType::Casern => CASERN_MAX_INHABITANTS,
            BuildingType::Walls => WALLS_MAX_INHABITANTS,
        }
    }

    pub fn _max_inhabitants(&self) -> (max: i32)
        ensures
            max == self.spec_max_inhabitants(),
    {
        match self {
            BuildingType::House => HOUSE_MAX_INHABITANTS,
            BuildingType::HeadQuarter { index: _ } => HQ_MAX_INHABITANTS,
            BuildingType::Tower => TOWER_MAX_INHABITANTS,
            BuildingType::Casern => CASERN_MAX_INHABITANTS,
            BuildingType::Walls => WALLS_MAX_INHABITANTS,
        }
    }
}

} // verus!
