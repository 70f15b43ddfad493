//! What a computer player knows of a building.
use vstd::prelude::*;

verus! {

/// Who owns a building, seen from a computer player.
#[derive(Clone, Copy, Debug, PartialEq, Eq, Structural)]
pub enum BuildingOwner {
    Own,
    Enemy,
    Neutral,
}

impl BuildingOwner {
    /// The owner of a building owned by `owner` (if anyone), seen from the
    /// computer player `bot` (players written as their 64-bit entity form).
    pub fn seen_by(owner: Option<u64>, bot: u64) -> (seen: BuildingOwner)
        ensures
            seen == (match owner {
                Some(player) => if player == bot {
                    BuildingOwner::Own
                } else {
                    BuildingOwner::Enemy
                },
                None => BuildingOwner::Neutral,
            }),
    {
        match owner {
            Some(player) => {
                if player == bot {
                    BuildingOwner::Own
                } else {
                    BuildingOwner::Enemy
                }
            },
            None => BuildingOwner::Neutral,
        }
    }

    /// Whether the computer player owns the building: only such buildings
    /// join the list of its own buildings.
    pub fn is_own(self) -> (own: bool)
        ensures
            own == (self == BuildingOwner::Own),
    {
        match self {
            BuildingOwner::Own => true,
            _ => false,
        }
    }
}

} // verus!
