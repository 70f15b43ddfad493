//! Editing a map: resizing it, placing the previewed building and selecting
//! a building with a click.
use vstd::prelude::*;

use crate::game::building::building_types::BuildingType;
use crate::game::building::{BuildingId, BuildingInfo};
use crate::map::{least_free_hq_index, least_free_id, GameMap, GameMapView};
use crate::world_grid::GridSize;

verus! {

/// The map size once its width is set to `value`; values that are not
/// positive are ignored.
pub fn resized_width(size: GridSize, value: i32) -> (resized: Option<GridSize>)
    ensures
        value <= 0 ==> resized is None,
        value > 0 ==> resized == Some(GridSize { x: value as u32, y: size.y }),
{
    if value <= 0 {
        return None;
    }
    Some(GridSize { x: value as u32, y: size.y })
}

/// The map size once its height is set to `value`; values that are not
/// positive are ignored.
pub fn resized_height(size: GridSize, value: i32) -> (resized: Option<GridSize>)
    ensures
        value <= 0 ==> resized is None,
        value > 0 ==> resized == Some(GridSize { x: size.x, y: value as u32 }),
{
    if value <= 0 {
        return None;
    }
    Some(GridSize { x: size.x, y: value as u32 })
}

/// Places the previewed building on the map under the least free id.
/// Returns that id and the kind the preview goes on with: a head quarter
/// preview moves on to the next head quarter index that is free, any other
/// kind stays as it is.
pub fn place_building(map: &mut GameMap, building_info: BuildingInfo) -> (placed: (BuildingId, BuildingType))
    ensures
        least_free_id(old(map)@.buildings, placed.0.0),
        final(map)@ == (GameMapView {
            buildings: old(map)@.buildings.insert(placed.0.0, building_info),
            ..old(map)@
        }),
        building_info.building_type is HeadQuarter ==> (placed.1 matches BuildingType::HeadQuarter { index }
            && least_free_hq_index(final(map)@.buildings, index)),
        !(building_info.building_type is HeadQuarter) ==> placed.1 == building_info.building_type,
{
    let building_id = map.add_building(building_info);
    let next_type = match building_info.building_type {
        BuildingType::HeadQuarter { index: _ } => BuildingType::HeadQuarter { index: map.next_main_building_index() },
        other => other,
    };
    (building_id, next_type)
}

/// What a click on a building in the editor does.
#[derive(Clone, Copy, Debug, PartialEq, Eq, Structural)]
pub enum EditorClick {
    /// The building is the selected one already: nothing changes.
    AlreadySelected,
    /// The building becomes the selected one, and the one selected before,
    /// if any, is deselected.
    Select { deselect: Option<u64> },
}

/// The effect of a click on `clicked` when `selected` is the building
/// selected in the editor (entities written as their 64-bit form).
pub fn editor_click(selected: Option<u64>, clicked: u64) -> (click: EditorClick)
    ensures
        click == (if selected == Some(clicked) {
            EditorClick::AlreadySelected
        } else {
            EditorClick::Select { deselect: selected }
        }),
{
    match selected {
        Some(entity) => if entity == clicked {
            EditorClick::AlreadySelected
        } else {
            EditorClick::Select { deselect: Some(entity) }
        },
        None => EditorClick::Select { deselect: None },
    }
}

} // verus!
