use ant_war::game::building::building_types::BuildingType;
use ant_war::game::building::{BuildingId, BuildingInfo};
use ant_war::map::{map_name_from_file, GameMap, MapAccess, MapCollection, MapInfo};
use ant_war::map_editor::editor::{editor_click, place_building, EditorClick};
use ant_war::world_grid::{GridSize, GridTransform};

fn info(building_type: BuildingType, x: i32) -> BuildingInfo {
    BuildingInfo {
        building_type,
        grid_transform: GridTransform { position_x: x, position_y: 0, size: building_type.grid_size() },
    }
}

fn empty_map() -> GameMap {
    GameMap::new("arena".to_string(), GridSize { x: 20, y: 12 }, 4)
}

#[test]
fn new_map_has_its_settings_and_no_building() {
    let map = empty_map();
    assert_eq!(map.map_name(), "arena");
    assert_eq!(map.size(), GridSize { x: 20, y: 12 });
    assert_eq!(map.max_players(), 4);
    assert!(map.building_infos().is_empty());
    assert!(map.building_entries().is_empty());
}

#[test]
fn buildings_get_ids_from_zero_up() {
    let mut map = empty_map();
    assert_eq!(map.add_building(info(BuildingType::House, 0)), BuildingId::new(0));
    assert_eq!(map.add_building(info(BuildingType::Tower, 3)), BuildingId::new(1));
    assert_eq!(map.add_building(info(BuildingType::Walls, 6)), BuildingId::new(2));
    assert_eq!(map.building_infos().len(), 3);
}

#[test]
fn removed_id_is_reused_first() {
    let mut map = empty_map();
    for x in 0..4 {
        map.add_building(info(BuildingType::House, x));
    }
    map.remove_building(BuildingId::new(1));
    assert_eq!(map.add_building(info(BuildingType::Casern, 9)), BuildingId::new(1));
    assert_eq!(map.add_building(info(BuildingType::Casern, 10)), BuildingId::new(4));
}

#[test]
fn removing_a_missing_building_changes_nothing() {
    let mut map = empty_map();
    map.add_building(info(BuildingType::House, 0));
    map.remove_building(BuildingId::new(7));
    assert_eq!(map.building_infos(), vec![info(BuildingType::House, 0)]);
}

#[test]
fn add_then_remove_gives_back_the_map() {
    let mut map = empty_map();
    map.add_building(info(BuildingType::House, 0));
    let id = map.add_building(info(BuildingType::Tower, 5));
    map.remove_building(id);
    assert_eq!(map.building_entries(), vec![(BuildingId::new(0), info(BuildingType::House, 0))]);
}

#[test]
fn entries_pair_ids_with_their_buildings() {
    let mut map = empty_map();
    let a = map.add_building(info(BuildingType::House, 0));
    let b = map.add_building(info(BuildingType::HeadQuarter { index: 1 }, 4));
    let mut entries = map.building_entries();
    entries.sort_by_key(|(id, _)| id.id());
    assert_eq!(entries, vec![(a, info(BuildingType::House, 0)), (b, info(BuildingType::HeadQuarter { index: 1 }, 4))]);
}

#[test]
fn building_info_can_be_edited_in_place() {
    let mut map = empty_map();
    let id = map.add_building(info(BuildingType::House, 0));
    {
        let stored = map.get_building_info_mut(id).unwrap();
        stored.grid_transform.position_x = 8;
    }
    assert_eq!(map.building_infos()[0].grid_transform.position_x, 8);
    assert!(map.get_building_info_mut(BuildingId::new(3)).is_none());
}

#[test]
fn size_and_player_count_can_be_changed() {
    let mut map = empty_map();
    map._set_size(GridSize { x: 7, y: 9 });
    map._set_max_players(2);
    assert_eq!(map.size(), GridSize { x: 7, y: 9 });
    assert_eq!(map.max_players(), 2);
}

#[test]
fn map_name_is_the_file_name_without_folder_and_extension() {
    assert_eq!(map_name_from_file("maps/arena.map"), "arena");
    assert_eq!(map_name_from_file("maps/sub/big.v2.map"), "big");
    assert_eq!(map_name_from_file("plain"), "plain");
    assert_eq!(map_name_from_file("maps/"), "");
    assert_eq!(map_name_from_file(".hidden"), "");
    assert_eq!(map_name_from_file(""), "");
}

#[test]
fn map_path_is_in_the_maps_folder() {
    let info: MapInfo<u32> = MapInfo::new("arena".to_string(), MapAccess::Handle(3));
    assert_eq!(info.path(), "maps/arena.map");
    assert_eq!(info.map_name(), "arena");
    assert!(matches!(info._map_access(), MapAccess::Handle(3)));
}

#[test]
fn saved_map_file_names_its_map_again() {
    let info: MapInfo<u32> = MapInfo::new("desert_01".to_string(), MapAccess::Handle(0));
    let path = info.path();
    assert!(path.starts_with("maps/"));
    assert_eq!(map_name_from_file(&path), "desert_01");
}

#[test]
fn map_info_from_file_keeps_the_path() {
    let info: MapInfo<u32> = MapInfo::from_file("maps/forest.map".to_string());
    assert_eq!(info.map_name(), "forest");
    assert!(matches!(info._map_access(), MapAccess::AssetPath(p) if p == "maps/forest.map"));
}

#[test]
fn next_head_quarter_index_is_the_least_unused() {
    let mut map = empty_map();
    assert_eq!(map.next_main_building_index(), 0);
    map.add_building(info(BuildingType::HeadQuarter { index: 0 }, 0));
    map.add_building(info(BuildingType::House, 5));
    assert_eq!(map.next_main_building_index(), 1);
    map.add_building(info(BuildingType::HeadQuarter { index: 2 }, 8));
    assert_eq!(map.next_main_building_index(), 1);
    map.add_building(info(BuildingType::HeadQuarter { index: 1 }, 12));
    assert_eq!(map.next_main_building_index(), 3);
    map.remove_building(BuildingId::new(0));
    assert_eq!(map.next_main_building_index(), 0);
}

#[test]
fn inserting_under_a_given_id_keeps_that_id() {
    let mut map = empty_map();
    map.insert_building(BuildingId::new(3), info(BuildingType::Tower, 1));
    assert_eq!(map.building_entries(), vec![(BuildingId::new(3), info(BuildingType::Tower, 1))]);
    map.insert_building(BuildingId::new(3), info(BuildingType::House, 2));
    assert_eq!(map.building_infos(), vec![info(BuildingType::House, 2)]);
    assert_eq!(map.add_building(info(BuildingType::Walls, 4)), BuildingId::new(0));
}

#[test]
fn placing_a_head_quarter_moves_the_preview_to_the_next_index() {
    let mut map = empty_map();
    let (id, next) = place_building(&mut map, info(BuildingType::HeadQuarter { index: 0 }, 0));
    assert_eq!(id, BuildingId::new(0));
    assert_eq!(next, BuildingType::HeadQuarter { index: 1 });
    let (id, next) = place_building(&mut map, info(next, 5));
    assert_eq!(id, BuildingId::new(1));
    assert_eq!(next, BuildingType::HeadQuarter { index: 2 });
    assert_eq!(map.building_infos().len(), 2);
}

#[test]
fn placing_other_buildings_keeps_the_preview_kind() {
    let mut map = empty_map();
    assert_eq!(place_building(&mut map, info(BuildingType::Tower, 0)), (BuildingId::new(0), BuildingType::Tower));
    assert_eq!(place_building(&mut map, info(BuildingType::House, 4)), (BuildingId::new(1), BuildingType::House));
    assert_eq!(map.building_entries().len(), 2);
}

#[test]
fn clicking_an_editor_building_selects_it_once() {
    assert_eq!(editor_click(None, 7), EditorClick::Select { deselect: None });
    assert_eq!(editor_click(Some(3), 7), EditorClick::Select { deselect: Some(3) });
    assert_eq!(editor_click(Some(7), 7), EditorClick::AlreadySelected);
}

fn names(collection: &MapCollection<u32>) -> Vec<String> {
    let mut names: Vec<String> = collection.map_infos().iter().map(|info| info.map_name()).collect();
    names.sort();
    names
}

#[test]
fn map_collection_finds_maps_by_name() {
    let mut maps: MapCollection<u32> = MapCollection::new();
    assert!(maps.map_infos().is_empty());
    assert!(maps.map_info("forest".to_string()).is_none());

    maps._add_map(MapInfo::new("forest".to_string(), MapAccess::Handle(7)));
    maps._add_map(MapInfo::from_file("maps/desert.map".to_string()));
    assert_eq!(names(&maps), vec!["desert".to_string(), "forest".to_string()]);
    assert!(matches!(maps.map_info("forest".to_string()).unwrap()._map_access(), MapAccess::Handle(7)));
    assert!(matches!(
        maps.map_info("desert".to_string()).unwrap()._map_access(),
        MapAccess::AssetPath(p) if p == "maps/desert.map"
    ));
}

#[test]
fn adding_a_map_of_a_known_name_replaces_it() {
    let mut maps: MapCollection<u32> = MapCollection::new();
    maps._add_map(MapInfo::from_file("maps/forest.map".to_string()));
    maps._add_map(MapInfo::new("forest".to_string(), MapAccess::Handle(2)));
    assert_eq!(names(&maps), vec!["forest".to_string()]);
    assert!(matches!(maps.map_info("forest".to_string()).unwrap()._map_access(), MapAccess::Handle(2)));
}

#[test]
fn removed_maps_are_no_longer_found() {
    let mut maps: MapCollection<u32> = MapCollection::new();
    maps._add_map(MapInfo::new("forest".to_string(), MapAccess::Handle(1)));
    maps._add_map(MapInfo::new("desert".to_string(), MapAccess::Handle(2)));
    maps.remove("forest".to_string());
    assert!(maps.map_info("forest".to_string()).is_none());
    assert_eq!(names(&maps), vec!["desert".to_string()]);
    maps.remove("swamp".to_string());
    assert_eq!(names(&maps), vec!["desert".to_string()]);
}

#[test]
fn maps_are_listed_from_their_files() {
    let files = vec!["maps/forest.map".to_string(), "maps/desert.map".to_string(), "old/forest.ron".to_string()];
    let maps: MapCollection<u32> = MapCollection::from_files(&files);
    assert_eq!(names(&maps), vec!["desert".to_string(), "forest".to_string()]);
    assert!(matches!(
        maps.map_info("forest".to_string()).unwrap()._map_access(),
        MapAccess::AssetPath(p) if p == "old/forest.ron"
    ));
}

#[test]
fn map_names_keep_their_text() {
    let name = ant_war::map::MapName::new("forest".to_string());
    assert_eq!(name.name(), "forest");
    assert_eq!(ant_war::map::MapName::default().name(), "");
}
