use ant_war::debug::DebugState;
use ant_war::game::ant::ant_spawner::{AntSpawner, SpawnerStep};
use ant_war::game::ant::ant_type::AntType;
use ant_war::game::ant::asset_paths as ant_paths;
use ant_war::game::bot::bot_view::BuildingOwner;
use ant_war::game::bot::BotDifficulty;
use ant_war::game::building::asset_paths as building_paths;
use ant_war::game::building::building_selection::{BuildingSelectionKind, BuildingSelectionKind as K, SelectedBuildings};
use ant_war::game::building::building_types::BuildingType;
use ant_war::game::building::{dispatch_move_order, BuildingId, BuildingInfo};
use ant_war::game::{checked_starting_owners, starting_owners};
use bevy::platform::collections::HashMap;
use ant_war::game::building::inhabitants::Inhabitants;
use ant_war::game::game_info::end_game::winner;
use ant_war::game::game_info::GameState;
use ant_war::game::player::{PlayerColor, Team};
use ant_war::map_editor::editor::{resized_height, resized_width};
use ant_war::world_grid::{GridSize, GridTransform};
use ant_war::{initialized, ManifestLoadingState, MapLoadingState};

const PLAYER_COLORS: [PlayerColor; 8] = [
    PlayerColor::Blue,
    PlayerColor::Red,
    PlayerColor::Green,
    PlayerColor::Orange,
    PlayerColor::Purple,
    PlayerColor::Yellow,
    PlayerColor::Aqua,
    PlayerColor::Pink,
];

fn sorted(mut ids: Vec<u64>) -> Vec<u64> {
    ids.sort();
    ids
}

// Inhabitants

#[test]
fn inhabitants_take_stops_at_zero() {
    let mut inhabitants = Inhabitants::new(5, 20);
    inhabitants.take(3);
    assert_eq!(inhabitants.current(), 2);
    inhabitants.take(10);
    assert_eq!(inhabitants.current(), 0);
    assert_eq!(inhabitants.max_inhabitants(), 20);
}

#[test]
fn inhabitants_add_and_set() {
    let mut inhabitants = Inhabitants::new(5, 20);
    inhabitants.add(4);
    assert_eq!(inhabitants.current(), 9);
    inhabitants.set(30);
    assert_eq!(inhabitants.current(), 30);
}

#[test]
fn growth_stops_at_the_maximum() {
    let mut inhabitants = Inhabitants::new(18, 20);
    let mut steps = 0;
    while inhabitants.can_grow() {
        inhabitants.grow();
        steps += 1;
    }
    assert_eq!(steps, 2);
    assert_eq!(inhabitants.current(), 20);
    assert!(!inhabitants.overpopulated());
}

#[test]
fn overpopulation_shrinks_back_to_the_maximum() {
    let mut inhabitants = Inhabitants::new(23, 20);
    assert!(!inhabitants.can_grow());
    while inhabitants.overpopulated() {
        inhabitants.shrink();
    }
    assert_eq!(inhabitants.current(), 20);
}

#[test]
fn move_order_sends_the_larger_half() {
    for (before, sent, after) in [(7, 4, 3), (8, 4, 4), (1, 1, 0), (0, 0, 0), (-3, -2, 0)] {
        let mut inhabitants = Inhabitants::new(before, 20);
        assert_eq!(inhabitants.send_half(), sent);
        assert_eq!(inhabitants.current(), after);
    }
}

#[test]
fn hits_take_inhabitants_then_overtake() {
    let mut inhabitants = Inhabitants::new(3, 20);
    assert!(!inhabitants.absorb_hits(2));
    assert_eq!(inhabitants.current(), 1);
    assert!(!inhabitants.absorb_hits(1));
    assert_eq!(inhabitants.current(), 0);
    assert!(inhabitants.absorb_hits(1));
    assert_eq!(inhabitants.current(), 0);

    let mut inhabitants = Inhabitants::new(3, 20);
    assert!(inhabitants.absorb_hits(4));
    assert_eq!(inhabitants.current(), 0);

    let mut inhabitants = Inhabitants::new(3, 20);
    assert!(!inhabitants.absorb_hits(0));
    assert_eq!(inhabitants.current(), 3);
}

#[test]
fn hits_on_a_negative_population() {
    let mut inhabitants = Inhabitants::new(-2, 20);
    assert!(!inhabitants.absorb_hits(1));
    assert_eq!(inhabitants.current(), 0);
    let mut inhabitants = Inhabitants::new(-2, 20);
    assert!(inhabitants.absorb_hits(2));
}

// Move orders and spawners

#[test]
fn move_order_makes_a_spawner_of_the_produced_kind() {
    let mut inhabitants = Inhabitants::new(9, 40);
    let spawner = dispatch_move_order(&mut inhabitants, BuildingType::HeadQuarter { index: 0 }, 77).unwrap();
    assert_eq!(spawner, AntSpawner { ant_type: AntType::Worker, left_to_spawn: 5, target_building: 77 });
    assert_eq!(inhabitants.current(), 4);
    assert_eq!(spawner.left_to_spawn as i32 + inhabitants.current(), 9);
}

#[test]
fn move_order_from_an_empty_building_does_nothing() {
    let mut inhabitants = Inhabitants::new(0, 20);
    assert!(dispatch_move_order(&mut inhabitants, BuildingType::Casern, 1).is_none());
    assert_eq!(inhabitants.current(), 0);
}

#[test]
fn spawner_sends_every_ant_then_goes() {
    let mut spawner = AntSpawner { ant_type: AntType::Soldier, left_to_spawn: 2, target_building: 5 };
    assert_eq!(spawner.step(false), SpawnerStep { spawn_ant: false, despawn: false });
    assert_eq!(spawner.step(true), SpawnerStep { spawn_ant: true, despawn: false });
    assert_eq!(spawner.step(false), SpawnerStep { spawn_ant: false, despawn: false });
    assert_eq!(spawner.step(true), SpawnerStep { spawn_ant: true, despawn: true });
    assert_eq!(spawner.left_to_spawn, 0);
}

// Building kinds

#[test]
fn building_kinds() {
    let kinds = [
        (BuildingType::House, 3, "House", AntType::Unit, 20),
        (BuildingType::HeadQuarter { index: 2 }, 4, "Head Quarter", AntType::Worker, 40),
        (BuildingType::Tower, 2, "Tower", AntType::Unit, 30),
        (BuildingType::Casern, 3, "Casern", AntType::Soldier, 20),
        (BuildingType::Walls, 5, "Walls", AntType::Unit, 50),
    ];
    for (kind, side, name, ant, max) in kinds {
        assert_eq!(kind.grid_size(), GridSize::splat(side));
        assert_eq!(kind.name(), name);
        assert_eq!(kind.ants_produced(), ant);
        assert_eq!(kind._max_inhabitants(), max);
    }
    assert_eq!(GridTransform::new(GridSize::splat(2)).size, GridSize { x: 2, y: 2 });
}

#[test]
fn sprite_paths() {
    assert_eq!(ant_paths::get_path(AntType::Unit, PlayerColor::Blue), "sprites/ants/unit/unit_blue.png");
    assert_eq!(ant_paths::get_path(AntType::Worker, PlayerColor::Pink), "sprites/ants/worker/worker_pink.png");
    assert_eq!(ant_paths::get_path(AntType::Soldier, PlayerColor::Aqua), "sprites/ants/soldier/soldier_aqua.png");
    assert_eq!(
        building_paths::get_path(BuildingType::House, PlayerColor::Neutral),
        "sprites/buildings/house/house_neutral.png"
    );
    assert_eq!(
        building_paths::get_path(BuildingType::HeadQuarter { index: 3 }, PlayerColor::Red),
        "sprites/buildings/main_building/main_building_red.png"
    );
    assert_eq!(
        building_paths::get_path(BuildingType::Tower, PlayerColor::Yellow),
        "sprites/buildings/tower/tower_yellow.png"
    );
}

// Players

#[test]
fn colors_cycle_forwards_and_backwards() {
    for (i, color) in PLAYER_COLORS.iter().enumerate() {
        assert_eq!(color.next_color(), PLAYER_COLORS[(i + 1) % 8]);
        assert_eq!(color.previous_color(), PLAYER_COLORS[(i + 7) % 8]);
        assert_eq!(color.next_color().previous_color(), *color);
        assert_eq!(color.previous_color().next_color(), *color);
        let mut c = *color;
        for _ in 0..8 {
            c = c.next_color();
        }
        assert_eq!(c, *color);
    }
    assert_eq!(PlayerColor::Neutral.next_color(), PlayerColor::Blue);
    assert_eq!(PlayerColor::Neutral.previous_color(), PlayerColor::Blue);
}

#[test]
fn color_names() {
    let names: Vec<&str> = PLAYER_COLORS.iter().map(|c| c.color_name()).collect();
    assert_eq!(names, vec!["Blue", "Red", "Green", "Orange", "Purple", "Yellow", "Aqua", "Pink"]);
    assert_eq!(PlayerColor::Neutral.color_name(), "Neutral");
    assert_eq!(PlayerColor::default(), PlayerColor::Neutral);
}

#[test]
fn teams() {
    assert_eq!(Team::new(3).id(), 3);
}

// Selection

#[test]
fn single_selection_replaces_the_selection() {
    let mut selection = SelectedBuildings::new();
    selection.select(1, BuildingSelectionKind::SingleSelection, &vec![]);
    let changes = selection.select(2, BuildingSelectionKind::SingleSelection, &vec![]);
    assert_eq!(changes.unmarked, vec![1]);
    assert_eq!(changes.marked, Some(2));
    assert_eq!(selection.buildings(), vec![2]);
}

#[test]
fn adding_needs_own_buildings_only() {
    let own = vec![1, 2, 3];
    let mut selection = SelectedBuildings::new();
    selection.select(1, BuildingSelectionKind::SingleSelection, &own);
    assert_eq!(selection.select(2, BuildingSelectionKind::AddSelection, &own).marked, Some(2));
    assert_eq!(selection.select(9, BuildingSelectionKind::AddSelection, &own).marked, None);
    assert_eq!(sorted(selection.buildings()), vec![1, 2]);

    let mut enemy_first = SelectedBuildings::new();
    enemy_first.select(9, BuildingSelectionKind::SingleSelection, &own);
    assert_eq!(enemy_first.select(1, BuildingSelectionKind::AddSelection, &own).marked, None);
    assert_eq!(enemy_first.buildings(), vec![9]);
}

#[test]
fn removing_from_the_selection() {
    let own = vec![1, 2];
    let mut selection = SelectedBuildings::new();
    selection.select(1, BuildingSelectionKind::AddSelection, &own);
    selection.select(2, BuildingSelectionKind::AddSelection, &own);
    let changes = selection.select(1, BuildingSelectionKind::RemoveSelection, &own);
    assert_eq!(changes.unmarked, vec![1]);
    assert!(!selection.contains(1));
    assert!(selection.select(1, BuildingSelectionKind::RemoveSelection, &own).unmarked.is_empty());
    assert!(selection.deselect(2));
    assert!(!selection.deselect(2));
}

#[test]
fn deselect_all_empties_the_selection() {
    let own = vec![4, 5];
    let mut selection = SelectedBuildings::new();
    selection.select(4, BuildingSelectionKind::AddSelection, &own);
    selection.select(5, BuildingSelectionKind::AddSelection, &own);
    assert_eq!(sorted(selection.deselect_all()), vec![4, 5]);
    assert!(selection.buildings().is_empty());
}

#[test]
fn modifiers_choose_the_selection_kind() {
    assert_eq!(BuildingSelectionKind::from_modifiers(K::SingleSelection, false, false), K::SingleSelection);
    assert_eq!(BuildingSelectionKind::from_modifiers(K::SingleSelection, true, false), K::AddSelection);
    assert_eq!(BuildingSelectionKind::from_modifiers(K::SingleSelection, true, true), K::RemoveSelection);
    assert_eq!(BuildingSelectionKind::from_modifiers(K::AddSelection, false, false), K::AddSelection);
    assert_eq!(K::SingleSelection.for_rectangle(), (true, K::AddSelection));
    assert_eq!(K::AddSelection.for_rectangle(), (false, K::AddSelection));
    assert_eq!(K::RemoveSelection.for_rectangle(), (false, K::RemoveSelection));
}

// Game phases

#[test]
fn escape_pauses_and_resumes_during_play() {
    let playing = GameState::Playing { paused: false };
    let paused = playing.on_escape().unwrap();
    assert_eq!(paused, GameState::Playing { paused: true });
    assert_eq!(paused.on_escape(), Some(playing));
    assert_eq!(GameState::StartingDecount.on_escape(), None);
    assert_eq!(GameState::GameOver.on_escape(), None);
    assert!(playing.is_running());
    assert!(!paused.is_running());
    assert!(!GameState::default().is_running());
}

#[test]
fn a_single_owner_left_wins() {
    assert_eq!(winner(&vec![7, 7, 7]), Some(7));
    assert_eq!(winner(&vec![7]), Some(7));
    assert_eq!(winner(&vec![7, 8, 7]), None);
    assert_eq!(winner(&vec![]), None);
}

#[test]
fn bots_see_owners() {
    assert_eq!(BuildingOwner::seen_by(Some(3), 3), BuildingOwner::Own);
    assert_eq!(BuildingOwner::seen_by(Some(4), 3), BuildingOwner::Enemy);
    assert_eq!(BuildingOwner::seen_by(None, 3), BuildingOwner::Neutral);
}

#[test]
fn difficulty_names() {
    assert_eq!(BotDifficulty::Eazy.to_string(), "Eazy");
    assert_eq!(BotDifficulty::Normal.to_string(), "Normal");
    assert_eq!(BotDifficulty::Hard.to_string(), "Hard");
}

// Start-up, debug view, editor

#[test]
fn initialisation_waits_for_manifest_and_maps() {
    assert!(initialized(ManifestLoadingState::Loaded, MapLoadingState::Loaded));
    assert!(!initialized(ManifestLoadingState::Loading, MapLoadingState::Loaded));
    assert!(!initialized(ManifestLoadingState::Loaded, MapLoadingState::Loading));
}

#[test]
fn debug_view_toggles() {
    assert_eq!(DebugState::ViewDisabled.toggled(), DebugState::ViewEnabled);
    assert_eq!(DebugState::ViewEnabled.toggled(), DebugState::ViewDisabled);
}

#[test]
fn editor_resizing_ignores_non_positive_values() {
    let size = GridSize { x: 10, y: 8 };
    assert_eq!(resized_width(size, 12), Some(GridSize { x: 12, y: 8 }));
    assert_eq!(resized_height(size, 3), Some(GridSize { x: 10, y: 3 }));
    assert_eq!(resized_width(size, 0), None);
    assert_eq!(resized_height(size, -4), None);
}

// Starting owners and move-order sources

#[test]
fn head_quarters_start_with_their_slot_player() {

    let place = |building_type: BuildingType| BuildingInfo { building_type, grid_transform: GridTransform::new(building_type.grid_size()) };
    let buildings = vec![
        (BuildingId::new(0), place(BuildingType::HeadQuarter { index: 0 })),
        (BuildingId::new(1), place(BuildingType::House)),
        (BuildingId::new(2), place(BuildingType::HeadQuarter { index: 1 })),
        (BuildingId::new(3), place(BuildingType::HeadQuarter { index: 2 })),
    ];
    let mut slot_players: HashMap<usize, usize> = HashMap::new();
    slot_players.insert(0, 10);
    slot_players.insert(1, 11);
    slot_players.insert(2, 12);
    let mut player_entities: HashMap<usize, u64> = HashMap::new();
    player_entities.insert(10, 100);
    player_entities.insert(11, 101);

    let owners = starting_owners(&buildings, &slot_players, &player_entities);
    assert_eq!(owners.len(), 2);
    assert_eq!(owners.get(&0), Some(&100));
    assert_eq!(owners.get(&2), Some(&101));
    assert_eq!(owners.get(&1), None);
    assert_eq!(owners.get(&3), None);
}

#[test]
fn orders_come_from_own_selected_buildings_only() {
    let mut selection = SelectedBuildings::new();
    selection.select(9, BuildingSelectionKind::SingleSelection, &vec![1, 2]);
    assert!(selection.order_sources(&vec![1, 2]).is_empty());
    selection.select(1, BuildingSelectionKind::SingleSelection, &vec![1, 2]);
    selection.select(2, BuildingSelectionKind::AddSelection, &vec![1, 2]);
    assert_eq!(sorted(selection.order_sources(&vec![1, 2, 3])), vec![1, 2]);
    assert_eq!(selection.order_sources(&vec![2]), vec![2]);
}

#[test]
fn move_order_size_is_the_larger_half() {
    use_sizes(&[(0, 0), (1, 1), (2, 1), (9, 5), (-1, -1), (-4, -2)]);
}

fn use_sizes(cases: &[(i32, i32)]) {
    for (count, size) in cases {
        assert_eq!(ant_war::game::building::inhabitants::move_order_size(*count), *size);
    }
}

#[test]
fn checked_starting_owners_needs_every_head_quarter_slot() {
    let place = |building_type: BuildingType| BuildingInfo { building_type, grid_transform: GridTransform::new(building_type.grid_size()) };
    let buildings = vec![
        (BuildingId::new(0), place(BuildingType::HeadQuarter { index: 0 })),
        (BuildingId::new(1), place(BuildingType::House)),
        (BuildingId::new(2), place(BuildingType::HeadQuarter { index: 1 })),
    ];
    let mut slot_players: HashMap<usize, usize> = HashMap::new();
    slot_players.insert(0, 10);
    let mut player_entities: HashMap<usize, u64> = HashMap::new();
    player_entities.insert(10, 100);
    player_entities.insert(11, 101);

    assert!(checked_starting_owners(&buildings, &slot_players, &player_entities).is_none());

    slot_players.insert(1, 11);
    let owners = checked_starting_owners(&buildings, &slot_players, &player_entities).unwrap();
    assert_eq!(owners.len(), 2);
    assert_eq!(owners.get(&0), Some(&100));
    assert_eq!(owners.get(&2), Some(&101));
    assert_eq!(owners.get(&1), None);
}

#[test]
fn a_spawner_sends_exactly_its_ants_over_its_life() {
    let frames = [false, true, true, false, false, true];
    let mut spawner = AntSpawner { ant_type: AntType::Worker, left_to_spawn: 3, target_building: 8 };
    let mut sent = 0;
    let mut previous = spawner.left_to_spawn;
    for (frame, fired) in frames.iter().enumerate() {
        let step = spawner.step(*fired);
        if step.spawn_ant {
            sent += 1;
        }
        assert!(spawner.left_to_spawn <= previous);
        previous = spawner.left_to_spawn;
        assert_eq!(step.despawn, frame == frames.len() - 1);
        assert_eq!(spawner.ant_type, AntType::Worker);
        assert_eq!(spawner.target_building, 8);
    }
    assert_eq!(sent, 3);
    assert_eq!(spawner.left_to_spawn, 0);
}

#[test]
fn only_own_buildings_join_the_bot_list() {
    assert!(BuildingOwner::Own.is_own());
    assert!(!BuildingOwner::Enemy.is_own());
    assert!(!BuildingOwner::Neutral.is_own());
    assert!(BuildingOwner::seen_by(Some(4), 4).is_own());
}
