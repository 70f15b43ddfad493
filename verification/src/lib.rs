//! Ant War: a real-time strategy game where buildings send ants to take over
//! other buildings. This library holds the rules of the game and its maps;
//! the engine around it (rendering, input, assets) lives in the application.
use vstd::prelude::*;

pub mod collections;
pub mod debug;
pub mod game;
pub mod manifest;
pub mod map;
pub mod map_editor;
pub mod text;
pub mod world_grid;

verus! {

/// Whether the manifest has been read.
#[derive(Clone, Copy, Debug, Default, PartialEq, Eq, Hash, Structural)]
pub enum ManifestLoadingState {
    #[default]
    Loading,
    Loaded,
}

/// Whether the list of maps has been built.
#[derive(Clone, Copy, Debug, Default, PartialEq, Eq, Hash, Structural)]
pub enum MapLoadingState {
    #[default]
    Loading,
    Loaded,
}

/// The game leaves its start-up phase once the manifest and the maps are
/// both loaded.
pub fn initialized(manifest_state: ManifestLoadingState, map_state: MapLoadingState) -> (ready: bool)
    ensures
        ready == (manifest_state == ManifestLoadingState::Loaded && map_state == MapLoadingState::Loaded),
{
    match manifest_state {
        ManifestLoadingState::Loading => return false,
        ManifestLoadingState::Loaded => {},
    }
    match map_state {
        MapLoadingState::Loading => return false,
        MapLoadingState::Loaded => {},
    }
    true
}

} // verus!
