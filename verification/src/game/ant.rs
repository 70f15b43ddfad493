//! Ants: their kinds, the sprites they are drawn with and the spawners that
//! send them out.
pub mod ant_spawner;
pub mod asset_paths;
pub mod ant_type;
