//! Where the sprite of each building is found, by kind and player color.
use vstd::prelude::*;

use crate::game::building::building_types::BuildingType;
use crate::game::player::{color_file_name, lemma_color_file_name, lemma_color_file_names_distinct, PlayerColor};

verus! {

pub const PATH_HOUSE_BLUE: &'static str = "sprites/buildings/house/house_blue.png";
pub const PATH_HOUSE_RED: &'static str = "sprites/buildings/house/house_red.png";
pub const PATH_HOUSE_GREEN: &'static str = "sprites/buildings/house/house_green.png";
pub const PATH_HOUSE_ORANGE: &'static str = "sprites/buildings/house/house_orange.png";
pub const PATH_HOUSE_PURPLE: &'static str = "sprites/buildings/house/house_purple.png";
pub const PATH_HOUSE_YELLOW: &'static str = "sprites/buildings/house/house_yellow.png";
pub const PATH_HOUSE_AQUA: &'static str = "sprites/buildings/house/house_aqua.png";
pub const PATH_HOUSE_PINK: &'static str = "sprites/buildings/house/house_pink.png";
pub const PATH_HOUSE_NEUTRAL: &'static str = "sprites/buildings/house/house_neutral.png";

pub const PATH_MAIN_BUILDING_BLUE: &'static str = "sprites/buildings/main_building/main_building_blue.png";
pub const PATH_MAIN_BUILDING_RED: &'static str = "sprites/buildings/main_building/main_building_red.png";
pub const PATH_MAIN_BUILDING_GREEN: &'static str = "sprites/buildings/main_building/main_building_green.png";
pub const PATH_MAIN_BUILDING_ORANGE: &'static str = "sprites/buildings/main_building/main_building_orange.png";
pub const PATH_MAIN_BUILDING_PURPLE: &'static str = "sprites/buildings/main_building/main_building_purple.png";
pub const PATH_MAIN_BUILDING_YELLOW: &'static str = "sprites/buildings/main_building/main_building_yellow.png";
pub const PATH_MAIN_BUILDING_AQUA: &'static str = "sprites/buildings/main_building/main_building_aqua.png";
pub const PATH_MAIN_BUILDING_PINK: &'static str = "sprites/buildings/main_building/main_building_pink.png";
pub const PATH_MAIN_BUILDING_NEUTRAL: &'static str = "sprites/buildings/main_building/main_building_neutral.png";

pub const PATH_TOWER_BLUE: &'static str = "sprites/buildings/tower/tower_blue.png";
pub const PATH_TOWER_RED: &'static str = "sprites/buildings/tower/tower_red.png";
pub const PATH_TOWER_GREEN: &'static str = "sprites/buildings/tower/tower_green.png";
pub const PATH_TOWER_ORANGE: &'static str = "sprites/buildings/tower/tower_orange.png";
pub const PATH_TOWER_PURPLE: &'static str = "sprites/buildings/tower/tower_purple.png";
pub const PATH_TOWER_YELLOW: &'static str = "sprites/buildings/tower/tower_yellow.png";
pub const PATH_TOWER_AQUA: &'static str = "sprites/buildings/tower/tower_aqua.png";
pub const PATH_TOWER_PINK: &'static str = "sprites/buildings/tower/tower_pink.png";
pub const PATH_TOWER_NEUTRAL: &'static str = "sprites/buildings/tower/tower_neutral.png";

/// The building kinds that have sprites: houses, head quarters and towers.
pub open spec fn has_sprite(building_type: BuildingType) -> bool {
    building_type is House || building_type is HeadQuarter || building_type is Tower
}

/// The sprite of a building of a kind and color.
pub open spec fn spec_building_path(building_type: BuildingType, player_color: PlayerColor) -> &'static str {
    match building_type {
        BuildingType::House => match player_color {
            PlayerColor::Blue => PATH_HOUSE_BLUE,
            PlayerColor::Red => PATH_HOUSE_RED,
            PlayerColor::Green => PATH_HOUSE_GREEN,
            PlayerColor::Orange => PATH_HOUSE_ORANGE,
            PlayerColor::Purple => PATH_HOUSE_PURPLE,
            PlayerColor::Yellow => PATH_HOUSE_YELLOW,
            PlayerColor::Aqua => PATH_HOUSE_AQUA,
            PlayerColor::Pink => PATH_HOUSE_PINK,
            PlayerColor::Neutral => PATH_HOUSE_NEUTRAL,
        },
        BuildingType::HeadQuarter { .. } => match player_color {
            PlayerColor::Blue => PATH_MAIN_BUILDING_BLUE,
            PlayerColor::Red => PATH_MAIN_BUILDING_RED,
            PlayerColor::Green => PATH_MAIN_BUILDING_GREEN,
            PlayerColor::Orange => PATH_MAIN_BUILDING_ORANGE,
            PlayerColor::Purple => PATH_MAIN_BUILDING_PURPLE,
            PlayerColor::Yellow => PATH_MAIN_BUILDING_YELLOW,
            PlayerColor::Aqua => PATH_MAIN_BUILDING_AQUA,
            PlayerColor::Pink => PATH_MAIN_BUILDING_PINK,
            PlayerColor::Neutral => PATH_MAIN_BUILDING_NEUTRAL,
        },
        BuildingType::Tower => match player_color {
            PlayerColor::Blue => PATH_TOWER_BLUE,
            PlayerColor::Red => PATH_TOWER_RED,
            PlayerColor::Green => PATH_TOWER_GREEN,
            PlayerColor::Orange => PATH_TOWER_ORANGE,
            PlayerColor::Purple => PATH_TOWER_PURPLE,
            PlayerColor::Yellow => PATH_TOWER_YELLOW,
            PlayerColor::Aqua => PATH_TOWER_AQUA,
            PlayerColor::Pink => PATH_TOWER_PINK,
            PlayerColor::Neutral => PATH_TOWER_NEUTRAL,
        },
        _ => PATH_HOUSE_NEUTRAL,
    }
}

/// The sprite of a building; only houses, head quarters and towers have sprites here.
pub fn get_path(building_type: BuildingType, player_color: PlayerColor) -> (path: &'static str)
    requires
        has_sprite(building_type),
    ensures
        path == spec_building_path(building_type, player_color),
{
    match building_type {
        BuildingType::House => match player_color {
            PlayerColor::Blue => PATH_HOUSE_BLUE,
            PlayerColor::Red => PATH_HOUSE_RED,
            PlayerColor::Green => PATH_HOUSE_GREEN,
            PlayerColor::Orange => PATH_HOUSE_ORANGE,
            PlayerColor::Purple => PATH_HOUSE_PURPLE,
            PlayerColor::Yellow => PATH_HOUSE_YELLOW,
            PlayerColor::Aqua => PATH_HOUSE_AQUA,
            PlayerColor::Pink => PATH_HOUSE_PINK,
            PlayerColor::Neutral => PATH_HOUSE_NEUTRAL,
        },
        BuildingType::HeadQuarter { .. } => match player_color {
            PlayerColor::Blue => PATH_MAIN_BUILDING_BLUE,
            PlayerColor::Red => PATH_MAIN_BUILDING_RED,
            PlayerColor::Green => PATH_MAIN_BUILDING_GREEN,
            PlayerColor::Orange => PATH_MAIN_BUILDING_ORANGE,
            PlayerColor::Purple => PATH_MAIN_BUILDING_PURPLE,
            PlayerColor::Yellow => PATH_MAIN_BUILDING_YELLOW,
            PlayerColor::Aqua => PATH_MAIN_BUILDING_AQUA,
            PlayerColor::Pink => PATH_MAIN_BUILDING_PINK,
            PlayerColor::Neutral => PATH_MAIN_BUILDING_NEUTRAL,
        },
        BuildingType::Tower => match player_color {
            PlayerColor::Blue => PATH_TOWER_BLUE,
            PlayerColor::Red => PATH_TOWER_RED,
            PlayerColor::Green => PATH_TOWER_GREEN,
            PlayerColor::Orange => PATH_TOWER_ORANGE,
            PlayerColor::Purple => PATH_TOWER_PURPLE,
            PlayerColor::Yellow => PATH_TOWER_YELLOW,
            PlayerColor::Aqua => PATH_TOWER_AQUA,
            PlayerColor::Pink => PATH_TOWER_PINK,
            PlayerColor::Neutral => PATH_TOWER_NEUTRAL,
        },
        _ => vstd::pervasive::unreached(),
    }
}

/// The folder of the sprites of a kind of building, which is also the
/// start of their file names.
pub open spec fn building_sprite_stem(building_type: BuildingType) -> Seq<char> {
    match building_type {
        BuildingType::House => "house"@,
        BuildingType::HeadQuarter { .. } => "main_building"@,
        BuildingType::Tower => "tower"@,
        _ => Seq::empty(),
    }
}

/// The sprite of a building lies in the folder of its kind and is named
/// after its kind and, in lower case, its color:
/// `sprites/buildings/<kind>/<kind>_<color>.png`.
pub proof fn lemma_building_path_names_kind_and_color(building_type: BuildingType, player_color: PlayerColor)
    requires
        has_sprite(building_type),
    ensures
        spec_building_path(building_type, player_color)@ == "sprites/buildings/"@ + building_sprite_stem(building_type) + seq!['/'] + building_sprite_stem(building_type)
            + seq!['_'] + color_file_name(player_color) + ".png"@,
{
    reveal_strlit("sprites/buildings/");
    reveal_strlit(".png");
    lemma_color_file_name(player_color);
    match building_type {
        BuildingType::House => match player_color {
            PlayerColor::Blue => {
                reveal_strlit("sprites/buildings/house/house_blue.png");
                reveal_strlit("house");
                assert(spec_building_path(building_type, player_color)@ =~= "sprites/buildings/"@ + building_sprite_stem(building_type) + seq!['/'] + building_sprite_stem(building_type)
                    + seq!['_'] + color_file_name(player_color) + ".png"@);
            },
            PlayerColor::Red => {
                reveal_strlit("sprites/buildings/house/house_red.png");
                reveal_strlit("house");
                assert(spec_building_path(building_type, player_color)@ =~= "sprites/buildings/"@ + building_sprite_stem(building_type) + seq!['/'] + building_sprite_stem(building_type)
                    + seq!['_'] + color_file_name(player_color) + ".png"@);
            },
            PlayerColor::Green => {
                reveal_strlit("sprites/buildings/house/house_green.png");
                reveal_strlit("house");
                assert(spec_building_path(building_type, player_color)@ =~= "sprites/buildings/"@ + building_sprite_stem(building_type) + seq!['/'] + building_sprite_stem(building_type)
                    + seq!['_'] + color_file_name(player_color) + ".png"@);
            },
            PlayerColor::Orange => {
                reveal_strlit("sprites/buildings/house/house_orange.png");
                reveal_strlit("house");
                assert(spec_building_path(building_type, player_color)@ =~= "sprites/buildings/"@ + building_sprite_stem(building_type) + seq!['/'] + building_sprite_stem(building_type)
                    + seq!['_'] + color_file_name(player_color) + ".png"@);
            },
            PlayerColor::Purple => {
                reveal_strlit("sprites/buildings/house/house_purple.png");
                reveal_strlit("house");
                assert(spec_building_path(building_type, player_color)@ =~= "sprites/buildings/"@ + building_sprite_stem(building_type) + seq!['/'] + building_sprite_stem(building_type)
                    + seq!['_'] + color_file_name(player_color) + ".png"@);
            },
            PlayerColor::Yellow => {
                reveal_strlit("sprites/buildings/house/house_yellow.png");
                reveal_strlit("house");
                assert(spec_building_path(building_type, player_color)@ =~= "sprites/buildings/"@ + building_sprite_stem(building_type) + seq!['/'] + building_sprite_stem(building_type)
                    + seq!['_'] + color_file_name(player_color) + ".png"@);
            },
            PlayerColor::Aqua => {
                reveal_strlit("sprites/buildings/house/house_aqua.png");
                reveal_strlit("house");
                assert(spec_building_path(building_type, player_color)@ =~= "sprites/buildings/"@ + building_sprite_stem(building_type) + seq!['/'] + building_sprite_stem(building_type)
                    + seq!['_'] + color_file_name(player_color) + ".png"@);
            },
            PlayerColor::Pink => {
                reveal_strlit("sprites/buildings/house/house_pink.png");
                reveal_strlit("house");
                assert(spec_building_path(building_type, player_color)@ =~= "sprites/buildings/"@ + building_sprite_stem(building_type) + seq!['/'] + building_sprite_stem(building_type)
                    + seq!['_'] + color_file_name(player_color) + ".png"@);
            },
            PlayerColor::Neutral => {
                reveal_strlit("sprites/buildings/house/house_neutral.png");
                reveal_strlit("house");
                assert(spec_building_path(building_type, player_color)@ =~= "sprites/buildings/"@ + building_sprite_stem(building_type) + seq!['/'] + building_sprite_stem(building_type)
                    + seq!['_'] + color_file_name(player_color) + ".png"@);
            },
        },
        BuildingType::HeadQuarter { .. } => match player_color {
            PlayerColor::Blue => {
                reveal_strlit("sprites/buildings/main_building/main_building_blue.png");
                reveal_strlit("main_building");
                assert(spec_building_path(building_type, player_color)@ =~= "sprites/buildings/"@ + building_sprite_stem(building_type) + seq!['/'] + building_sprite_stem(building_type)
                    + seq!['_'] + color_file_name(player_color) + ".png"@);
            },
            PlayerColor::Red => {
                reveal_strlit("sprites/buildings/main_building/main_building_red.png");
                reveal_strlit("main_building");
                assert(spec_building_path(building_type, player_color)@ =~= "sprites/buildings/"@ + building_sprite_stem(building_type) + seq!['/'] + building_sprite_stem(building_type)
                    + seq!['_'] + color_file_name(player_color) + ".png"@);
            },
            PlayerColor::Green => {
                reveal_strlit("sprites/buildings/main_building/main_building_green.png");
                reveal_strlit("main_building");
                assert(spec_building_path(building_type, player_color)@ =~= "sprites/buildings/"@ + building_sprite_stem(building_type) + seq!['/'] + building_sprite_stem(building_type)
                    + seq!['_'] + color_file_name(player_color) + ".png"@);
            },
            PlayerColor::Orange => {
                reveal_strlit("sprites/buildings/main_building/main_building_orange.png");
                reveal_strlit("main_building");
                assert(spec_building_path(building_type, player_color)@ =~= "sprites/buildings/"@ + building_sprite_stem(building_type) + seq!['/'] + building_sprite_stem(building_type)
                    + seq!['_'] + color_file_name(player_color) + ".png"@);
            },
            PlayerColor::Purple => {
                reveal_strlit("sprites/buildings/main_building/main_building_purple.png");
                reveal_strlit("main_building");
                assert(spec_building_path(building_type, player_color)@ =~= "sprites/buildings/"@ + building_sprite_stem(building_type) + seq!['/'] + building_sprite_stem(building_type)
                    + seq!['_'] + color_file_name(player_color) + ".png"@);
            },
            PlayerColor::Yellow => {
                reveal_strlit("sprites/buildings/main_building/main_building_yellow.png");
                reveal_strlit("main_building");
                assert(spec_building_path(building_type, player_color)@ =~= "sprites/buildings/"@ + building_sprite_stem(building_type) + seq!['/'] + building_sprite_stem(building_type)
                    + seq!['_'] + color_file_name(player_color) + ".png"@);
            },
            PlayerColor::Aqua => {
                reveal_strlit("sprites/buildings/main_building/main_building_aqua.png");
                reveal_strlit("main_building");
                assert(spec_building_path(building_type, player_color)@ =~= "sprites/buildings/"@ + building_sprite_stem(building_type) + seq!['/'] + building_sprite_stem(building_type)
                    + seq!['_'] + color_file_name(player_color) + ".png"@);
            },
            PlayerColor::Pink => {
                reveal_strlit("sprites/buildings/main_building/main_building_pink.png");
                reveal_strlit("main_building");
                assert(spec_building_path(building_type, player_color)@ =~= "sprites/buildings/"@ + building_sprite_stem(building_type) + seq!['/'] + building_sprite_stem(building_type)
                    + seq!['_'] + color_file_name(player_color) + ".png"@);
            },
            PlayerColor::Neutral => {
                reveal_strlit("sprites/buildings/main_building/main_building_neutral.png");
                reveal_strlit("main_building");
                assert(spec_building_path(building_type, player_color)@ =~= "sprites/buildings/"@ + building_sprite_stem(building_type) + seq!['/'] + building_sprite_stem(building_type)
                    + seq!['_'] + color_file_name(player_color) + ".png"@);
            },
        },
        BuildingType::Tower => match player_color {
            PlayerColor::Blue => {
                reveal_strlit("sprites/buildings/tower/tower_blue.png");
                reveal_strlit("tower");
                assert(spec_building_path(building_type, player_color)@ =~= "sprites/buildings/"@ + building_sprite_stem(building_type) + seq!['/'] + building_sprite_stem(building_type)
                    + seq!['_'] + color_file_name(player_color) + ".png"@);
            },
            PlayerColor::Red => {
                reveal_strlit("sprites/buildings/tower/tower_red.png");
                reveal_strlit("tower");
                assert(spec_building_path(building_type, player_color)@ =~= "sprites/buildings/"@ + building_sprite_stem(building_type) + seq!['/'] + building_sprite_stem(building_type)
                    + seq!['_'] + color_file_name(player_color) + ".png"@);
            },
            PlayerColor::Green => {
                reveal_strlit("sprites/buildings/tower/tower_green.png");
                reveal_strlit("tower");
                assert(spec_building_path(building_type, player_color)@ =~= "sprites/buildings/"@ + building_sprite_stem(building_type) + seq!['/'] + building_sprite_stem(building_type)
                    + seq!['_'] + color_file_name(player_color) + ".png"@);
            },
            PlayerColor::Orange => {
                reveal_strlit("sprites/buildings/tower/tower_orange.png");
                reveal_strlit("tower");
                assert(spec_building_path(building_type, player_color)@ =~= "sprites/buildings/"@ + building_sprite_stem(building_type) + seq!['/'] + building_sprite_stem(building_type)
                    + seq!['_'] + color_file_name(player_color) + ".png"@);
            },
            PlayerColor::Purple => {
                reveal_strlit("sprites/buildings/tower/tower_purple.png");
                reveal_strlit("tower");
                assert(spec_building_path(building_type, player_color)@ =~= "sprites/buildings/"@ + building_sprite_stem(building_type) + seq!['/'] + building_sprite_stem(building_type)
                    + seq!['_'] + color_file_name(player_color) + ".png"@);
            },
            PlayerColor::Yellow => {
                reveal_strlit("sprites/buildings/tower/tower_yellow.png");
                reveal_strlit("tower");
                assert(spec_building_path(building_type, player_color)@ =~= "sprites/buildings/"@ + building_sprite_stem(building_type) + seq!['/'] + building_sprite_stem(building_type)
                    + seq!['_'] + color_file_name(player_color) + ".png"@);
            },
            PlayerColor::Aqua => {
                reveal_strlit("sprites/buildings/tower/tower_aqua.png");
                reveal_strlit("tower");
                assert(spec_building_path(building_type, player_color)@ =~= "sprites/buildings/"@ + building_sprite_stem(building_type) + seq!['/'] + building_sprite_stem(building_type)
                    + seq!['_'] + color_file_name(player_color) + ".png"@);
            },
            PlayerColor::Pink => {
                reveal_strlit("sprites/buildings/tower/tower_pink.png");
                reveal_strlit("tower");
                assert(spec_building_path(building_type, player_color)@ =~= "sprites/buildings/"@ + building_sprite_stem(building_type) + seq!['/'] + building_sprite_stem(building_type)
                    + seq!['_'] + color_file_name(player_color) + ".png"@);
            },
            PlayerColor::Neutral => {
                reveal_strlit("sprites/buildings/tower/tower_neutral.png");
                reveal_strlit("tower");
                assert(spec_building_path(building_type, player_color)@ =~= "sprites/buildings/"@ + building_sprite_stem(building_type) + seq!['/'] + building_sprite_stem(building_type)
                    + seq!['_'] + color_file_name(player_color) + ".png"@);
            },
        },
        _ => {},
    }
}

/// Buildings of different colors have different sprites.
pub proof fn lemma_building_path_differs_by_color(building_type: BuildingType, first: PlayerColor, second: PlayerColor)
    requires
        has_sprite(building_type),
        first != second,
    ensures
        spec_building_path(building_type, first)@ != spec_building_path(building_type, second)@,
{
    lemma_building_path_names_kind_and_color(building_type, first);
    lemma_building_path_names_kind_and_color(building_type, second);
    lemma_color_file_names_distinct(first, second);
    let prefix = "sprites/buildings/"@ + building_sprite_stem(building_type) + seq!['/'] + building_sprite_stem(building_type) + seq!['_'];
    let a = color_file_name(first) + ".png"@;
    let b = color_file_name(second) + ".png"@;
    assert(spec_building_path(building_type, first)@ =~= prefix + a);
    assert(spec_building_path(building_type, second)@ =~= prefix + b);
    if spec_building_path(building_type, first)@ == spec_building_path(building_type, second)@ {
        assert((prefix + a).skip(prefix.len() as int) =~= a);
        assert((prefix + b).skip(prefix.len() as int) =~= b);
        assert(a == b);
        reveal_strlit(".png");
        assert(color_file_name(first) =~= a.take(a.len() - 4));
        assert(color_file_name(second) =~= b.take(b.len() - 4));
    }
}

} // verus!
