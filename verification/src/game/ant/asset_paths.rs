//! Where the sprite of each ant is found, by kind and player color.
use vstd::prelude::*;

use crate::game::ant::ant_type::AntType;
use crate::game::player::{color_file_name, lemma_color_file_name, lemma_color_file_names_distinct, PlayerColor};

verus! {

pub const PATH_UNIT_BLUE: &'static str = "sprites/ants/unit/unit_blue.png";
pub const PATH_UNIT_RED: &'static str = "sprites/ants/unit/unit_red.png";
pub const PATH_UNIT_GREEN: &'static str = "sprites/ants/unit/unit_green.png";
pub const PATH_UNIT_ORANGE: &'static str = "sprites/ants/unit/unit_orange.png";
pub const PATH_UNIT_PURPLE: &'static str = "sprites/ants/unit/unit_purple.png";
pub const PATH_UNIT_YELLOW: &'static str = "sprites/ants/unit/unit_yellow.png";
pub const PATH_UNIT_AQUA: &'static str = "sprites/ants/unit/unit_aqua.png";
pub const PATH_UNIT_PINK: &'static str = "sprites/ants/unit/unit_pink.png";

pub const PATH_WORKER_BLUE: &'static str = "sprites/ants/worker/worker_blue.png";
pub const PATH_WORKER_RED: &'static str = "sprites/ants/worker/worker_red.png";
pub const PATH_WORKER_GREEN: &'static str = "sprites/ants/worker/worker_green.png";
pub const PATH_WORKER_ORANGE: &'static str = "sprites/ants/worker/worker_orange.png";
pub const PATH_WORKER_PURPLE: &'static str = "sprites/ants/worker/worker_purple.png";
pub const PATH_WORKER_YELLOW: &'static str = "sprites/ants/worker/worker_yellow.png";
pub const PATH_WORKER_AQUA: &'static str = "sprites/ants/worker/worker_aqua.png";
pub const PATH_WORKER_PINK: &'static str = "sprites/ants/worker/worker_pink.png";

pub const PATH_SOLDIER_BLUE: &'static str = "sprites/ants/soldier/soldier_blue.png";
pub const PATH_SOLDIER_RED: &'static str = "sprites/ants/soldier/soldier_red.png";
pub const PATH_SOLDIER_GREEN: &'static str = "sprites/ants/soldier/soldier_green.png";
pub const PATH_SOLDIER_ORANGE: &'static str = "sprites/ants/soldier/soldier_orange.png";
pub const PATH_SOLDIER_PURPLE: &'static str = "sprites/ants/soldier/soldier_purple.png";
pub const PATH_SOLDIER_YELLOW: &'static str = "sprites/ants/soldier/soldier_yellow.png";
pub const PATH_SOLDIER_AQUA: &'static str = "sprites/ants/soldier/soldier_aqua.png";
pub const PATH_SOLDIER_PINK: &'static str = "sprites/ants/soldier/soldier_pink.png";

/// The sprite of an ant of a kind and color (there is none for the neutral color).
pub open spec fn spec_ant_path(ant_type: AntType, player_color: PlayerColor) -> &'static str {
    match ant_type {
        AntType::Unit => match player_color {
            PlayerColor::Blue => PATH_UNIT_BLUE,
            PlayerColor::Red => PATH_UNIT_RED,
            PlayerColor::Green => PATH_UNIT_GREEN,
            PlayerColor::Orange => PATH_UNIT_ORANGE,
            PlayerColor::Purple => PATH_UNIT_PURPLE,
            PlayerColor::Yellow => PATH_UNIT_YELLOW,
            PlayerColor::Aqua => PATH_UNIT_AQUA,
            PlayerColor::Pink => PATH_UNIT_PINK,
            PlayerColor::Neutral => PATH_UNIT_BLUE,
        },
        AntType::Worker => match player_color {
            PlayerColor::Blue => PATH_WORKER_BLUE,
            PlayerColor::Red => PATH_WORKER_RED,
            PlayerColor::Green => PATH_WORKER_GREEN,
            PlayerColor::Orange => PATH_WORKER_ORANGE,
            PlayerColor::Purple => PATH_WORKER_PURPLE,
            PlayerColor::Yellow => PATH_WORKER_YELLOW,
            PlayerColor::Aqua => PATH_WORKER_AQUA,
            PlayerColor::Pink => PATH_WORKER_PINK,
            PlayerColor::Neutral => PATH_WORKER_BLUE,
        },
        AntType::Soldier => match player_color {
            PlayerColor::Blue => PATH_SOLDIER_BLUE,
            PlayerColor::Red => PATH_SOLDIER_RED,
            PlayerColor::Green => PATH_SOLDIER_GREEN,
            PlayerColor::Orange => PATH_SOLDIER_ORANGE,
            PlayerColor::Purple => PATH_SOLDIER_PURPLE,
            PlayerColor::Yellow => PATH_SOLDIER_YELLOW,
            PlayerColor::Aqua => PATH_SOLDIER_AQUA,
            PlayerColor::Pink => PATH_SOLDIER_PINK,
            PlayerColor::Neutral => PATH_SOLDIER_BLUE,
        },
    }
}

/// The sprite of an ant; ants always belong to a player, so the neutral color has none.
pub fn get_path(ant_type: AntType, player_color: PlayerColor) -> (path: &'static str)
    requires
        player_color != PlayerColor::Neutral,
    ensures
        path == spec_ant_path(ant_type, player_color),
{
    match ant_type {
        AntType::Unit => match player_color {
            PlayerColor::Blue => PATH_UNIT_BLUE,
            PlayerColor::Red => PATH_UNIT_RED,
            PlayerColor::Green => PATH_UNIT_GREEN,
            PlayerColor::Orange => PATH_UNIT_ORANGE,
            PlayerColor::Purple => PATH_UNIT_PURPLE,
            PlayerColor::Yellow => PATH_UNIT_YELLOW,
            PlayerColor::Aqua => PATH_UNIT_AQUA,
            PlayerColor::Pink => PATH_UNIT_PINK,
            PlayerColor::Neutral => vstd::pervasive::unreached(),
        },
        AntType::Worker => match player_color {
            PlayerColor::Blue => PATH_WORKER_BLUE,
            PlayerColor::Red => PATH_WORKER_RED,
            PlayerColor::Green => PATH_WORKER_GREEN,
            PlayerColor::Orange => PATH_WORKER_ORANGE,
            PlayerColor::Purple => PATH_WORKER_PURPLE,
            PlayerColor::Yellow => PATH_WORKER_YELLOW,
            PlayerColor::Aqua => PATH_WORKER_AQUA,
            PlayerColor::Pink => PATH_WORKER_PINK,
            PlayerColor::Neutral => vstd::pervasive::unreached(),
        },
        AntType::Soldier => match player_color {
            PlayerColor::Blue => PATH_SOLDIER_BLUE,
            PlayerColor::Red => PATH_SOLDIER_RED,
            PlayerColor::Green => PATH_SOLDIER_GREEN,
            PlayerColor::Orange => PATH_SOLDIER_ORANGE,
            PlayerColor::Purple => PATH_SOLDIER_PURPLE,
            PlayerColor::Yellow => PATH_SOLDIER_YELLOW,
            PlayerColor::Aqua => PATH_SOLDIER_AQUA,
            PlayerColor::Pink => PATH_SOLDIER_PINK,
            PlayerColor::Neutral => vstd::pervasive::unreached(),
        },
    }
}

/// The folder of the sprites of a kind of ant, which is also the
/// start of their file names.
pub open spec fn ant_sprite_stem(ant_type: AntType) -> Seq<char> {
    match ant_type {
        AntType::Unit => "unit"@,
        AntType::Worker => "worker"@,
        AntType::Soldier => "soldier"@,
    }
}

/// The sprite of an ant lies in the folder of its kind and is named
/// after its kind and, in lower case, its color:
/// `sprites/ants/<kind>/<kind>_<color>.png`.
pub proof fn lemma_ant_path_names_kind_and_color(ant_type: AntType, player_color: PlayerColor)
    requires
        player_color != PlayerColor::Neutral,
    ensures
        spec_ant_path(ant_type, player_color)@ == "sprites/ants/"@ + ant_sprite_stem(ant_type) + seq!['/'] + ant_sprite_stem(ant_type)
            + seq!['_'] + color_file_name(player_color) + ".png"@,
{
    reveal_strlit("sprites/ants/");
    reveal_strlit(".png");
    lemma_color_file_name(player_color);
    match ant_type {
        AntType::Unit => match player_color {
            PlayerColor::Blue => {
                reveal_strlit("sprites/ants/unit/unit_blue.png");
                reveal_strlit("unit");
                assert(spec_ant_path(ant_type, player_color)@ =~= "sprites/ants/"@ + ant_sprite_stem(ant_type) + seq!['/'] + ant_sprite_stem(ant_type)
                    + seq!['_'] + color_file_name(player_color) + ".png"@);
            },
            PlayerColor::Red => {
                reveal_strlit("sprites/ants/unit/unit_red.png");
                reveal_strlit("unit");
                assert(spec_ant_path(ant_type, player_color)@ =~= "sprites/ants/"@ + ant_sprite_stem(ant_type) + seq!['/'] + ant_sprite_stem(ant_type)
                    + seq!['_'] + color_file_name(player_color) + ".png"@);
            },
            PlayerColor::Green => {
                reveal_strlit("sprites/ants/unit/unit_green.png");
                reveal_strlit("unit");
                assert(spec_ant_path(ant_type, player_color)@ =~= "sprites/ants/"@ + ant_sprite_stem(ant_type) + seq!['/'] + ant_sprite_stem(ant_type)
                    + seq!['_'] + color_file_name(player_color) + ".png"@);
            },
            PlayerColor::Orange => {
                reveal_strlit("sprites/ants/unit/unit_orange.png");
                reveal_strlit("unit");
                assert(spec_ant_path(ant_type, player_color)@ =~= "sprites/ants/"@ + ant_sprite_stem(ant_type) + seq!['/'] + ant_sprite_stem(ant_type)
                    + seq!['_'] + color_file_name(player_color) + ".png"@);
            },
            PlayerColor::Purple => {
                reveal_strlit("sprites/ants/unit/unit_purple.png");
                reveal_strlit("unit");
                assert(spec_ant_path(ant_type, player_color)@ =~= "sprites/ants/"@ + ant_sprite_stem(ant_type) + seq!['/'] + ant_sprite_stem(ant_type)
                    + seq!['_'] + color_file_name(player_color) + ".png"@);
            },
            PlayerColor::Yellow => {
                reveal_strlit("sprites/ants/unit/unit_yellow.png");
                reveal_strlit("unit");
                assert(spec_ant_path(ant_type, player_color)@ =~= "sprites/ants/"@ + ant_sprite_stem(ant_type) + seq!['/'] + ant_sprite_stem(ant_type)
                    + seq!['_'] + color_file_name(player_color) + ".png"@);
            },
            PlayerColor::Aqua => {
                reveal_strlit("sprites/ants/unit/unit_aqua.png");
                reveal_strlit("unit");
                assert(spec_ant_path(ant_type, player_color)@ =~= "sprites/ants/"@ + ant_sprite_stem(ant_type) + seq!['/'] + ant_sprite_stem(ant_type)
                    + seq!['_'] + color_file_name(player_color) + ".png"@);
            },
            PlayerColor::Pink => {
                reveal_strlit("sprites/ants/unit/unit_pink.png");
                reveal_strlit("unit");
                assert(spec_ant_path(ant_type, player_color)@ =~= "sprites/ants/"@ + ant_sprite_stem(ant_type) + seq!['/'] + ant_sprite_stem(ant_type)
                    + seq!['_'] + color_file_name(player_color) + ".png"@);
            },
            PlayerColor::Neutral => {},
        },
        AntType::Worker => match player_color {
            PlayerColor::Blue => {
                reveal_strlit("sprites/ants/worker/worker_blue.png");
                reveal_strlit("worker");
                assert(spec_ant_path(ant_type, player_color)@ =~= "sprites/ants/"@ + ant_sprite_stem(ant_type) + seq!['/'] + ant_sprite_stem(ant_type)
                    + seq!['_'] + color_file_name(player_color) + ".png"@);
            },
            PlayerColor::Red => {
                reveal_strlit("sprites/ants/worker/worker_red.png");
                reveal_strlit("worker");
                assert(spec_ant_path(ant_type, player_color)@ =~= "sprites/ants/"@ + ant_sprite_stem(ant_type) + seq!['/'] + ant_sprite_stem(ant_type)
                    + seq!['_'] + color_file_name(player_color) + ".png"@);
            },
            PlayerColor::Green => {
                reveal_strlit("sprites/ants/worker/worker_green.png");
                reveal_strlit("worker");
                assert(spec_ant_path(ant_type, player_color)@ =~= "sprites/ants/"@ + ant_sprite_stem(ant_type) + seq!['/'] + ant_sprite_stem(ant_type)
                    + seq!['_'] + color_file_name(player_color) + ".png"@);
            },
            PlayerColor::Orange => {
                reveal_strlit("sprites/ants/worker/worker_orange.png");
                reveal_strlit("worker");
                assert(spec_ant_path(ant_type, player_color)@ =~= "sprites/ants/"@ + ant_sprite_stem(ant_type) + seq!['/'] + ant_sprite_stem(ant_type)
                    + seq!['_'] + color_file_name(player_color) + ".png"@);
            },
            PlayerColor::Purple => {
                reveal_strlit("sprites/ants/worker/worker_purple.png");
                reveal_strlit("worker");
                assert(spec_ant_path(ant_type, player_color)@ =~= "sprites/ants/"@ + ant_sprite_stem(ant_type) + seq!['/'] + ant_sprite_stem(ant_type)
                    + seq!['_'] + color_file_name(player_color) + ".png"@);
            },
            PlayerColor::Yellow => {
                reveal_strlit("sprites/ants/worker/worker_yellow.png");
                reveal_strlit("worker");
                assert(spec_ant_path(ant_type, player_color)@ =~= "sprites/ants/"@ + ant_sprite_stem(ant_type) + seq!['/'] + ant_sprite_stem(ant_type)
                    + seq!['_'] + color_file_name(player_color) + ".png"@);
            },
            PlayerColor::Aqua => {
                reveal_strlit("sprites/ants/worker/worker_aqua.png");
                reveal_strlit("worker");
                assert(spec_ant_path(ant_type, player_color)@ =~= "sprites/ants/"@ + ant_sprite_stem(ant_type) + seq!['/'] + ant_sprite_stem(ant_type)
                    + seq!['_'] + color_file_name(player_color) + ".png"@);
            },
            PlayerColor::Pink => {
                reveal_strlit("sprites/ants/worker/worker_pink.png");
                reveal_strlit("worker");
                assert(spec_ant_path(ant_type, player_color)@ =~= "sprites/ants/"@ + ant_sprite_stem(ant_type) + seq!['/'] + ant_sprite_stem(ant_type)
                    + seq!['_'] + color_file_name(player_color) + ".png"@);
            },
            PlayerColor::Neutral => {},
        },
        AntType::Soldier => match player_color {
            PlayerColor::Blue => {
                reveal_strlit("sprites/ants/soldier/soldier_blue.png");
                reveal_strlit("soldier");
                assert(spec_ant_path(ant_type, player_color)@ =~= "sprites/ants/"@ + ant_sprite_stem(ant_type) + seq!['/'] + ant_sprite_stem(ant_type)
                    + seq!['_'] + color_file_name(player_color) + ".png"@);
            },
            PlayerColor::Red => {
                reveal_strlit("sprites/ants/soldier/soldier_red.png");
                reveal_strlit("soldier");
                assert(spec_ant_path(ant_type, player_color)@ =~= "sprites/ants/"@ + ant_sprite_stem(ant_type) + seq!['/'] + ant_sprite_stem(ant_type)
                    + seq!['_'] + color_file_name(player_color) + ".png"@);
            },
            PlayerColor::Green => {
                reveal_strlit("sprites/ants/soldier/soldier_green.png");
                reveal_strlit("soldier");
                assert(spec_ant_path(ant_type, player_color)@ =~= "sprites/ants/"@ + ant_sprite_stem(ant_type) + seq!['/'] + ant_sprite_stem(ant_type)
                    + seq!['_'] + color_file_name(player_color) + ".png"@);
            },
            PlayerColor::Orange => {
                reveal_strlit("sprites/ants/soldier/soldier_orange.png");
                reveal_strlit("soldier");
                assert(spec_ant_path(ant_type, player_color)@ =~= "sprites/ants/"@ + ant_sprite_stem(ant_type) + seq!['/'] + ant_sprite_stem(ant_type)
                    + seq!['_'] + color_file_name(player_color) + ".png"@);
            },
            PlayerColor::Purple => {
                reveal_strlit("sprites/ants/soldier/soldier_purple.png");
                reveal_strlit("soldier");
                assert(spec_ant_path(ant_type, player_color)@ =~= "sprites/ants/"@ + ant_sprite_stem(ant_type) + seq!['/'] + ant_sprite_stem(ant_type)
                    + seq!['_'] + color_file_name(player_color) + ".png"@);
            },
            PlayerColor::Yellow => {
                reveal_strlit("sprites/ants/soldier/soldier_yellow.png");
                reveal_strlit("soldier");
                assert(spec_ant_path(ant_type, player_color)@ =~= "sprites/ants/"@ + ant_sprite_stem(ant_type) + seq!['/'] + ant_sprite_stem(ant_type)
                    + seq!['_'] + color_file_name(player_color) + ".png"@);
            },
            PlayerColor::Aqua => {
                reveal_strlit("sprites/ants/soldier/soldier_aqua.png");
                reveal_strlit("soldier");
                assert(spec_ant_path(ant_type, player_color)@ =~= "sprites/ants/"@ + ant_sprite_stem(ant_type) + seq!['/'] + ant_sprite_stem(ant_type)
                    + seq!['_'] + color_file_name(player_color) + ".png"@);
            },
            PlayerColor::Pink => {
                reveal_strlit("sprites/ants/soldier/soldier_pink.png");
                reveal_strlit("soldier");
                assert(spec_ant_path(ant_type, player_color)@ =~= "sprites/ants/"@ + ant_sprite_stem(ant_type) + seq!['/'] + ant_sprite_stem(ant_type)
                    + seq!['_'] + color_file_name(player_color) + ".png"@);
            },
            PlayerColor::Neutral => {},
        },
    }
}

/// Ants of different colors have different sprites.
pub proof fn lemma_ant_path_differs_by_color(ant_type: AntType, first: PlayerColor, second: PlayerColor)
    requires
        first != PlayerColor::Neutral,
        second != PlayerColor::Neutral,
        first != second,
    ensures
        spec_ant_path(ant_type, first)@ != spec_ant_path(ant_type, second)@,
{
    lemma_ant_path_names_kind_and_color(ant_type, first);
    lemma_ant_path_names_kind_and_color(ant_type, second);
    lemma_color_file_names_distinct(first, second);
    let prefix = "sprites/ants/"@ + ant_sprite_stem(ant_type) + seq!['/'] + ant_sprite_stem(ant_type) + seq!['_'];
    let a = color_file_name(first) + ".png"@;
    let b = color_file_name(second) + ".png"@;
    assert(spec_ant_path(ant_type, first)@ =~= prefix + a);
    assert(spec_ant_path(ant_type, second)@ =~= prefix + b);
    if spec_ant_path(ant_type, first)@ == spec_ant_path(ant_type, second)@ {
        assert((prefix + a).skip(prefix.len() as int) =~= a);
        assert((prefix + b).skip(prefix.len() as int) =~= b);
        assert(a == b);
        reveal_strlit(".png");
        assert(color_file_name(first) =~= a.take(a.len() - 4));
        assert(color_file_name(second) =~= b.take(b.len() - 4));
    }
}

} // verus!
