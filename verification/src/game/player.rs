//! Players: their colors and teams.
use vstd::prelude::*;

verus! {

/// The number of colors a player can take.
pub const NB_PLAYER_COLORS: usize = 8;

/// The color of a player; buildings without owner are drawn neutral.
#[derive(Clone, Copy, Debug, Default, PartialEq, Eq, Hash, Structural)]
pub enum PlayerColor {
    Blue,
    Red,
    Green,
    Orange,
    Purple,
    Yellow,
    Aqua,
    Pink,
    #[default]
    Neutral,
}

/// The position of a player color in the cycle of colors (the neutral color
/// is not part of it).
pub open spec fn color_index(color: PlayerColor) -> int {
    match color {
        PlayerColor::Blue => 0,
        PlayerColor::Red => 1,
        PlayerColor::Green => 2,
        PlayerColor::Orange => 3,
        PlayerColor::Purple => 4,
        PlayerColor::Yellow => 5,
        PlayerColor::Aqua => 6,
        PlayerColor::Pink => 7,
        PlayerColor::Neutral => -1,
    }
}

/// The player color at a position of the cycle.
pub open spec fn color_at(index: int) -> PlayerColor {
    if index == 0 {
        PlayerColor::Blue
    } else if index == 1 {
        PlayerColor::Red
    } else if index == 2 {
        PlayerColor::Green
    } else if index == 3 {
        PlayerColor::Orange
    } else if index == 4 {
        PlayerColor::Purple
    } else if index == 5 {
        PlayerColor::Yellow
    } else if index == 6 {
        PlayerColor::Aqua
    } else {
        PlayerColor::Pink
    }
}

/// The name of a player color as the menus show it.
pub open spec fn spec_color_name(color: PlayerColor) -> Seq<char> {
    match color {
        PlayerColor::Blue => "Blue"@,
        PlayerColor::Red => "Red"@,
        PlayerColor::Green => "Green"@,
        PlayerColor::Orange => "Orange"@,
        PlayerColor::Purple => "Purple"@,
        PlayerColor::Yellow => "Yellow"@,
        PlayerColor::Aqua => "Aqua"@,
        PlayerColor::Pink => "Pink"@,
        PlayerColor::Neutral => "Neutral"@,
    }
}

/// A character in lower case (ASCII letters only change).
pub open spec fn lower_char(ch: char) -> char {
    if 'A' <= ch && ch <= 'Z' {
        ((ch as int) + 32) as char
    } else {
        ch
    }
}

/// A text in lower case.
pub open spec fn lowercase(text: Seq<char>) -> Seq<char> {
    text.map_values(|ch: char| lower_char(ch))
}

/// How file names spell a color: its name in lower case.
pub open spec fn color_file_name(color: PlayerColor) -> Seq<char> {
    lowercase(spec_color_name(color))
}

/// The lower-case names of the colors, letter by letter.
pub proof fn lemma_color_file_name(color: PlayerColor)
    ensures
        color_file_name(color) == match color {
        PlayerColor::Blue => seq!['b', 'l', 'u', 'e'],
        PlayerColor::Red => seq!['r', 'e', 'd'],
        PlayerColor::Green => seq!['g', 'r', 'e', 'e', 'n'],
        PlayerColor::Orange => seq!['o', 'r', 'a', 'n', 'g', 'e'],
        PlayerColor::Purple => seq!['p', 'u', 'r', 'p', 'l', 'e'],
        PlayerColor::Yellow => seq!['y', 'e', 'l', 'l', 'o', 'w'],
        PlayerColor::Aqua => seq!['a', 'q', 'u', 'a'],
        PlayerColor::Pink => seq!['p', 'i', 'n', 'k'],
        PlayerColor::Neutral => seq!['n', 'e', 'u', 't', 'r', 'a', 'l'],
        },
{
    match color {
        PlayerColor::Blue => {
            reveal_strlit("Blue");
        },
        PlayerColor::Red => {
            reveal_strlit("Red");
        },
        PlayerColor::Green => {
            reveal_strlit("Green");
        },
        PlayerColor::Orange => {
            reveal_strlit("Orange");
        },
        PlayerColor::Purple => {
            reveal_strlit("Purple");
        },
        PlayerColor::Yellow => {
            reveal_strlit("Yellow");
        },
        PlayerColor::Aqua => {
            reveal_strlit("Aqua");
        },
        PlayerColor::Pink => {
            reveal_strlit("Pink");
        },
        PlayerColor::Neutral => {
            reveal_strlit("Neutral");
        },
    }
    assert(color_file_name(color) =~= match color {
        PlayerColor::Blue => seq!['b', 'l', 'u', 'e'],
        PlayerColor::Red => seq!['r', 'e', 'd'],
        PlayerColor::Green => seq!['g', 'r', 'e', 'e', 'n'],
        PlayerColor::Orange => seq!['o', 'r', 'a', 'n', 'g', 'e'],
        PlayerColor::Purple => seq!['p', 'u', 'r', 'p', 'l', 'e'],
        PlayerColor::Yellow => seq!['y', 'e', 'l', 'l', 'o', 'w'],
        PlayerColor::Aqua => seq!['a', 'q', 'u', 'a'],
        PlayerColor::Pink => seq!['p', 'i', 'n', 'k'],
        PlayerColor::Neutral => seq!['n', 'e', 'u', 't', 'r', 'a', 'l'],
    });
}

/// Different colors are spelled differently in file names.
pub proof fn lemma_color_file_names_distinct(first: PlayerColor, second: PlayerColor)
    requires
        first != second,
    ensures
        color_file_name(first) != color_file_name(second),
{
    lemma_color_file_name(first);
    lemma_color_file_name(second);
    let a = color_file_name(first);
    let b = color_file_name(second);
    assert(a.len() != b.len() || a[0] != b[0]);
}

/// The next color in the cycle, as a spec function.
pub open spec fn spec_next(color: PlayerColor) -> PlayerColor {
    if color == PlayerColor::Neutral {
        PlayerColor::Blue
    } else {
        color_at((color_index(color) + 1) % 8)
    }
}

/// The previous color in the cycle, as a spec function.
pub open spec fn spec_previous(color: PlayerColor) -> PlayerColor {
    if color == PlayerColor::Neutral {
        PlayerColor::Blue
    } else {
        color_at((color_index(color) + 7) % 8)
    }
}

impl PlayerColor {
    pub fn color_name(&self) -> (name: &'static str)
        ensures
            name@ == spec_color_name(*self),
    {
        match self {
            PlayerColor::Blue => "Blue",
            PlayerColor::Red => "Red",
            PlayerColor::Green => "Green",
            PlayerColor::Orange => "Orange",
            PlayerColor::Purple => "Purple",
            PlayerColor::Yellow => "Yellow",
            PlayerColor::Aqua => "Aqua",
            PlayerColor::Pink => "Pink",
            PlayerColor::Neutral => "Neutral",
        }
    }

    /// The next color of the cycle; the neutral color goes to the first one.
    pub fn next_color(&self) -> (next: PlayerColor)
        ensures
            next == spec_next(*self),
    {
        match self {
            PlayerColor::Blue => PlayerColor::Red,
            PlayerColor::Red => PlayerColor::Green,
            PlayerColor::Green => PlayerColor::Orange,
            PlayerColor::Orange => PlayerColor::Purple,
            PlayerColor::Purple => PlayerColor::Yellow,
            PlayerColor::Yellow => PlayerColor::Aqua,
            PlayerColor::Aqua => PlayerColor::Pink,
            PlayerColor::Pink => PlayerColor::Blue,
            PlayerColor::Neutral => PlayerColor::Blue,
        }
    }

    /// The previous color of the cycle; the neutral color goes to the first
    /// one.
    pub fn previous_color(&self) -> (previous: PlayerColor)
        ensures
            previous == spec_previous(*self),
    {
        match self {
            PlayerColor::Blue => PlayerColor::Pink,
            PlayerColor::Red => PlayerColor::Blue,
            PlayerColor::Green => PlayerColor::Red,
            PlayerColor::Orange => PlayerColor::Green,
            PlayerColor::Purple => PlayerColor::Orange,
            PlayerColor::Yellow => PlayerColor::Purple,
            PlayerColor::Aqua => PlayerColor::Yellow,
            PlayerColor::Pink => PlayerColor::Aqua,
            PlayerColor::Neutral => PlayerColor::Blue,
        }
    }
}

/// Stepping back undoes stepping forward, and the other way round, for every
/// player color (the neutral color is left at once and never reached).
pub proof fn lemma_next_previous_inverse(color: PlayerColor)
    requires
        color != PlayerColor::Neutral,
    ensures
        spec_previous(spec_next(color)) == color,
        spec_next(spec_previous(color)) == color,
        spec_next(color) != PlayerColor::Neutral,
        spec_previous(color) != PlayerColor::Neutral,
{
}

/// Going forward moves one place along the cycle of the eight player
/// colors, so eight steps come back to the color they started from.
pub proof fn lemma_next_cycles_through_all_colors(color: PlayerColor)
    requires
        color != PlayerColor::Neutral,
    ensures
        spec_next(spec_next(spec_next(spec_next(spec_next(spec_next(spec_next(spec_next(color)))))))) == color,
        color_index(spec_next(color)) == (color_index(color) + 1) % 8,
{
    match color {
        PlayerColor::Blue => {},
        PlayerColor::Red => {},
        PlayerColor::Green => {},
        PlayerColor::Orange => {},
        PlayerColor::Purple => {},
        PlayerColor::Yellow => {},
        PlayerColor::Aqua => {},
        PlayerColor::Pink => {},
        PlayerColor::Neutral => {},
    }
}

/// A team, by number.
#[derive(Clone, Copy, Debug, Default, PartialEq, Eq, Structural)]
pub struct Team(pub u32);

impl Team {
    pub fn new(id: u32) -> (team: Team)
        ensures
            team.0 == id,
    {
        Team(id)
    }

    pub fn id(&self) -> (id: u32)
        ensures
            id == self.0,
    {
        self.0
    }
}

} // verus!
