//! Computer players: how hard they play and how they see the buildings.
use vstd::prelude::*;

pub mod bot_view;

verus! {

#[derive(Clone, Copy, Debug, PartialEq, Eq, Structural)]
pub enum BotDifficulty {
    Eazy,
    Normal,
    Hard,
}

/// The name of a difficulty as the menus show it.
pub open spec fn spec_difficulty_name(difficulty: BotDifficulty) -> Seq<char> {
    match difficulty {
        BotDifficulty::Eazy => "Eazy"@,
        BotDifficulty::Normal => "Normal"@,
        BotDifficulty::Hard => "Hard"@,
    }
}

impl BotDifficulty {
    /// The name of the difficulty, as its `to_string` gives it.
    pub fn to_string(&self) -> (name: String)
        ensures
            name@ == spec_difficulty_name(*self),
    {
        let name = match self {
            BotDifficulty::Eazy => "Eazy",
            BotDifficulty::Normal => "Normal",
            BotDifficulty::Hard => "Hard",
        };
        String::from_str(name)
    }
}

} // verus!
