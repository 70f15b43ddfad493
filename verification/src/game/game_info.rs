//! The phases of a match: the countdown, play (possibly paused) and the end.
use vstd::prelude::*;

pub mod end_game;

verus! {

#[derive(Clone, Copy, Debug, Default, PartialEq, Eq, Hash, Structural)]
pub enum GameState {
    #[default]
    StartingDecount,
    Playing { paused: bool },
    GameOver,
}

impl GameState {
    /// The state the escape key moves to, if any: during play it pauses or
    /// resumes; during the countdown and after the end it does nothing.
    pub fn on_escape(self) -> (next: Option<GameState>)
        ensures
            next == (match self {
                GameState::Playing { paused } => Some(GameState::Playing { paused: !paused }),
                _ => None::<GameState>,
            }),
    {
        match self {
            GameState::StartingDecount => None,
            GameState::Playing { paused } => Some(GameState::Playing { paused: !paused }),
            GameState::GameOver => None,
        }
    }

    /// Whether the game is running: in play and not paused.
    pub fn is_running(self) -> (running: bool)
        ensures
            running == (self == GameState::Playing { paused: false }),
    {
        match self {
            GameState::Playing { paused } => !paused,
            _ => false,
        }
    }
}

/// The escape transition as a spec function.
pub open spec fn escape_transition(state: GameState) -> Option<GameState> {
    match state {
        GameState::Playing { paused } => Some(GameState::Playing { paused: !paused }),
        _ => None,
    }
}

/// Pressing escape twice during play comes back to the same state; outside
/// play escape changes nothing.
pub proof fn lemma_escape_twice_restores(state: GameState)
    ensures
        escape_transition(state) is Some ==> escape_transition(escape_transition(state)->0) == Some(state),
        escape_transition(state) is None <==> !(state is Playing),
{
}

} // verus!
