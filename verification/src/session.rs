//! Session-level state: the top-level state machine's two enums and the
//! scoreboard. Lives live with the hero ship module; the transition logic
//! itself sits with the game world, which owns all the pieces.

use vstd::prelude::*;

verus! {

/// The top-level session states: the start screen, play, and the re-enterable
/// end-game screen.
#[derive(Clone, Copy, Debug, PartialEq, Eq, Hash, Structural)]
pub enum GameState {
    StartScreen,
    InGame,
    EndGame,
}

impl Default for GameState {
    /// A session begins on the start screen.
    fn default() -> (s: Self)
        ensures
            s == GameState::StartScreen,
    {
        GameState::StartScreen
    }
}

/// Whether gameplay is suspended. Pausing is a gate, not a cancellation:
/// entity state is preserved unmodified across paused ticks.
#[derive(Clone, Copy, Debug, PartialEq, Eq, Hash, Structural)]
pub enum PausingState {
    Paused,
    Running,
}

impl Default for PausingState {
    /// A session begins unpaused.
    fn default() -> (s: Self)
        ensures
            s == PausingState::Running,
    {
        PausingState::Running
    }
}

/// The session score. It only ever increases during play and is reset to
/// zero on restart.
#[derive(Clone, Copy, Debug, PartialEq, Eq, Structural)]
pub struct ScoreboardScore {
    pub score: usize,
}

impl Default for ScoreboardScore {
    /// A session starts at zero points.
    fn default() -> (s: Self)
        ensures
            s.score == 0,
    {
        ScoreboardScore { score: 0 }
    }
}

} // verus!
