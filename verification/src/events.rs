//! What a frame reports to the presentation layer, and how a run can end.

use vstd::prelude::*;

verus! {

/// The direction the player faces.
#[derive(Clone, Copy, Debug, PartialEq, Eq)]
pub enum MoveDirection {
    Left,
    Right,
}

/// What killed the player.
#[derive(Clone, Copy, Debug, PartialEq, Eq)]
pub enum DeathCause {
    Chicken,
    Spike,
    Fall,
}

/// Why a run is over.
#[derive(Clone, Copy, Debug, PartialEq, Eq)]
pub enum GameOverReason {
    /// The player died, with this many eggs collected.
    Death { cause: DeathCause, score: u32 },
    /// The player reached the house with enough eggs for an alternate ending,
    /// but not enough to win. `meme` says which ending is shown.
    End { meme: usize },
    /// The player reached the house with enough eggs to win.
    Win,
}

/// Something that happened during a frame.
#[derive(Clone, Copy, Debug, PartialEq, Eq)]
pub enum Event {
    /// The player jumped.
    Jumped,
    /// The player picked up an egg.
    Scored,
    /// The run ended.
    GameOver(GameOverReason),
}

} // verus!
