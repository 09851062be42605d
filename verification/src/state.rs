//! The state of the game and its mathematical view.

use vstd::prelude::*;
use crate::events::{GameOverReason, MoveDirection};
use crate::geometry::{GameEntity, MovingGameEntity};

verus! {

/// The state of the game: the title screen, a run in progress, or the end screen.
#[derive(Debug, PartialEq, Eq)]
pub enum State {
    /// The title screen, before any run.
    Start,
    /// A run in progress, with everything in its world.
    Game {
        player: MovingGameEntity,
        player_direction: MoveDirection,
        score: u32,
        clouds: Vec<MovingGameEntity>,
        platforms: Vec<GameEntity>,
        eggs: Vec<GameEntity>,
        chickens: Vec<MovingGameEntity>,
        spikes: Vec<GameEntity>,
        house: GameEntity,
        background_entities: Vec<GameEntity>,
    },
    /// The run is over, for the reason given.
    GameOver(GameOverReason),
}

/// The world of a run as a mathematical value: what `State::Game` holds, with
/// sequences in place of vectors.
pub struct World {
    pub player: MovingGameEntity,
    pub player_direction: MoveDirection,
    pub score: u32,
    pub clouds: Seq<MovingGameEntity>,
    pub platforms: Seq<GameEntity>,
    pub eggs: Seq<GameEntity>,
    pub chickens: Seq<MovingGameEntity>,
    pub spikes: Seq<GameEntity>,
    pub house: GameEntity,
    pub background_entities: Seq<GameEntity>,
}

/// The state of the game as a mathematical value.
pub enum StateView {
    Start,
    Game(World),
    GameOver(GameOverReason),
}

impl View for State {
    type V = StateView;

    open spec fn view(&self) -> StateView {
        match *self {
            State::Start => StateView::Start,
            State::Game {
                player,
                player_direction,
                score,
                clouds,
                platforms,
                eggs,
                chickens,
                spikes,
                house,
                background_entities,
            } => StateView::Game(
                World {
                    player,
                    player_direction,
                    score,
                    clouds: clouds@,
                    platforms: platforms@,
                    eggs: eggs@,
                    chickens: chickens@,
                    spikes: spikes@,
                    house,
                    background_entities: background_entities@,
                },
            ),
            State::GameOver(reason) => StateView::GameOver(reason),
        }
    }
}

} // verus!
