//! What the keys do to the game.

use vstd::prelude::*;
use crate::config::{PLAYER_JUMP_SPEED, PLAYER_MOVEMENT_SPEED};
use crate::events::{Event, MoveDirection};
use crate::geometry::{MovingGameEntity, Vec2};
use crate::level::{fresh_level_facts, fresh_world};
use crate::state::{State, StateView, World};

verus! {

/// The keys as they stand in one frame.
#[derive(Clone, Copy, Debug, PartialEq, Eq)]
pub struct Input {
    /// The key for moving left is held down.
    pub left_held: bool,
    /// The key for moving right is held down.
    pub right_held: bool,
    /// The key for jumping went down in this frame.
    pub jump_pressed: bool,
    /// The key that starts a run from the title screen went down in this frame.
    pub start_pressed: bool,
    /// The key that starts a new run from the end screen went down in this frame.
    pub restart_pressed: bool,
}

/// The horizontal velocity that the keys ask for: to the left or to the right
/// where just that key is held, and none where both are, or neither.
pub open spec fn steering(input: Input) -> i64 {
    if input.left_held && !input.right_held {
        (-PLAYER_MOVEMENT_SPEED) as i64
    } else if input.right_held && !input.left_held {
        PLAYER_MOVEMENT_SPEED
    } else {
        0
    }
}

/// The direction that the player faces: that of the one key held, and the one it
/// faced before where both are held, or neither.
pub open spec fn heading(facing: MoveDirection, input: Input) -> MoveDirection {
    if input.left_held && !input.right_held {
        MoveDirection::Left
    } else if input.right_held && !input.left_held {
        MoveDirection::Right
    } else {
        facing
    }
}

/// Whether the player jumps: the key went down, and the player neither rises
/// nor falls.
pub open spec fn jumps(player: MovingGameEntity, input: Input) -> bool {
    input.jump_pressed && player.velocity.y == 0
}

/// The world after the keys have been applied to the player.
pub open spec fn steered(world: World, input: Input) -> World {
    World {
        player: MovingGameEntity {
            entity: world.player.entity,
            velocity: Vec2 {
                x: steering(input),
                y: if jumps(world.player, input) {
                    (-PLAYER_JUMP_SPEED) as i64
                } else {
                    world.player.velocity.y
                },
            },
        },
        player_direction: heading(world.player_direction, input),
        ..world
    }
}

/// The events of a frame's input: a jump, or nothing.
pub open spec fn input_events(world: World, input: Input) -> Seq<Event> {
    if jumps(world.player, input) {
        seq![Event::Jumped]
    } else {
        Seq::empty()
    }
}

impl State {
    /// Applies the keys of one frame, and returns what happened.
    ///
    /// On the title screen the start key begins a fresh run on a screen of the
    /// given height, and on the end screen the restart key does; nothing else has
    /// an effect there. In a run the keys steer the player and make it jump, and
    /// neither of those two keys does anything.
    pub fn process_input(&mut self, input: Input, screen_height: u64) -> (events: Vec<Event>)
        ensures
            match old(self)@ {
                StateView::Start => {
                    &&& events@.len() == 0
                    &&& input.start_pressed ==> final(self)@ is Game && fresh_world(
                        final(self)@->Game_0,
                        screen_height as int,
                    ) && fresh_level_facts(final(self)@->Game_0, screen_height as int)
                    &&& !input.start_pressed ==> final(self)@ == StateView::Start
                },
                StateView::Game(world) => {
                    &&& final(self)@ == StateView::Game(steered(world, input))
                    &&& events@ == input_events(world, input)
                },
                StateView::GameOver(reason) => {
                    &&& events@.len() == 0
                    &&& input.restart_pressed ==> final(self)@ is Game && fresh_world(
                        final(self)@->Game_0,
                        screen_height as int,
                    ) && fresh_level_facts(final(self)@->Game_0, screen_height as int)
                    &&& !input.restart_pressed ==> final(self)@ == StateView::GameOver(reason)
                },
            },
            old(self)@ matches StateView::Game(world) ==> (world.player.velocity.y != 0 ==> {
                &&& events@.len() == 0
                &&& final(self)@ matches StateView::Game(after)
                &&& after.player.velocity.y == world.player.velocity.y
            }),
    {
        let mut events: Vec<Event> = Vec::new();
        match self {
            State::Start => {
                if input.start_pressed {
                    self.new_game(screen_height);
                }
            },
            State::Game { player, player_direction, .. } => {
                if input.left_held && !input.right_held {
                    *player_direction = MoveDirection::Left;
                    player.velocity.x = -PLAYER_MOVEMENT_SPEED;
                } else if input.right_held && !input.left_held {
                    *player_direction = MoveDirection::Right;
                    player.velocity.x = PLAYER_MOVEMENT_SPEED;
                } else {
                    player.velocity.x = 0;
                }
                if input.jump_pressed && player.velocity.y == 0 {
                    player.velocity.y = -PLAYER_JUMP_SPEED;
                    events.push(Event::Jumped);
                }
            },
            State::GameOver(_) => {
                if input.restart_pressed {
                    self.new_game(screen_height);
                }
            },
        }
        events
    }
}

} // verus!
