//! The simulation core of a small side-scrolling platformer: the player runs and
//! jumps across scattered platforms, collects eggs, avoids chickens and spikes,
//! and ends the run at the house.
//!
//! The core works in whole numbers throughout. Positions and sizes are counted in
//! millionths of a world unit, time in milliseconds, and velocities in millionths
//! of a unit per millisecond, so that a displacement is a plain product. Sums that
//! leave the range of `i64` stop at its ends.
//!
//! Key state, the height of the screen and the elapsed time are handed in by the
//! caller; what happened in a frame is handed back as a list of events.

pub mod config;
pub mod events;
pub mod generator;
pub mod geometry;
pub mod input;
pub mod laws;
pub mod level;
pub mod physics;
pub mod random;
pub mod rules;
pub mod state;
pub mod units;

pub use crate::config::{EGGS_NEEDED_FOR_HOUSE, EGGS_NEEDED_FOR_WIN, MEME_COUNT};
pub use crate::events::{DeathCause, Event, GameOverReason, MoveDirection};
pub use crate::geometry::{GameEntity, MovingGameEntity, Rect, Vec2};
pub use crate::input::Input;
pub use crate::state::State;
