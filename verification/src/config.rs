//! The constants of the game: sizes, speeds, thresholds and the bounds of the world.
//!
//! Lengths are in millionths of a world unit and velocities in millionths of a
//! unit per millisecond (see `units`).

use vstd::prelude::*;

verus! {

/// Downward acceleration: 1000 units per second squared.
pub const GRAVITY: i64 = 1_000;

/// How far above a platform's top the player's feet may be and still land: 5 units.
pub const GROUND_DETECTION_BUFFER: i64 = 5_000_000;

/// The margin by which an entity's collision rectangle is inset on every side: 2 units.
pub const COLLISION_MARGIN: i64 = 2_000_000;

/// Horizontal speed of the player while a direction is held: 300 units per second.
pub const PLAYER_MOVEMENT_SPEED: i64 = 300_000;

/// Upward speed at the start of a jump: 500 units per second.
pub const PLAYER_JUMP_SPEED: i64 = 500_000;

/// Width of the player: 30 units.
pub const PLAYER_W: i64 = 30_000_000;

/// Height of the player: 48 units.
pub const PLAYER_H: i64 = 48_000_000;

/// Width of a ground platform: 429 units.
pub const PLATFORM_W: i64 = 429_000_000;

/// Height of a ground platform: 141 units.
pub const PLATFORM_H: i64 = 141_000_000;

/// Width of a floating platform: 214.5 units.
pub const BAR_W: i64 = 214_500_000;

/// Height of a floating platform: 70.5 units.
pub const BAR_H: i64 = 70_500_000;

/// Width of a chicken: 52 units.
pub const CHICKEN_W: i64 = 52_000_000;

/// Height of a chicken: 48 units.
pub const CHICKEN_H: i64 = 48_000_000;

/// Width of an egg: 40 units.
pub const EGG_W: i64 = 40_000_000;

/// Height of an egg: 40 units.
pub const EGG_H: i64 = 40_000_000;

/// Width of a spike: 60 units.
pub const SPIKE_W: i64 = 60_000_000;

/// Height of a spike: 52 units.
pub const SPIKE_H: i64 = 52_000_000;

/// Width of the house: 423 units.
pub const HOUSE_W: i64 = 423_000_000;

/// Height of the house: 624 units.
pub const HOUSE_H: i64 = 624_000_000;

/// Width of a cloud: 786 units.
pub const CLOUD_W: i64 = 786_000_000;

/// Height of a cloud: 150 units.
pub const CLOUD_H: i64 = 150_000_000;

/// Width of a background tile: 1024 units.
pub const BACKGROUND_W: i64 = 1_024_000_000;

/// Height of a background tile: 2304 units.
pub const BACKGROUND_H: i64 = 2_304_000_000;

/// Eggs needed to end the run at the house with one of the alternate endings.
pub const EGGS_NEEDED_FOR_HOUSE: u32 = 2;

/// Eggs needed to win the run at the house.
pub const EGGS_NEEDED_FOR_WIN: u32 = 5;

/// The number of alternate endings.
pub const MEME_COUNT: usize = 8;

/// How far below the screen's lower edge the player's feet may sink before the
/// run ends in a fall: 100 units.
pub const FALL_MARGIN: i64 = 100_000_000;

/// Chickens turn around when their left edge leaves `0 ..= CHICKEN_MAX_X`.
pub const CHICKEN_MAX_X: i64 = 5_000_000_000;

/// Chickens turn around when their top edge leaves `0 ..= CHICKEN_MAX_Y`.
pub const CHICKEN_MAX_Y: i64 = 800_000_000;

/// A cloud whose left edge passes this line is set back to `CLOUD_WRAP_TO`.
pub const CLOUD_WRAP_AT: i64 = 60_000_000_000;

/// Where a cloud that left the world on the right comes back in.
pub const CLOUD_WRAP_TO: i64 = -1_024_000_000;

} // verus!
