//! What the level of a fresh run is: everything in its world.
//!
//! The fixed parts of a level are given by spec functions. The random parts are
//! given by spec functions of the numbers drawn, and a possible level is one that
//! some draws within their ranges produce. Random positions are drawn in
//! hundredths of a unit, random speeds in the unit of velocities.

use vstd::prelude::*;
use crate::config::{
    BACKGROUND_H, BACKGROUND_W, BAR_H, BAR_W, CHICKEN_H, CHICKEN_W, CLOUD_H, CLOUD_W, EGG_H, EGG_W,
    HOUSE_H, HOUSE_W, PLATFORM_H, PLATFORM_W, PLAYER_H, PLAYER_W, SPIKE_H, SPIKE_W,
};
use crate::events::MoveDirection;
use crate::geometry::{GameEntity, MovingGameEntity, Rect, Vec2};
use crate::state::World;
use crate::units::sat;

verus! {

/// One hundredth of a unit: the step of the grid on which random positions lie.
pub const CENTI: i64 = 10_000;

/// The centre of the player at the start of a run: x = 243 units.
pub const PLAYER_START_X: i64 = 243_000_000;

/// The centre of the player at the start of a run: y = 350 units.
pub const PLAYER_START_Y: i64 = 350_000_000;

/// The number of background tiles.
pub const BACKGROUND_COUNT: i64 = 61;

/// The centre of the first background tile: x = -1024 units.
pub const BACKGROUND_FIRST_X: i64 = -1_024_000_000;

/// The centre of every background tile: y = 336 units.
pub const BACKGROUND_Y: i64 = 336_000_000;

/// The number of clouds.
pub const CLOUD_COUNT: i64 = 41;

/// The centre of the first cloud: x = -1024 units.
pub const CLOUD_FIRST_X: i64 = -1_024_000_000;

/// The distance between the centres of neighbouring clouds: 500 units.
pub const CLOUD_SPACING: i64 = 500_000_000;

/// The least height of a cloud's centre, in hundredths: y = 100 units.
pub const CLOUD_Y_MIN: i64 = 10_000;

/// The bound on the height of a cloud's centre, in hundredths: y = 500 units.
pub const CLOUD_Y_MAX: i64 = 50_000;

/// The least speed of a cloud: 20 units per second.
pub const CLOUD_SPEED_MIN: i64 = 20_000;

/// The bound on the speed of a cloud: 60 units per second.
pub const CLOUD_SPEED_MAX: i64 = 60_000;

/// The centre of the first ground platform: x = -429 units.
pub const GROUND_FIRST_X: i64 = -429_000_000;

/// No ground platform has its centre to the right of x = 2000 units.
pub const GROUND_LAST_X: i64 = 2_000_000_000;

/// The distance between the centres of neighbouring ground platforms: 400 units.
pub const GROUND_SPACING: i64 = 400_000_000;

/// The number of ground platforms: the places from `GROUND_FIRST_X` to
/// `GROUND_LAST_X` in steps of `GROUND_SPACING`.
pub const GROUND_COUNT: i64 = 7;

/// The number of floating platforms.
pub const FLOATING_COUNT: i64 = 60;

/// The number of platforms of both kinds.
pub const PLATFORM_COUNT: i64 = 67;

/// The centre of each floating platform lies this much further right than the
/// one before it, before its random offset: 50 units.
pub const FLOATING_SPACING: i64 = 50_000_000;

/// The random offset of a floating platform is drawn from zero up to this bound,
/// in hundredths, and then moved left by half of it: from -200 to 200 units.
pub const FLOATING_OFFSET_SPAN: i64 = 40_000;

/// The least height of a floating platform's centre, in hundredths: y = 150 units.
pub const FLOATING_Y_MIN: i64 = 15_000;

/// The bound on the height of a floating platform's centre, in hundredths: y = 650 units.
pub const FLOATING_Y_MAX: i64 = 65_000;

/// A platform gets an egg when a draw below 100 falls below this: 30 in 100.
pub const EGG_CHANCE: i64 = 30;

/// How far an egg or a spike sinks into the platform it stands on: 5 units.
pub const SINK: i64 = 5_000_000;

/// The number of chickens.
pub const CHICKEN_COUNT: i64 = 20;

/// The least x of a chicken's centre, in hundredths: 500 units.
pub const CHICKEN_X_MIN: i64 = 50_000;

/// The bound on the x of a chicken's centre, in hundredths: 4000 units.
pub const CHICKEN_X_MAX: i64 = 400_000;

/// The least y of a chicken's centre, in hundredths: 100 units.
pub const CHICKEN_Y_MIN: i64 = 10_000;

/// The bound on the y of a chicken's centre, in hundredths: 600 units.
pub const CHICKEN_Y_MAX: i64 = 60_000;

/// The least horizontal speed of a chicken: 50 units per second.
pub const CHICKEN_SPEED_X_MIN: i64 = 50_000;

/// The horizontal speed of a chicken lies less than this above the least:
/// up to 150 units per second.
pub const CHICKEN_SPEED_X_SPAN: i64 = 100_000;

/// The least vertical speed of a chicken: 30 units per second.
pub const CHICKEN_SPEED_Y_MIN: i64 = 30_000;

/// The vertical speed of a chicken lies less than this above the least:
/// up to 80 units per second.
pub const CHICKEN_SPEED_Y_SPAN: i64 = 50_000;

/// A ground platform gets a spike when a draw below this is zero: one in five.
pub const SPIKE_ODDS: i64 = 5;

/// The centre of the house: x = 3000 units.
pub const HOUSE_X: i64 = 3_000_000_000;

/// The centre of the house: y = 292 units.
pub const HOUSE_Y: i64 = 292_000_000;

/// The entity of size `w` by `h` whose centre is `(cx, cy)`.
pub open spec fn centered(cx: int, cy: int, w: i64, h: i64) -> GameEntity {
    GameEntity { rect: Rect { x: sat(cx - w / 2), y: sat(cy - h / 2), w, h } }
}

/// The player as a run begins: at the starting place, standing still.
pub open spec fn start_player() -> MovingGameEntity {
    MovingGameEntity {
        entity: centered(PLAYER_START_X as int, PLAYER_START_Y as int, PLAYER_W, PLAYER_H),
        velocity: Vec2 { x: 0, y: 0 },
    }
}

/// The `i`-th background tile. The tiles lie edge to edge.
pub open spec fn background_tile(i: int) -> GameEntity {
    centered(BACKGROUND_FIRST_X + i * BACKGROUND_W, BACKGROUND_Y as int, BACKGROUND_W, BACKGROUND_H)
}

/// The `i`-th cloud, for a height `y` drawn in hundredths and a speed drawn as `speed`.
pub open spec fn cloud(i: int, y: int, speed: int) -> MovingGameEntity {
    MovingGameEntity {
        entity: centered(CLOUD_FIRST_X + i * CLOUD_SPACING, y * CENTI, CLOUD_W, CLOUD_H),
        velocity: Vec2 { x: sat(speed), y: 0 },
    }
}

/// What the `i`-th cloud of a fresh level can be.
pub open spec fn possible_cloud(i: int, c: MovingGameEntity) -> bool {
    exists|y: int, speed: int|
        CLOUD_Y_MIN <= y < CLOUD_Y_MAX && CLOUD_SPEED_MIN <= speed < CLOUD_SPEED_MAX && c
            == #[trigger] cloud(i, y, speed)
}

/// The `i`-th ground platform on a screen of the given height: it rests on the
/// lower edge of the screen.
pub open spec fn ground_platform(i: int, screen_height: int) -> GameEntity {
    GameEntity {
        rect: Rect {
            x: sat(GROUND_FIRST_X + i * GROUND_SPACING - PLATFORM_W / 2),
            y: sat(screen_height - PLATFORM_H),
            w: PLATFORM_W,
            h: PLATFORM_H,
        },
    }
}

/// The `i`-th floating platform, for an offset and a height drawn in hundredths.
pub open spec fn floating_platform(i: int, offset: int, y: int) -> GameEntity {
    centered(
        i * FLOATING_SPACING + (offset - FLOATING_OFFSET_SPAN / 2) * CENTI,
        y * CENTI,
        BAR_W,
        BAR_H,
    )
}

/// What the `i`-th floating platform of a fresh level can be.
pub open spec fn possible_floating_platform(i: int, p: GameEntity) -> bool {
    exists|offset: int, y: int|
        0 <= offset < FLOATING_OFFSET_SPAN && FLOATING_Y_MIN <= y < FLOATING_Y_MAX && p
            == #[trigger] floating_platform(i, offset, y)
}

/// What the platforms of a fresh level can be: the ground platforms, then the
/// floating ones.
pub open spec fn possible_platforms(platforms: Seq<GameEntity>, screen_height: int) -> bool {
    &&& platforms.len() == PLATFORM_COUNT
    &&& forall|i: int|
        0 <= i < GROUND_COUNT ==> #[trigger] platforms[i] == ground_platform(i, screen_height)
    &&& forall|i: int|
        GROUND_COUNT <= i < PLATFORM_COUNT ==> possible_floating_platform(
            i - GROUND_COUNT,
            #[trigger] platforms[i],
        )
}

/// `chosen` names places in a list of length `n`, each further back than the one before.
pub open spec fn rising(chosen: Seq<int>, n: int) -> bool {
    &&& forall|k: int| 0 <= k < chosen.len() ==> 0 <= #[trigger] chosen[k] < n
    &&& forall|j: int, k: int| 0 <= j < k < chosen.len() ==> chosen[j] < chosen[k]
}

/// The egg on a platform, where it is the `k`-th egg of the level, counting from zero.
///
/// The egg stands `SINK` deep in the platform's top. Its centre lies
/// `(k - 1/2) * w / 2` right of the platform's centre, `w` being the platform's
/// width: its left edge is therefore `(2k + 1) * w / 4` right of the platform's
/// left edge, less half the width of an egg.
pub open spec fn egg_on(platform: GameEntity, k: int) -> GameEntity {
    GameEntity {
        rect: Rect {
            x: sat(platform.rect.x + ((2 * k + 1) * platform.rect.w) / 4 - EGG_W / 2),
            y: sat(platform.rect.y - EGG_H + SINK),
            w: EGG_W,
            h: EGG_H,
        },
    }
}

/// The eggs are those of the platforms that `chosen` names, in that order.
pub open spec fn eggs_placed(
    platforms: Seq<GameEntity>,
    eggs: Seq<GameEntity>,
    chosen: Seq<int>,
) -> bool {
    &&& rising(chosen, platforms.len() as int)
    &&& eggs.len() == chosen.len()
    &&& forall|k: int| 0 <= k < eggs.len() ==> #[trigger] eggs[k] == egg_on(platforms[chosen[k]], k)
}

/// What the eggs of a fresh level can be: any of the platforms may have one.
pub open spec fn possible_eggs(platforms: Seq<GameEntity>, eggs: Seq<GameEntity>) -> bool {
    exists|chosen: Seq<int>| #[trigger] eggs_placed(platforms, eggs, chosen)
}

/// A speed and its direction from one draw below `2 * span`: the lower half of
/// the draws gives the speeds from `least` on in the positive direction, the
/// upper half the same speeds in the negative direction.
pub open spec fn signed_speed(draw: int, least: int, span: int) -> int {
    if draw < span {
        least + draw
    } else {
        -(least + (draw - span))
    }
}

/// A chicken, for a place drawn in hundredths and a velocity drawn by `signed_speed`.
pub open spec fn chicken(x: int, y: int, vx: int, vy: int) -> MovingGameEntity {
    MovingGameEntity {
        entity: centered(x * CENTI, y * CENTI, CHICKEN_W, CHICKEN_H),
        velocity: Vec2 {
            x: sat(signed_speed(vx, CHICKEN_SPEED_X_MIN as int, CHICKEN_SPEED_X_SPAN as int)),
            y: sat(signed_speed(vy, CHICKEN_SPEED_Y_MIN as int, CHICKEN_SPEED_Y_SPAN as int)),
        },
    }
}

/// What a chicken of a fresh level can be.
pub open spec fn possible_chicken(c: MovingGameEntity) -> bool {
    exists|x: int, y: int, vx: int, vy: int|
        CHICKEN_X_MIN <= x < CHICKEN_X_MAX && CHICKEN_Y_MIN <= y < CHICKEN_Y_MAX && 0 <= vx < 2
            * CHICKEN_SPEED_X_SPAN && 0 <= vy < 2 * CHICKEN_SPEED_Y_SPAN && c
            == #[trigger] chicken(x, y, vx, vy)
}

/// A platform counts as ground when its centre lies below the top of the ground
/// platforms, which is `PLATFORM_H` above the lower edge of the screen.
pub open spec fn is_ground(platform: GameEntity, screen_height: int) -> bool {
    2 * platform.rect.y + platform.rect.h > 2 * (screen_height - PLATFORM_H)
}

/// The spike on a platform: centred on the platform's right edge, `SINK` deep in its top.
pub open spec fn spike_on(platform: GameEntity) -> GameEntity {
    GameEntity {
        rect: Rect {
            x: sat(platform.rect.right() - SPIKE_W / 2),
            y: sat(platform.rect.y - SPIKE_H + SINK),
            w: SPIKE_W,
            h: SPIKE_H,
        },
    }
}

/// The spikes are those of the platforms that `chosen` names, in that order, and
/// each of these platforms counts as ground.
pub open spec fn spikes_placed(
    platforms: Seq<GameEntity>,
    spikes: Seq<GameEntity>,
    chosen: Seq<int>,
    screen_height: int,
) -> bool {
    &&& rising(chosen, platforms.len() as int)
    &&& spikes.len() == chosen.len()
    &&& forall|k: int|
        0 <= k < chosen.len() ==> is_ground(platforms[#[trigger] chosen[k]], screen_height)
    &&& forall|k: int|
        0 <= k < spikes.len() ==> #[trigger] spikes[k] == spike_on(platforms[chosen[k]])
}

/// What the spikes of a fresh level can be: any platform that counts as ground
/// may have one.
pub open spec fn possible_spikes(
    platforms: Seq<GameEntity>,
    spikes: Seq<GameEntity>,
    screen_height: int,
) -> bool {
    exists|chosen: Seq<int>| #[trigger] spikes_placed(platforms, spikes, chosen, screen_height)
}

/// The house at the end of the level.
pub open spec fn house() -> GameEntity {
    centered(HOUSE_X as int, HOUSE_Y as int, HOUSE_W, HOUSE_H)
}

/// What the world of a fresh run can be on a screen of the given height.
pub open spec fn fresh_world(world: World, screen_height: int) -> bool {
    &&& world.player == start_player()
    &&& world.player_direction == MoveDirection::Right
    &&& world.score == 0
    &&& world.background_entities == Seq::new(
        BACKGROUND_COUNT as nat,
        |i: int| background_tile(i),
    )
    &&& world.clouds.len() == CLOUD_COUNT
    &&& forall|i: int| 0 <= i < CLOUD_COUNT ==> possible_cloud(i, #[trigger] world.clouds[i])
    &&& possible_platforms(world.platforms, screen_height)
    &&& possible_eggs(world.platforms, world.eggs)
    &&& world.chickens.len() == CHICKEN_COUNT
    &&& forall|i: int| 0 <= i < CHICKEN_COUNT ==> possible_chicken(#[trigger] world.chickens[i])
    &&& possible_spikes(world.platforms, world.spikes, screen_height)
    &&& world.house == house()
}

/// The egg's top is the platform's top, less the height of an egg, plus `SINK`.
pub open spec fn stands_on(egg: GameEntity, platform: GameEntity) -> bool {
    egg.rect.y == platform.rect.y - EGG_H + SINK
}

/// The egg stands on one of the platforms.
pub open spec fn stands_on_one_of(egg: GameEntity, platforms: Seq<GameEntity>) -> bool {
    exists|i: int| 0 <= i < platforms.len() && stands_on(egg, #[trigger] platforms[i])
}

/// The statements about a fresh level that do not depend on the draws: how many
/// platforms there are and where the ground platforms lie, and that no egg is
/// without its platform.
pub open spec fn fresh_level_facts(world: World, screen_height: int) -> bool {
    &&& world.platforms.len() == GROUND_COUNT + FLOATING_COUNT
    &&& forall|i: int|
        0 <= i < GROUND_COUNT ==> #[trigger] world.platforms[i] == ground_platform(i, screen_height)
    &&& world.eggs.len() <= world.platforms.len()
    &&& forall|k: int|
        0 <= k < world.eggs.len() ==> stands_on_one_of(#[trigger] world.eggs[k], world.platforms)
}

/// In a rising list, the entry at place `k` is at least `k`.
pub proof fn lemma_rising_outruns_index(chosen: Seq<int>, n: int, k: int)
    requires
        rising(chosen, n),
        0 <= k < chosen.len(),
    ensures
        k <= chosen[k] < n,
    decreases k,
{
    if k > 0 {
        lemma_rising_outruns_index(chosen, n, k - 1);
    }
}

/// A fresh level on a screen whose height is not negative has 67 platforms, of
/// which the first 7 are the ground platforms at their fixed places, whatever was
/// drawn. It has no more eggs than platforms, and every egg stands on a platform:
/// its top is the platform's top, less the height of an egg, plus `SINK`.
pub proof fn lemma_fresh_level(world: World, screen_height: int)
    requires
        fresh_world(world, screen_height),
        0 <= screen_height,
    ensures
        fresh_level_facts(world, screen_height),
{
    let chosen = choose|chosen: Seq<int>| eggs_placed(world.platforms, world.eggs, chosen);
    if chosen.len() > 0 {
        lemma_rising_outruns_index(chosen, world.platforms.len() as int, chosen.len() - 1);
    }
    assert forall|k: int| 0 <= k < world.eggs.len() implies stands_on_one_of(
        #[trigger] world.eggs[k],
        world.platforms,
    ) by {
        let i = chosen[k];
        let p = world.platforms[i];
        assert(world.eggs[k] == egg_on(p, k));
        if i >= GROUND_COUNT {
            assert(possible_floating_platform(i - GROUND_COUNT, p));
        } else {
            assert(p == ground_platform(i, screen_height));
        }
        assert(stands_on(world.eggs[k], world.platforms[i]));
    }
}

} // verus!
