//! The level generator: it draws the random parts of a level and builds the rest.
//!
//! Every sort of entity has a function that builds it from the numbers drawn for
//! it, whatever they are. The generator makes the draws and calls these.
//!
//! It draws in this order: two numbers for each cloud (height, then speed), two
//! for each floating platform (horizontal offset, then height), one for each
//! platform (whether it gets an egg), four for each chicken (x, y, then the two
//! components of its velocity), and one for each platform that counts as ground
//! (whether it gets a spike).

use vstd::prelude::*;
use crate::config::{
    BACKGROUND_H, BACKGROUND_W, BAR_H, BAR_W, CHICKEN_H, CHICKEN_W, CLOUD_H, CLOUD_W, EGG_H, EGG_W,
    HOUSE_H, HOUSE_W, PLATFORM_H, PLATFORM_W, PLAYER_H, PLAYER_W, SPIKE_H, SPIKE_W,
};
use crate::events::MoveDirection;
use crate::geometry::{GameEntity, MovingGameEntity, Rect, Vec2};
use crate::level::{
    background_tile, centered, chicken, cloud, egg_on, eggs_placed, floating_platform,
    fresh_level_facts, fresh_world, ground_platform, house, is_ground, lemma_fresh_level,
    possible_chicken, possible_cloud, possible_eggs, possible_floating_platform,
    possible_platforms, possible_spikes, rising, signed_speed, spike_on, spikes_placed,
    start_player, BACKGROUND_COUNT, BACKGROUND_FIRST_X, BACKGROUND_Y, CENTI, CHICKEN_COUNT,
    CHICKEN_SPEED_X_MIN, CHICKEN_SPEED_X_SPAN, CHICKEN_SPEED_Y_MIN, CHICKEN_SPEED_Y_SPAN,
    CHICKEN_X_MAX, CHICKEN_X_MIN, CHICKEN_Y_MAX, CHICKEN_Y_MIN, CLOUD_COUNT, CLOUD_FIRST_X,
    CLOUD_SPACING, CLOUD_SPEED_MAX, CLOUD_SPEED_MIN, CLOUD_Y_MAX, CLOUD_Y_MIN, EGG_CHANCE,
    FLOATING_COUNT, FLOATING_OFFSET_SPAN, FLOATING_SPACING, FLOATING_Y_MAX, FLOATING_Y_MIN,
    GROUND_COUNT, GROUND_FIRST_X, GROUND_LAST_X, GROUND_SPACING, HOUSE_X, HOUSE_Y,
    PLATFORM_COUNT, PLAYER_START_X, PLAYER_START_Y, SINK, SPIKE_ODDS,
};
use crate::random::gen_range;
use crate::state::{State, StateView};
use crate::units::{sat, saturate};

verus! {

/// The product of two 64-bit numbers stays inside `i128`.
proof fn lemma_product_of_two(a: i64, b: i64)
    ensures
        -0x4000_0000_0000_0000_0000_0000_0000_0000 <= a * b
            <= 0x4000_0000_0000_0000_0000_0000_0000_0000,
{
    assert(-0x4000_0000_0000_0000_0000_0000_0000_0000 <= a * b
        <= 0x4000_0000_0000_0000_0000_0000_0000_0000) by (nonlinear_arith)
        requires
            -0x8000_0000_0000_0000 <= a <= 0x8000_0000_0000_0000,
            -0x8000_0000_0000_0000 <= b <= 0x8000_0000_0000_0000,
    ;
}

/// `first + i * step`, which stays inside `i128` for 64-bit numbers.
fn place(first: i64, i: i64, step: i64) -> (r: i128)
    ensures
        r == first + i * step,
        -0x5000_0000_0000_0000_0000_0000_0000_0000 <= r
            <= 0x5000_0000_0000_0000_0000_0000_0000_0000,
{
    proof {
        lemma_product_of_two(i, step);
    }
    first as i128 + (i as i128) * (step as i128)
}

fn entity_centered(cx: i128, cy: i128, w: i64, h: i64) -> (e: GameEntity)
    requires
        w >= 0,
        h >= 0,
        -0x7000_0000_0000_0000_0000_0000_0000_0000 <= cx
            <= 0x7000_0000_0000_0000_0000_0000_0000_0000,
        -0x7000_0000_0000_0000_0000_0000_0000_0000 <= cy
            <= 0x7000_0000_0000_0000_0000_0000_0000_0000,
    ensures
        e == centered(cx as int, cy as int, w, h),
{
    GameEntity {
        rect: Rect { x: saturate(cx - (w / 2) as i128), y: saturate(cy - (h / 2) as i128), w, h },
    }
}

/// The player as a run begins.
pub fn make_player() -> (player: MovingGameEntity)
    ensures
        player == start_player(),
{
    MovingGameEntity {
        entity: entity_centered(
            PLAYER_START_X as i128,
            PLAYER_START_Y as i128,
            PLAYER_W,
            PLAYER_H,
        ),
        velocity: Vec2 { x: 0, y: 0 },
    }
}

/// The `i`-th background tile.
pub fn make_background_tile(i: i64) -> (tile: GameEntity)
    ensures
        tile == background_tile(i as int),
{
    entity_centered(
        place(BACKGROUND_FIRST_X, i, BACKGROUND_W),
        BACKGROUND_Y as i128,
        BACKGROUND_W,
        BACKGROUND_H,
    )
}

/// The `i`-th cloud, for a height `y` drawn in hundredths and a speed drawn as `speed`.
pub fn make_cloud(i: i64, y: i64, speed: i64) -> (c: MovingGameEntity)
    ensures
        c == cloud(i as int, y as int, speed as int),
{
    MovingGameEntity {
        entity: entity_centered(
            place(CLOUD_FIRST_X, i, CLOUD_SPACING),
            place(0, y, CENTI),
            CLOUD_W,
            CLOUD_H,
        ),
        velocity: Vec2 { x: speed, y: 0 },
    }
}

/// The `i`-th ground platform on a screen of the given height.
pub fn make_ground_platform(i: i64, screen_height: u64) -> (p: GameEntity)
    ensures
        p == ground_platform(i as int, screen_height as int),
{
    GameEntity {
        rect: Rect {
            x: saturate(place(GROUND_FIRST_X, i, GROUND_SPACING) - (PLATFORM_W / 2) as i128),
            y: saturate(screen_height as i128 - PLATFORM_H as i128),
            w: PLATFORM_W,
            h: PLATFORM_H,
        },
    }
}

/// The `i`-th floating platform, for an offset and a height drawn in hundredths.
pub fn make_floating_platform(i: i64, offset: i64, y: i64) -> (p: GameEntity)
    ensures
        p == floating_platform(i as int, offset as int, y as int),
{
    proof {
        lemma_product_of_two(i, FLOATING_SPACING);
    }
    let centred: i128 = offset as i128 - (FLOATING_OFFSET_SPAN / 2) as i128;
    assert(-0x1_0000_0000_0000_0000_0000 <= centred * CENTI <= 0x1_0000_0000_0000_0000_0000)
        by (nonlinear_arith)
        requires
            -0x1_0000_0000_0000_0000 <= centred <= 0x1_0000_0000_0000_0000,
            CENTI == 10_000,
    ;
    let shift: i128 = centred * (CENTI as i128);
    entity_centered(
        (i as i128) * (FLOATING_SPACING as i128) + shift,
        place(0, y, CENTI),
        BAR_W,
        BAR_H,
    )
}

/// The egg on a platform, where it is the `k`-th egg of the level, counting from zero.
pub fn lay_egg(platform: &GameEntity, k: u32) -> (egg: GameEntity)
    ensures
        egg == egg_on(*platform, k as int),
{
    let w = platform.rect.w;
    assert(-0x2_0000_0000 * 0x8000_0000_0000_0000 <= (2 * k + 1) * w <= 0x2_0000_0000
        * 0x8000_0000_0000_0000) by (nonlinear_arith)
        requires
            0 <= k <= 0xffff_ffff,
            -0x8000_0000_0000_0000 <= w <= 0x8000_0000_0000_0000,
    ;
    let fourfold: i128 = (2 * (k as i128) + 1) * (w as i128);
    let shift: i128 = if fourfold >= 0 {
        fourfold / 4
    } else {
        -((3 - fourfold) / 4)
    };
    assert(shift == ((2 * k + 1) * w) / 4);
    GameEntity {
        rect: Rect {
            x: saturate(platform.rect.x as i128 + shift - (EGG_W / 2) as i128),
            y: saturate(platform.rect.y as i128 - EGG_H as i128 + SINK as i128),
            w: EGG_W,
            h: EGG_H,
        },
    }
}

fn speed_from(draw: i64, least: i64, span: i64) -> (v: i64)
    ensures
        v == sat(signed_speed(draw as int, least as int, span as int)),
{
    if draw < span {
        saturate(least as i128 + draw as i128)
    } else {
        saturate(-(least as i128 + (draw as i128 - span as i128)))
    }
}

/// A chicken, for a place drawn in hundredths and the two draws of its velocity.
pub fn make_chicken(x: i64, y: i64, vx: i64, vy: i64) -> (c: MovingGameEntity)
    ensures
        c == chicken(x as int, y as int, vx as int, vy as int),
{
    MovingGameEntity {
        entity: entity_centered(place(0, x, CENTI), place(0, y, CENTI), CHICKEN_W, CHICKEN_H),
        velocity: Vec2 {
            x: speed_from(vx, CHICKEN_SPEED_X_MIN, CHICKEN_SPEED_X_SPAN),
            y: speed_from(vy, CHICKEN_SPEED_Y_MIN, CHICKEN_SPEED_Y_SPAN),
        },
    }
}

/// Whether a platform counts as ground on a screen of the given height.
pub fn counts_as_ground(platform: &GameEntity, screen_height: u64) -> (r: bool)
    ensures
        r == is_ground(*platform, screen_height as int),
{
    2 * (platform.rect.y as i128) + platform.rect.h as i128 > 2 * (screen_height as i128
        - PLATFORM_H as i128)
}

/// The spike on a platform.
pub fn set_spike(platform: &GameEntity) -> (spike: GameEntity)
    ensures
        spike == spike_on(*platform),
{
    GameEntity {
        rect: Rect {
            x: saturate(
                platform.rect.x as i128 + platform.rect.w as i128 - (SPIKE_W / 2) as i128,
            ),
            y: saturate(platform.rect.y as i128 - SPIKE_H as i128 + SINK as i128),
            w: SPIKE_W,
            h: SPIKE_H,
        },
    }
}

/// The house at the end of the level.
pub fn make_house() -> (h: GameEntity)
    ensures
        h == house(),
{
    entity_centered(HOUSE_X as i128, HOUSE_Y as i128, HOUSE_W, HOUSE_H)
}

fn make_background() -> (tiles: Vec<GameEntity>)
    ensures
        tiles@ == Seq::new(BACKGROUND_COUNT as nat, |i: int| background_tile(i)),
{
    let mut tiles: Vec<GameEntity> = Vec::new();
    let mut i: i64 = 0;
    while i < BACKGROUND_COUNT
        invariant
            0 <= i <= BACKGROUND_COUNT,
            tiles@.len() == i,
            forall|j: int| 0 <= j < i ==> #[trigger] tiles@[j] == background_tile(j),
        decreases BACKGROUND_COUNT - i,
    {
        tiles.push(make_background_tile(i));
        i += 1;
    }
    tiles
}

fn make_clouds() -> (clouds: Vec<MovingGameEntity>)
    ensures
        clouds@.len() == CLOUD_COUNT,
        forall|i: int| 0 <= i < CLOUD_COUNT ==> possible_cloud(i, #[trigger] clouds@[i]),
{
    let mut clouds: Vec<MovingGameEntity> = Vec::new();
    let mut i: i64 = 0;
    while i < CLOUD_COUNT
        invariant
            0 <= i <= CLOUD_COUNT,
            clouds@.len() == i,
            forall|j: int| 0 <= j < i ==> possible_cloud(j, #[trigger] clouds@[j]),
        decreases CLOUD_COUNT - i,
    {
        let y: i64 = gen_range(CLOUD_Y_MIN, CLOUD_Y_MAX);
        let speed: i64 = gen_range(CLOUD_SPEED_MIN, CLOUD_SPEED_MAX);
        clouds.push(make_cloud(i, y, speed));
        i += 1;
    }
    clouds
}

fn make_platforms(screen_height: u64) -> (platforms: Vec<GameEntity>)
    ensures
        possible_platforms(platforms@, screen_height as int),
{
    let mut platforms: Vec<GameEntity> = Vec::new();
    let mut i: i64 = 0;
    while GROUND_FIRST_X + i * GROUND_SPACING <= GROUND_LAST_X
        invariant
            0 <= i <= GROUND_COUNT,
            platforms@.len() == i,
            forall|j: int|
                0 <= j < i ==> #[trigger] platforms@[j] == ground_platform(
                    j,
                    screen_height as int,
                ),
        decreases GROUND_COUNT - i,
    {
        platforms.push(make_ground_platform(i, screen_height));
        i += 1;
    }
    let mut i: i64 = 0;
    while i < FLOATING_COUNT
        invariant
            0 <= i <= FLOATING_COUNT,
            platforms@.len() == GROUND_COUNT + i,
            forall|j: int|
                0 <= j < GROUND_COUNT ==> #[trigger] platforms@[j] == ground_platform(
                    j,
                    screen_height as int,
                ),
            forall|j: int|
                GROUND_COUNT <= j < GROUND_COUNT + i ==> possible_floating_platform(
                    j - GROUND_COUNT,
                    #[trigger] platforms@[j],
                ),
        decreases FLOATING_COUNT - i,
    {
        let offset: i64 = gen_range(0, FLOATING_OFFSET_SPAN);
        let y: i64 = gen_range(FLOATING_Y_MIN, FLOATING_Y_MAX);
        platforms.push(make_floating_platform(i, offset, y));
        i += 1;
    }
    platforms
}

fn place_eggs(platforms: &Vec<GameEntity>) -> (eggs: Vec<GameEntity>)
    requires
        platforms@.len() <= PLATFORM_COUNT,
    ensures
        possible_eggs(platforms@, eggs@),
{
    let mut eggs: Vec<GameEntity> = Vec::new();
    let ghost mut chosen: Seq<int> = Seq::empty();
    let mut i: usize = 0;
    while i < platforms.len()
        invariant
            i <= platforms@.len() <= PLATFORM_COUNT,
            eggs@.len() == chosen.len() <= i,
            rising(chosen, i as int),
            forall|k: int|
                0 <= k < eggs@.len() ==> #[trigger] eggs@[k] == egg_on(platforms@[chosen[k]], k),
        decreases platforms@.len() - i,
    {
        let pick: i64 = gen_range(0, 100);
        if pick < EGG_CHANCE {
            let egg = lay_egg(&platforms[i], eggs.len() as u32);
            eggs.push(egg);
            proof {
                chosen = chosen.push(i as int);
            }
        }
        i += 1;
    }
    assert(eggs_placed(platforms@, eggs@, chosen));
    eggs
}

fn make_chickens() -> (chickens: Vec<MovingGameEntity>)
    ensures
        chickens@.len() == CHICKEN_COUNT,
        forall|i: int| 0 <= i < CHICKEN_COUNT ==> possible_chicken(#[trigger] chickens@[i]),
{
    let mut chickens: Vec<MovingGameEntity> = Vec::new();
    let mut i: i64 = 0;
    while i < CHICKEN_COUNT
        invariant
            0 <= i <= CHICKEN_COUNT,
            chickens@.len() == i,
            forall|j: int| 0 <= j < i ==> possible_chicken(#[trigger] chickens@[j]),
        decreases CHICKEN_COUNT - i,
    {
        let x: i64 = gen_range(CHICKEN_X_MIN, CHICKEN_X_MAX);
        let y: i64 = gen_range(CHICKEN_Y_MIN, CHICKEN_Y_MAX);
        let vx: i64 = gen_range(0, 2 * CHICKEN_SPEED_X_SPAN);
        let vy: i64 = gen_range(0, 2 * CHICKEN_SPEED_Y_SPAN);
        chickens.push(make_chicken(x, y, vx, vy));
        i += 1;
    }
    chickens
}

fn place_spikes(platforms: &Vec<GameEntity>, screen_height: u64) -> (spikes: Vec<GameEntity>)
    ensures
        possible_spikes(platforms@, spikes@, screen_height as int),
{
    let mut spikes: Vec<GameEntity> = Vec::new();
    let ghost mut chosen: Seq<int> = Seq::empty();
    let mut i: usize = 0;
    while i < platforms.len()
        invariant
            i <= platforms@.len(),
            spikes@.len() == chosen.len() <= i,
            rising(chosen, i as int),
            forall|k: int|
                0 <= k < chosen.len() ==> is_ground(
                    platforms@[#[trigger] chosen[k]],
                    screen_height as int,
                ),
            forall|k: int|
                0 <= k < spikes@.len() ==> #[trigger] spikes@[k] == spike_on(
                    platforms@[chosen[k]],
                ),
        decreases platforms@.len() - i,
    {
        if counts_as_ground(&platforms[i], screen_height) {
            let pick: i64 = gen_range(0, SPIKE_ODDS);
            if pick == 0 {
                let spike = set_spike(&platforms[i]);
                spikes.push(spike);
                proof {
                    chosen = chosen.push(i as int);
                }
            }
        }
        i += 1;
    }
    assert(spikes_placed(platforms@, spikes@, chosen, screen_height as int));
    spikes
}

impl State {
    /// Throws away whatever the state holds and begins a fresh run on a screen of
    /// the given height.
    ///
    /// The level is laid out anew: the fixed parts where they always are, the random
    /// parts wherever the draws put them, within their ranges.
    pub fn new_game(&mut self, screen_height: u64)
        ensures
            final(self)@ matches StateView::Game(world) && fresh_world(world, screen_height as int)
                && fresh_level_facts(world, screen_height as int),
    {
        let player = make_player();
        let background_entities = make_background();
        let clouds = make_clouds();
        let platforms = make_platforms(screen_height);
        let eggs = place_eggs(&platforms);
        let chickens = make_chickens();
        let spikes = place_spikes(&platforms, screen_height);
        let house = make_house();
        *self = State::Game {
            player,
            player_direction: MoveDirection::Right,
            score: 0,
            clouds,
            platforms,
            eggs,
            chickens,
            spikes,
            house,
            background_entities,
        };
        proof {
            lemma_fresh_level(self@->Game_0, screen_height as int);
        }
    }
}

} // verus!
