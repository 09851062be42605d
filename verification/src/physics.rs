//! How the player, the chickens and the clouds move in one frame.

use vstd::prelude::*;
use crate::config::{
    CHICKEN_MAX_X, CHICKEN_MAX_Y, CLOUD_WRAP_AT, CLOUD_WRAP_TO, GRAVITY, GROUND_DETECTION_BUFFER,
};
use crate::geometry::{GameEntity, MovingGameEntity, Rect, Vec2};
use crate::units::{lemma_product_fits, sat, saturate};

verus! {

/// The player with gravity added to its vertical velocity for `dt` milliseconds.
pub open spec fn falling(player: MovingGameEntity, dt: int) -> MovingGameEntity {
    MovingGameEntity {
        entity: player.entity,
        velocity: Vec2 { x: player.velocity.x, y: sat(player.velocity.y + GRAVITY * dt) },
    }
}

/// Whether the player comes to stand on the platform within the next `dt` milliseconds:
/// the two overlap horizontally, the player is not rising, its feet are no lower
/// than `GROUND_DETECTION_BUFFER` below the platform's top now, and at its
/// velocity they would be at or below that top after `dt`.
pub open spec fn lands_on(player: MovingGameEntity, platform: GameEntity, dt: int) -> bool {
    &&& player.entity.rect.right() > platform.rect.x
    &&& player.entity.rect.x < platform.rect.right()
    &&& player.velocity.y >= 0
    &&& player.entity.rect.bottom() <= platform.rect.y + GROUND_DETECTION_BUFFER
    &&& player.entity.rect.bottom() + player.velocity.y * dt >= platform.rect.y
}

/// The top of the first platform, from place `from` on, that the player lands on.
pub open spec fn landing_from(
    player: MovingGameEntity,
    platforms: Seq<GameEntity>,
    dt: int,
    from: int,
) -> Option<i64>
    decreases platforms.len() - from,
{
    if from < 0 || from >= platforms.len() {
        None
    } else if lands_on(player, platforms[from], dt) {
        Some(platforms[from].rect.y)
    } else {
        landing_from(player, platforms, dt, from + 1)
    }
}

/// The top of the first platform that the player lands on, if there is one.
pub open spec fn landing(player: MovingGameEntity, platforms: Seq<GameEntity>, dt: int) -> Option<
    i64,
> {
    landing_from(player, platforms, dt, 0)
}

/// The player after one frame of `dt` milliseconds: gravity is added to its
/// velocity; it moves at the new velocity; and if it was found to land on a
/// platform before it moved, its feet are put on that platform's top and its
/// vertical velocity becomes zero.
pub open spec fn player_after(
    player: MovingGameEntity,
    platforms: Seq<GameEntity>,
    dt: int,
) -> MovingGameEntity {
    let moved = falling(player, dt).moved(dt);
    match landing(falling(player, dt), platforms, dt) {
        Some(top) => MovingGameEntity {
            entity: GameEntity {
                rect: Rect {
                    x: moved.entity.rect.x,
                    y: sat(top - moved.entity.rect.h),
                    w: moved.entity.rect.w,
                    h: moved.entity.rect.h,
                },
            },
            velocity: Vec2 { x: moved.velocity.x, y: 0 },
        },
        None => moved,
    }
}

/// The velocity along one axis of a chicken that has arrived at `position`: turned
/// around where the position is outside `0 ..= limit`, unchanged inside.
pub open spec fn reflected(velocity: i64, position: i64, limit: i64) -> i64 {
    if position > limit || position < 0 {
        sat(-velocity)
    } else {
        velocity
    }
}

/// A chicken after one frame of `dt` milliseconds: it moves, and then turns
/// around along each axis on which it has left its range. It is not put back
/// inside.
pub open spec fn chicken_after(chicken: MovingGameEntity, dt: int) -> MovingGameEntity {
    let moved = chicken.moved(dt);
    MovingGameEntity {
        entity: moved.entity,
        velocity: Vec2 {
            x: reflected(moved.velocity.x, moved.entity.rect.x, CHICKEN_MAX_X),
            y: reflected(moved.velocity.y, moved.entity.rect.y, CHICKEN_MAX_Y),
        },
    }
}

/// A cloud after one frame of `dt` milliseconds: it moves, and where it has passed
/// `CLOUD_WRAP_AT` it is set back to `CLOUD_WRAP_TO`, keeping its velocity.
pub open spec fn cloud_after(cloud: MovingGameEntity, dt: int) -> MovingGameEntity {
    let moved = cloud.moved(dt);
    if moved.entity.rect.x > CLOUD_WRAP_AT {
        MovingGameEntity {
            entity: GameEntity {
                rect: Rect {
                    x: CLOUD_WRAP_TO,
                    y: moved.entity.rect.y,
                    w: moved.entity.rect.w,
                    h: moved.entity.rect.h,
                },
            },
            velocity: moved.velocity,
        }
    } else {
        moved
    }
}

/// All chickens after one frame.
pub open spec fn chickens_after(chickens: Seq<MovingGameEntity>, dt: int) -> Seq<
    MovingGameEntity,
> {
    Seq::new(chickens.len(), |i: int| chicken_after(chickens[i], dt))
}

/// All clouds after one frame.
pub open spec fn clouds_after(clouds: Seq<MovingGameEntity>, dt: int) -> Seq<MovingGameEntity> {
    Seq::new(clouds.len(), |i: int| cloud_after(clouds[i], dt))
}

/// `landing` finds the first platform that the player lands on: where it gives a
/// top, that is the top of a platform on which the player lands and before which
/// there is none; where it gives nothing, the player lands on no platform.
pub proof fn lemma_landing_is_first(
    player: MovingGameEntity,
    platforms: Seq<GameEntity>,
    dt: int,
    from: int,
)
    requires
        0 <= from <= platforms.len(),
    ensures
        match landing_from(player, platforms, dt, from) {
            Some(top) => exists|i: int|
                from <= i < platforms.len() && lands_on(player, #[trigger] platforms[i], dt) && top
                    == platforms[i].rect.y && forall|j: int|
                    from <= j < i ==> !lands_on(player, #[trigger] platforms[j], dt),
            None => forall|i: int|
                from <= i < platforms.len() ==> !lands_on(player, #[trigger] platforms[i], dt),
        },
    decreases platforms.len() - from,
{
    if from < platforms.len() {
        if lands_on(player, platforms[from], dt) {
        } else {
            lemma_landing_is_first(player, platforms, dt, from + 1);
            match landing_from(player, platforms, dt, from + 1) {
                Some(top) => {
                    let i = choose|i: int|
                        from + 1 <= i < platforms.len() && lands_on(
                            player,
                            #[trigger] platforms[i],
                            dt,
                        ) && top == platforms[i].rect.y && forall|j: int|
                            from + 1 <= j < i ==> !lands_on(player, #[trigger] platforms[j], dt);
                    assert forall|j: int| from <= j < i implies !lands_on(
                        player,
                        #[trigger] platforms[j],
                        dt,
                    ) by {
                        if j == from {
                        }
                    }
                },
                None => {
                    assert forall|i: int| from <= i < platforms.len() implies !lands_on(
                        player,
                        #[trigger] platforms[i],
                        dt,
                    ) by {
                        if i == from {
                        }
                    }
                },
            }
        }
    }
}

/// Whether the player comes to stand on the platform within the next
/// `delta_time` milliseconds.
pub fn will_land_on(player: &MovingGameEntity, platform: &GameEntity, delta_time: u32) -> (r: bool)
    ensures
        r == lands_on(*player, *platform, delta_time as int),
{
    proof {
        lemma_product_fits(player.velocity.y, delta_time);
    }
    let right: i128 = player.entity.rect.x as i128 + player.entity.rect.w as i128;
    let bottom: i128 = player.entity.rect.y as i128 + player.entity.rect.h as i128;
    let platform_right: i128 = platform.rect.x as i128 + platform.rect.w as i128;
    let step: i128 = (player.velocity.y as i128) * (delta_time as i128);
    right > platform.rect.x as i128 && (player.entity.rect.x as i128) < platform_right
        && player.velocity.y >= 0 && bottom <= platform.rect.y as i128
        + GROUND_DETECTION_BUFFER as i128 && bottom + step >= platform.rect.y as i128
}

/// The top of the first platform that the player lands on within the next
/// `delta_time` milliseconds, if there is one. The platforms are tried in their
/// order, and the first that fits is taken, however far away it is.
pub fn find_landing(player: &MovingGameEntity, platforms: &Vec<GameEntity>, delta_time: u32) -> (top:
    Option<i64>)
    ensures
        top == landing(*player, platforms@, delta_time as int),
{
    let mut i: usize = 0;
    while i < platforms.len()
        invariant
            i <= platforms@.len(),
            landing(*player, platforms@, delta_time as int) == landing_from(
                *player,
                platforms@,
                delta_time as int,
                i as int,
            ),
        decreases platforms@.len() - i,
    {
        if will_land_on(player, &platforms[i], delta_time) {
            return Some(platforms[i].rect.y);
        }
        i += 1;
    }
    None
}

/// Moves the player through one frame of `delta_time` milliseconds.
pub fn step_player(player: &mut MovingGameEntity, platforms: &Vec<GameEntity>, delta_time: u32)
    ensures
        *final(player) == player_after(*old(player), platforms@, delta_time as int),
{
    proof {
        lemma_product_fits(GRAVITY, delta_time);
    }
    player.velocity.y = saturate(
        player.velocity.y as i128 + (GRAVITY as i128) * (delta_time as i128),
    );
    let ground = find_landing(player, platforms, delta_time);
    player.apply_velocity(delta_time);
    if let Some(top) = ground {
        player.entity.rect.y = saturate(top as i128 - player.entity.rect.h as i128);
        player.velocity.y = 0;
    }
}

fn reflect(velocity: i64, position: i64, limit: i64) -> (r: i64)
    ensures
        r == reflected(velocity, position, limit),
{
    if position > limit || position < 0 {
        saturate(-(velocity as i128))
    } else {
        velocity
    }
}

/// Moves a chicken through one frame of `delta_time` milliseconds.
pub fn step_chicken(chicken: &mut MovingGameEntity, delta_time: u32)
    ensures
        *final(chicken) == chicken_after(*old(chicken), delta_time as int),
{
    chicken.apply_velocity(delta_time);
    chicken.velocity.x = reflect(chicken.velocity.x, chicken.entity.rect.x, CHICKEN_MAX_X);
    chicken.velocity.y = reflect(chicken.velocity.y, chicken.entity.rect.y, CHICKEN_MAX_Y);
}

/// Moves a cloud through one frame of `delta_time` milliseconds.
pub fn step_cloud(cloud: &mut MovingGameEntity, delta_time: u32)
    ensures
        *final(cloud) == cloud_after(*old(cloud), delta_time as int),
{
    cloud.apply_velocity(delta_time);
    if cloud.entity.rect.x > CLOUD_WRAP_AT {
        cloud.entity.rect.x = CLOUD_WRAP_TO;
    }
}

/// Moves every chicken through one frame of `delta_time` milliseconds.
pub fn step_chickens(chickens: &mut Vec<MovingGameEntity>, delta_time: u32)
    ensures
        final(chickens)@ == chickens_after(old(chickens)@, delta_time as int),
{
    let mut i: usize = 0;
    while i < chickens.len()
        invariant
            i <= chickens@.len(),
            chickens@.len() == old(chickens)@.len(),
            forall|j: int|
                0 <= j < i ==> #[trigger] chickens@[j] == chicken_after(
                    old(chickens)@[j],
                    delta_time as int,
                ),
            forall|j: int| i <= j < chickens@.len() ==> #[trigger] chickens@[j] == old(chickens)@[j],
        decreases chickens@.len() - i,
    {
        let mut chicken = chickens[i];
        step_chicken(&mut chicken, delta_time);
        chickens[i] = chicken;
        i += 1;
    }
}

/// Moves every cloud through one frame of `delta_time` milliseconds.
pub fn step_clouds(clouds: &mut Vec<MovingGameEntity>, delta_time: u32)
    ensures
        final(clouds)@ == clouds_after(old(clouds)@, delta_time as int),
{
    let mut i: usize = 0;
    while i < clouds.len()
        invariant
            i <= clouds@.len(),
            clouds@.len() == old(clouds)@.len(),
            forall|j: int|
                0 <= j < i ==> #[trigger] clouds@[j] == cloud_after(
                    old(clouds)@[j],
                    delta_time as int,
                ),
            forall|j: int| i <= j < clouds@.len() ==> #[trigger] clouds@[j] == old(clouds)@[j],
        decreases clouds@.len() - i,
    {
        let mut cloud = clouds[i];
        step_cloud(&mut cloud, delta_time);
        clouds[i] = cloud;
        i += 1;
    }
}

} // verus!
