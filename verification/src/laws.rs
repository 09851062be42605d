//! What holds of the game as a whole, proved from the definitions of its parts.

use vstd::prelude::*;
use crate::config::{
    CHICKEN_MAX_X, CLOUD_WRAP_AT, CLOUD_WRAP_TO, EGGS_NEEDED_FOR_HOUSE, EGGS_NEEDED_FOR_WIN, GRAVITY,
};
use crate::events::{DeathCause, GameOverReason};
use crate::geometry::{GameEntity, MovingGameEntity};
use crate::input::{steered, Input};
use crate::physics::{
    chicken_after, cloud_after, falling, landing, landing_from, lands_on, lemma_landing_is_first,
    player_after,
};
use crate::rules::{
    advanced, caught_by_one_of, collected, eggs_left, fell, frame, out_of_reach, touches_one_of,
    verdict,
};
use crate::state::{StateView, World};
use crate::units::displaced;

verus! {

/// The player stands on the platform: it neither rises nor falls, its feet are
/// exactly on the platform's top, and the two overlap horizontally.
pub open spec fn rests_on(player: MovingGameEntity, platform: GameEntity) -> bool {
    &&& player.velocity.y == 0
    &&& player.entity.rect.bottom() == platform.rect.y
    &&& player.entity.rect.right() > platform.rect.x
    &&& player.entity.rect.x < platform.rect.right()
}

/// The player after as many frames as `dts` has entries, of those lengths.
pub open spec fn player_after_frames(
    player: MovingGameEntity,
    platforms: Seq<GameEntity>,
    dts: Seq<int>,
) -> MovingGameEntity
    decreases dts.len(),
{
    if dts.len() == 0 {
        player
    } else {
        player_after(player_after_frames(player, platforms, dts.drop_last()), platforms, dts.last())
    }
}

/// A player that starts a frame with no vertical velocity, in a run that the
/// frame does not end, has the vertical velocity `GRAVITY * dt` after it, unless
/// it was found to land: then it has none.
pub proof fn law_gravity_from_rest(world: World, dt: int, screen_height: int, meme: usize)
    requires
        0 <= dt <= u32::MAX,
        world.player.velocity.y == 0,
        frame(world, dt, screen_height, meme).0 is Game,
    ensures
        ({
            let after = frame(world, dt, screen_height, meme).0->Game_0;
            if landing(falling(world.player, dt), world.platforms, dt) is Some {
                after.player.velocity.y == 0
            } else {
                after.player.velocity.y == GRAVITY * dt
            }
        }),
{
}

/// A player that stands on a platform is found to land in the next frame,
/// whatever its length: its vertical velocity is zero after the frame.
pub proof fn law_resting_player_lands(
    player: MovingGameEntity,
    platforms: Seq<GameEntity>,
    i: int,
    dt: int,
)
    requires
        0 <= dt <= u32::MAX,
        0 <= i < platforms.len(),
        rests_on(player, platforms[i]),
    ensures
        landing(falling(player, dt), platforms, dt) is Some,
        player_after(player, platforms, dt).velocity.y == 0,
{
    let f = falling(player, dt);
    assert(f.velocity.y == GRAVITY * dt);
    assert(f.velocity.y * dt >= 0) by (nonlinear_arith)
        requires
            f.velocity.y >= 0,
            dt >= 0,
    ;
    assert(lands_on(f, platforms[i], dt));
    lemma_landing_is_first(f, platforms, dt, 0);
}

/// Over any number of frames in each of which the player is found to land, its
/// vertical velocity is zero after every frame: it does not build up a fall.
pub proof fn law_landing_every_frame_keeps_rest(
    player: MovingGameEntity,
    platforms: Seq<GameEntity>,
    dts: Seq<int>,
)
    requires
        dts.len() > 0,
        forall|k: int|
            0 <= k < dts.len() ==> landing(
                falling(#[trigger] player_after_frames(player, platforms, dts.take(k)), dts[k]),
                platforms,
                dts[k],
            ) is Some,
    ensures
        player_after_frames(player, platforms, dts).velocity.y == 0,
{
    let k = dts.len() - 1;
    assert(dts.drop_last() =~= dts.take(k));
    let before = player_after_frames(player, platforms, dts.take(k));
    assert(landing(falling(before, dts[k]), platforms, dts[k]) is Some);
}

/// A player that stands still on a platform stands on a platform after every
/// number of frames, with no vertical velocity and at the same x. This needs the
/// player's height not to be negative, and the place of its top, when it stands
/// on any of the platforms, to be a number that `i64` holds.
pub proof fn law_standing_player_stays(
    player: MovingGameEntity,
    platforms: Seq<GameEntity>,
    i: int,
    dts: Seq<int>,
)
    requires
        0 <= i < platforms.len(),
        rests_on(player, platforms[i]),
        player.velocity.x == 0,
        player.entity.rect.h >= 0,
        forall|j: int|
            0 <= j < platforms.len() ==> (#[trigger] platforms[j]).rect.y - player.entity.rect.h
                >= i64::MIN,
        forall|k: int| 0 <= k < dts.len() ==> 0 <= #[trigger] dts[k] <= u32::MAX,
    ensures
        ({
            let after = player_after_frames(player, platforms, dts);
            &&& after.velocity == player.velocity
            &&& after.entity.rect.x == player.entity.rect.x
            &&& after.entity.rect.w == player.entity.rect.w
            &&& after.entity.rect.h == player.entity.rect.h
            &&& exists|j: int| 0 <= j < platforms.len() && rests_on(after, #[trigger] platforms[j])
        }),
    decreases dts.len(),
{
    if dts.len() > 0 {
        let earlier = dts.drop_last();
        let dt = dts.last();
        law_standing_player_stays(player, platforms, i, earlier);
        let before = player_after_frames(player, platforms, earlier);
        let j0 = choose|j: int| 0 <= j < platforms.len() && rests_on(before, #[trigger] platforms[j]);
        let f = falling(before, dt);
        law_resting_player_lands(before, platforms, j0, dt);
        lemma_landing_is_first(f, platforms, dt, 0);
        let top = landing(f, platforms, dt)->Some_0;
        let j = choose|j: int|
            0 <= j < platforms.len() && lands_on(f, #[trigger] platforms[j], dt) && top
                == platforms[j].rect.y && forall|l: int|
                0 <= l < j ==> !lands_on(f, #[trigger] platforms[l], dt);
        let after = player_after(before, platforms, dt);
        assert(displaced(before.entity.rect.x, 0, dt) == before.entity.rect.x);
        assert(rests_on(after, platforms[j]));
    }
}

/// Within a run the score never goes down and the eggs only get fewer. A frame
/// that does not end the run leaves a subset of the eggs there were, none of
/// which the player touches, and adds to the score the number of eggs that have
/// gone, as far as a `u32` can count. A frame that ends the run in a death
/// reports a score no lower than the score before.
pub proof fn law_score_and_eggs(world: World, dt: int, screen_height: int, meme: usize)
    ensures
        match frame(world, dt, screen_height, meme).0 {
            StateView::Game(after) => {
                &&& after.score >= world.score
                &&& after.eggs.len() <= world.eggs.len()
                &&& after.score == world.score + (world.eggs.len() - after.eggs.len())
                    || after.score == u32::MAX
                &&& forall|egg: GameEntity| #[trigger]
                    after.eggs.contains(egg) ==> world.eggs.contains(egg)
                        && !after.player.entity.spec_touches(&egg)
            },
            StateView::GameOver(GameOverReason::Death { cause, score }) => score >= world.score,
            _ => true,
        },
{
    let moved = advanced(world, dt);
    let keep = out_of_reach(moved.player.entity);
    moved.eggs.lemma_filter_len(keep);
    if !fell(moved.player, screen_height) {
        let after = collected(moved);
        assert forall|egg: GameEntity| #[trigger] after.eggs.contains(egg) implies world.eggs.contains(
            egg,
        ) && !after.player.entity.spec_touches(&egg) by {
            moved.eggs.lemma_filter_contains_rev(keep, egg);
            let i = choose|i: int| 0 <= i < after.eggs.len() && after.eggs[i] == egg;
            moved.eggs.lemma_filter_pred(keep, i);
        }
    }
}

/// The keys change neither the score nor the eggs.
pub proof fn law_input_keeps_score_and_eggs(world: World, input: Input)
    ensures
        steered(world, input).score == world.score,
        steered(world, input).eggs == world.eggs,
{
}

/// A player that touches a chicken after a frame's movement, and has not fallen
/// out of the world, dies of the chicken: neither a spike nor the house, with
/// whatever score, makes a difference.
pub proof fn law_chicken_comes_first(world: World, dt: int, screen_height: int, meme: usize)
    requires
        !fell(advanced(world, dt).player, screen_height),
        caught_by_one_of(advanced(world, dt).player.entity, advanced(world, dt).chickens),
    ensures
        frame(world, dt, screen_height, meme).0 == StateView::GameOver(
            GameOverReason::Death {
                cause: DeathCause::Chicken,
                score: collected(advanced(world, dt)).score,
            },
        ),
{
}

/// A player that touches a spike after a frame's movement, has not fallen out of
/// the world and touches no chicken, dies of the spike, whatever the house says.
pub proof fn law_spike_comes_before_house(world: World, dt: int, screen_height: int, meme: usize)
    requires
        !fell(advanced(world, dt).player, screen_height),
        !caught_by_one_of(advanced(world, dt).player.entity, advanced(world, dt).chickens),
        touches_one_of(advanced(world, dt).player.entity, advanced(world, dt).spikes),
    ensures
        frame(world, dt, screen_height, meme).0 == StateView::GameOver(
            GameOverReason::Death {
                cause: DeathCause::Spike,
                score: collected(advanced(world, dt)).score,
            },
        ),
{
}

/// A player that is at the house after a frame's movement, safe and sound, ends
/// the run by the eggs it has then: with `EGGS_NEEDED_FOR_WIN` or more it wins;
/// with fewer, but `EGGS_NEEDED_FOR_HOUSE` or more, the run ends with the
/// alternate ending `meme`; with fewer still the run goes on.
pub proof fn law_house_thresholds(world: World, dt: int, screen_height: int, meme: usize)
    requires
        !fell(advanced(world, dt).player, screen_height),
        !caught_by_one_of(advanced(world, dt).player.entity, advanced(world, dt).chickens),
        !touches_one_of(advanced(world, dt).player.entity, advanced(world, dt).spikes),
        advanced(world, dt).player.entity.spec_touches(&world.house),
    ensures
        ({
            let after = collected(advanced(world, dt));
            let state = frame(world, dt, screen_height, meme).0;
            if after.score >= EGGS_NEEDED_FOR_WIN {
                state == StateView::GameOver(GameOverReason::Win)
            } else if after.score >= EGGS_NEEDED_FOR_HOUSE {
                state == StateView::GameOver(GameOverReason::End { meme })
            } else {
                state == StateView::Game(after)
            }
        }),
{
}

/// A chicken that is beyond the right end of its range and flies to the right
/// flies to the left after the next frame, at the same speed, and the frame after
/// that moves it to the left.
pub proof fn law_chicken_turns_back(chicken: MovingGameEntity, dt: int, next_dt: int)
    requires
        0 <= dt <= u32::MAX,
        0 <= next_dt <= u32::MAX,
        chicken.entity.rect.x > CHICKEN_MAX_X,
        chicken.velocity.x > 0,
    ensures
        chicken_after(chicken, dt).velocity.x == -chicken.velocity.x,
        chicken_after(chicken_after(chicken, dt), next_dt).entity.rect.x == displaced(
            chicken_after(chicken, dt).entity.rect.x,
            (-chicken.velocity.x) as i64,
            next_dt,
        ),
        chicken_after(chicken_after(chicken, dt), next_dt).entity.rect.x <= chicken_after(
            chicken,
            dt,
        ).entity.rect.x,
{
    let v = chicken.velocity.x;
    assert(v * dt >= 0) by (nonlinear_arith)
        requires
            v > 0,
            dt >= 0,
    ;
    assert((-v) * next_dt <= 0) by (nonlinear_arith)
        requires
            v > 0,
            next_dt >= 0,
    ;
}

/// A cloud that is beyond the line where clouds wrap, and does not drift to the
/// left, is at `CLOUD_WRAP_TO` after the next frame, with the velocity it had.
pub proof fn law_cloud_wraps(cloud: MovingGameEntity, dt: int)
    requires
        0 <= dt <= u32::MAX,
        cloud.entity.rect.x > CLOUD_WRAP_AT,
        cloud.velocity.x >= 0,
    ensures
        cloud_after(cloud, dt).entity.rect.x == CLOUD_WRAP_TO,
        cloud_after(cloud, dt).velocity == cloud.velocity,
{
    let v = cloud.velocity.x;
    assert(v * dt >= 0) by (nonlinear_arith)
        requires
            v >= 0,
            dt >= 0,
    ;
}

} // verus!
