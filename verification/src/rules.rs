//! What happens to a run in one frame: movement, falling, egg pickup, and the
//! ways in which the run ends.

use vstd::prelude::*;
use crate::config::{EGGS_NEEDED_FOR_HOUSE, EGGS_NEEDED_FOR_WIN, FALL_MARGIN, MEME_COUNT};
use crate::events::{DeathCause, Event, GameOverReason};
use crate::geometry::{GameEntity, MovingGameEntity};
use crate::physics::{
    chickens_after, clouds_after, player_after, step_chickens, step_clouds, step_player,
};
use crate::random::gen_range;
use crate::state::{State, StateView, World};

verus! {

/// The world after everything in it has moved for `dt` milliseconds.
pub open spec fn advanced(world: World, dt: int) -> World {
    World {
        player: player_after(world.player, world.platforms, dt),
        chickens: chickens_after(world.chickens, dt),
        clouds: clouds_after(world.clouds, dt),
        ..world
    }
}

/// Whether the player's feet are more than `FALL_MARGIN` below the lower edge of
/// the screen.
pub open spec fn fell(player: MovingGameEntity, screen_height: int) -> bool {
    player.entity.rect.bottom() > screen_height + FALL_MARGIN
}

/// The test that an egg passes when the player does not touch it.
pub open spec fn out_of_reach(player: GameEntity) -> spec_fn(GameEntity) -> bool {
    |egg: GameEntity| !player.spec_touches(&egg)
}

/// The eggs that the player does not touch, in their order.
pub open spec fn eggs_left(player: GameEntity, eggs: Seq<GameEntity>) -> Seq<GameEntity> {
    eggs.filter(out_of_reach(player))
}

/// The score after `picked` more eggs. It stops at the greatest `u32`.
pub open spec fn score_after(score: u32, picked: int) -> u32 {
    if score + picked > u32::MAX {
        u32::MAX
    } else {
        (score + picked) as u32
    }
}

/// The world after the player has picked up every egg it touches.
pub open spec fn collected(world: World) -> World {
    World {
        eggs: eggs_left(world.player.entity, world.eggs),
        score: score_after(
            world.score,
            world.eggs.len() - eggs_left(world.player.entity, world.eggs).len(),
        ),
        ..world
    }
}

/// Whether the player touches one of the entities.
pub open spec fn touches_one_of(player: GameEntity, others: Seq<GameEntity>) -> bool {
    exists|i: int| 0 <= i < others.len() && player.spec_touches(&#[trigger] others[i])
}

/// Whether the player touches one of the moving entities.
pub open spec fn caught_by_one_of(player: GameEntity, others: Seq<MovingGameEntity>) -> bool {
    exists|i: int| 0 <= i < others.len() && player.spec_touches(&(#[trigger] others[i]).entity)
}

/// How a run ends for a player who stands at the house with `score` eggs: a win
/// with enough eggs for it, the alternate ending `meme` with enough for that, and
/// not at all with fewer.
pub open spec fn at_the_house(score: u32, meme: usize) -> Option<GameOverReason> {
    if score >= EGGS_NEEDED_FOR_WIN {
        Some(GameOverReason::Win)
    } else if score >= EGGS_NEEDED_FOR_HOUSE {
        Some(GameOverReason::End { meme })
    } else {
        None
    }
}

/// Whether and why the run ends for the world as it stands: a chicken comes before
/// a spike, and a spike before the house. `meme` is the alternate ending to show
/// if it comes to that.
pub open spec fn verdict(world: World, meme: usize) -> Option<GameOverReason> {
    if caught_by_one_of(world.player.entity, world.chickens) {
        Some(GameOverReason::Death { cause: DeathCause::Chicken, score: world.score })
    } else if touches_one_of(world.player.entity, world.spikes) {
        Some(GameOverReason::Death { cause: DeathCause::Spike, score: world.score })
    } else if world.player.entity.spec_touches(&world.house) {
        at_the_house(world.score, meme)
    } else {
        None
    }
}

/// One `Scored` event for each of `n` eggs.
pub open spec fn scored(n: nat) -> Seq<Event> {
    Seq::new(n, |i: int| Event::Scored)
}

/// One frame of a run: the state after it, and the events of the frame in order.
///
/// Everything moves. If the player has then fallen out of the world the run ends
/// at once. Otherwise the player picks up the eggs it touches, with one event for
/// each, and the run ends if `verdict` says so, with the event that tells why
/// after those of the eggs.
pub open spec fn frame(world: World, dt: int, screen_height: int, meme: usize) -> (
    StateView,
    Seq<Event>,
) {
    let moved = advanced(world, dt);
    if fell(moved.player, screen_height) {
        let reason = GameOverReason::Death { cause: DeathCause::Fall, score: moved.score };
        (StateView::GameOver(reason), seq![Event::GameOver(reason)])
    } else {
        let after = collected(moved);
        let eggs = scored((moved.eggs.len() - after.eggs.len()) as nat);
        match verdict(after, meme) {
            Some(reason) => (StateView::GameOver(reason), eggs.push(Event::GameOver(reason))),
            None => (StateView::Game(after), eggs),
        }
    }
}

/// Whether the player's feet are more than `FALL_MARGIN` below the lower edge of
/// the screen.
pub fn has_fallen(player: &MovingGameEntity, screen_height: u64) -> (r: bool)
    ensures
        r == fell(*player, screen_height as int),
{
    player.entity.rect.y as i128 + player.entity.rect.h as i128 > screen_height as i128
        + FALL_MARGIN as i128
}

/// Takes out of `eggs` every egg that the player touches, and says how many they were.
pub fn collect_eggs(player: &GameEntity, eggs: &mut Vec<GameEntity>) -> (picked: usize)
    ensures
        final(eggs)@ == eggs_left(*player, old(eggs)@),
        picked == old(eggs)@.len() - final(eggs)@.len(),
{
    let mut kept: Vec<GameEntity> = Vec::new();
    let mut picked: usize = 0;
    let mut i: usize = 0;
    proof {
        reveal(Seq::filter);
        assert(eggs@.take(0) =~= Seq::<GameEntity>::empty());
    }
    while i < eggs.len()
        invariant
            i <= eggs@.len(),
            eggs@ == old(eggs)@,
            kept@ == eggs_left(*player, eggs@.take(i as int)),
            picked == i - kept@.len(),
        decreases eggs@.len() - i,
    {
        proof {
            reveal(Seq::filter);
            assert(eggs@.take(i + 1).drop_last() =~= eggs@.take(i as int));
            assert(eggs@.take(i + 1).last() == eggs@[i as int]);
        }
        if player.touches(&eggs[i]) {
            picked += 1;
        } else {
            kept.push(eggs[i]);
        }
        i += 1;
    }
    proof {
        assert(eggs@.take(eggs@.len() as int) =~= eggs@);
    }
    *eggs = kept;
    picked
}

/// Whether the player touches one of the entities.
pub fn touches_any(player: &GameEntity, others: &Vec<GameEntity>) -> (r: bool)
    ensures
        r == touches_one_of(*player, others@),
{
    let mut i: usize = 0;
    while i < others.len()
        invariant
            i <= others@.len(),
            forall|j: int| 0 <= j < i ==> !player.spec_touches(&#[trigger] others@[j]),
        decreases others@.len() - i,
    {
        if player.touches(&others[i]) {
            return true;
        }
        i += 1;
    }
    false
}

/// Whether the player touches one of the moving entities.
pub fn caught_by_any(player: &GameEntity, others: &Vec<MovingGameEntity>) -> (r: bool)
    ensures
        r == caught_by_one_of(*player, others@),
{
    let mut i: usize = 0;
    while i < others.len()
        invariant
            i <= others@.len(),
            forall|j: int| 0 <= j < i ==> !player.spec_touches(&(#[trigger] others@[j]).entity),
        decreases others@.len() - i,
    {
        if player.touches(&others[i].entity) {
            return true;
        }
        i += 1;
    }
    false
}

fn raise_score(score: u32, picked: usize) -> (r: u32)
    ensures
        r == score_after(score, picked as int),
{
    if picked as u128 + score as u128 > u32::MAX as u128 {
        u32::MAX
    } else {
        score + picked as u32
    }
}

fn push_scored(events: &mut Vec<Event>, n: usize)
    requires
        old(events)@.len() == 0,
    ensures
        final(events)@ == scored(n as nat),
{
    let mut i: usize = 0;
    while i < n
        invariant
            i <= n,
            events@.len() == i,
            forall|j: int| 0 <= j < i ==> #[trigger] events@[j] == Event::Scored,
        decreases n - i,
    {
        events.push(Event::Scored);
        i += 1;
    }
    assert(events@ =~= scored(n as nat));
}

fn draw_meme() -> (meme: usize)
    ensures
        meme < MEME_COUNT,
{
    let drawn: i64 = gen_range(0, 8);
    drawn as usize
}

impl State {
    /// Ends the run for the given reason, and gives the event that reports it.
    pub fn end_run(&mut self, reason: GameOverReason) -> (event: Event)
        ensures
            final(self)@ == StateView::GameOver(reason),
            event == Event::GameOver(reason),
    {
        *self = State::GameOver(reason);
        Event::GameOver(reason)
    }

    /// Advances a run by one frame of `delta_time` milliseconds on a screen of the
    /// given height, and returns what happened, in order. Outside a run nothing
    /// changes and nothing happens.
    ///
    /// The frame is the one that `frame` describes. Where the run ends at the house
    /// without a win, the alternate ending is drawn at random from those there are.
    pub fn update(&mut self, delta_time: u32, screen_height: u64) -> (events: Vec<Event>)
        ensures
            old(self)@ matches StateView::Game(world) ==> exists|meme: usize|
                meme < MEME_COUNT && #[trigger] frame(
                    world,
                    delta_time as int,
                    screen_height as int,
                    meme,
                ) == (final(self)@, events@),
            !(old(self)@ is Game) ==> final(self)@ == old(self)@ && events@.len() == 0,
    {
        let mut events: Vec<Event> = Vec::new();
        match self {
            State::Game { player, score, clouds, platforms, eggs, chickens, spikes, house, .. } => {
                let ghost world = old(self)@->Game_0;
                let ghost moved = advanced(world, delta_time as int);
                step_player(player, platforms, delta_time);
                step_chickens(chickens, delta_time);
                step_clouds(clouds, delta_time);
                if has_fallen(player, screen_height) {
                    let reason = GameOverReason::Death { cause: DeathCause::Fall, score: *score };
                    let event = self.end_run(reason);
                    events.push(event);
                    proof {
                        assert(events@ =~= seq![Event::GameOver(reason)]);
                        assert(frame(world, delta_time as int, screen_height as int, 0) == (
                            self@,
                            events@,
                        ));
                    }
                    return events;
                }
                let picked = collect_eggs(&player.entity, eggs);
                *score = raise_score(*score, picked);
                push_scored(&mut events, picked);
                let ghost after = collected(moved);
                let ending: Option<GameOverReason> = if caught_by_any(&player.entity, chickens) {
                    Some(GameOverReason::Death { cause: DeathCause::Chicken, score: *score })
                } else if touches_any(&player.entity, spikes) {
                    Some(GameOverReason::Death { cause: DeathCause::Spike, score: *score })
                } else if player.entity.touches(house) {
                    if *score >= EGGS_NEEDED_FOR_WIN {
                        Some(GameOverReason::Win)
                    } else if *score >= EGGS_NEEDED_FOR_HOUSE {
                        Some(GameOverReason::End { meme: draw_meme() })
                    } else {
                        None
                    }
                } else {
                    None
                };
                let ghost meme: usize = match ending {
                    Some(GameOverReason::End { meme }) => meme,
                    _ => 0,
                };
                assert(ending == verdict(after, meme));
                match ending {
                    Some(reason) => {
                        let event = self.end_run(reason);
                        events.push(event);
                    },
                    None => {},
                }
                proof {
                    assert(frame(world, delta_time as int, screen_height as int, meme) == (
                        self@,
                        events@,
                    ));
                }
            },
            _ => {},
        }
        events
    }
}

} // verus!
