use easter_egg::{GameEntity, MoveDirection, MovingGameEntity, Rect, State, Vec2};

const U: i64 = 1_000_000;
const SCREEN: u64 = 768_000_000;

struct Level {
    player: MovingGameEntity,
    player_direction: MoveDirection,
    score: u32,
    clouds: Vec<MovingGameEntity>,
    platforms: Vec<GameEntity>,
    eggs: Vec<GameEntity>,
    chickens: Vec<MovingGameEntity>,
    spikes: Vec<GameEntity>,
    house: GameEntity,
    background_entities: Vec<GameEntity>,
}

fn fresh(seed: u64, screen_height: u64) -> Level {
    macroquad::rand::srand(seed);
    let mut s = State::Start;
    s.new_game(screen_height);
    match s {
        State::Game {
            player,
            player_direction,
            score,
            clouds,
            platforms,
            eggs,
            chickens,
            spikes,
            house,
            background_entities,
        } => Level {
            player,
            player_direction,
            score,
            clouds,
            platforms,
            eggs,
            chickens,
            spikes,
            house,
            background_entities,
        },
        _ => panic!("no run was begun"),
    }
}

#[test]
fn a_fresh_run_starts_with_the_player_in_place() {
    let level = fresh(1, SCREEN);
    assert_eq!(
        level.player,
        MovingGameEntity {
            entity: GameEntity { rect: Rect { x: 228 * U, y: 326 * U, w: 30 * U, h: 48 * U } },
            velocity: Vec2 { x: 0, y: 0 },
        }
    );
    assert_eq!(level.player_direction, MoveDirection::Right);
    assert_eq!(level.score, 0);
}

#[test]
fn new_game_throws_away_the_run_before() {
    macroquad::rand::srand(5);
    let mut s = State::Start;
    s.new_game(SCREEN);
    if let State::Game { score, eggs, player, .. } = &mut s {
        *score = 4;
        eggs.clear();
        player.entity.rect.x = 2000 * U;
        player.velocity.y = 77;
    }
    s.new_game(SCREEN);
    match s {
        State::Game { score, player, platforms, .. } => {
            assert_eq!(score, 0);
            assert_eq!(player.entity.rect.x, 228 * U);
            assert_eq!(player.velocity, Vec2 { x: 0, y: 0 });
            assert_eq!(platforms.len(), 67);
        }
        _ => panic!("no run was begun"),
    }
}

#[test]
fn the_background_is_61_tiles_edge_to_edge() {
    let level = fresh(2, SCREEN);
    assert_eq!(level.background_entities.len(), 61);
    for (i, tile) in level.background_entities.iter().enumerate() {
        assert_eq!(
            tile.rect,
            Rect { x: -1536 * U + 1024 * U * i as i64, y: -816 * U, w: 1024 * U, h: 2304 * U }
        );
    }
    for pair in level.background_entities.windows(2) {
        assert_eq!(pair[0].rect.x + pair[0].rect.w, pair[1].rect.x);
    }
}

#[test]
fn the_house_stands_at_its_place() {
    let level = fresh(3, SCREEN);
    assert_eq!(
        level.house.rect,
        Rect { x: 2_788_500_000, y: -20 * U, w: 423 * U, h: 624 * U }
    );
}

#[test]
fn there_are_41_clouds_within_their_ranges() {
    for seed in 0..20 {
        let level = fresh(seed, SCREEN);
        assert_eq!(level.clouds.len(), 41);
        for (i, cloud) in level.clouds.iter().enumerate() {
            let r = cloud.entity.rect;
            assert_eq!(r.x, -1024 * U + 500 * U * i as i64 - 393 * U);
            assert_eq!((r.w, r.h), (786 * U, 150 * U));
            let centre = r.y + 75 * U;
            assert!(100 * U <= centre && centre < 500 * U);
            assert_eq!(centre % 10_000, 0);
            assert!(20_000 <= cloud.velocity.x && cloud.velocity.x < 60_000);
            assert_eq!(cloud.velocity.y, 0);
        }
    }
}

#[test]
fn there_are_7_ground_platforms_and_60_floating_ones() {
    for seed in 0..20 {
        let level = fresh(seed, SCREEN);
        assert_eq!(level.platforms.len(), 67);
        for (i, p) in level.platforms.iter().take(7).enumerate() {
            assert_eq!(
                p.rect,
                Rect {
                    x: -429 * U + 400 * U * i as i64 - 214_500_000,
                    y: 768 * U - 141 * U,
                    w: 429 * U,
                    h: 141 * U,
                }
            );
        }
        for (i, p) in level.platforms.iter().skip(7).enumerate() {
            assert_eq!((p.rect.w, p.rect.h), (214_500_000, 70_500_000));
            let offset = p.rect.x + 107_250_000 - 50 * U * i as i64;
            assert!(-200 * U <= offset && offset < 200 * U);
            assert_eq!(offset.rem_euclid(10_000), 0);
            let centre = p.rect.y + 35_250_000;
            assert!(150 * U <= centre && centre < 650 * U);
            assert_eq!(centre % 10_000, 0);
        }
    }
}

#[test]
fn the_ground_platforms_do_not_depend_on_the_draws() {
    let a = fresh(11, SCREEN);
    let b = fresh(12, SCREEN);
    assert_eq!(a.platforms[..7], b.platforms[..7]);
    assert_ne!(a.platforms[7..], b.platforms[7..]);
    assert_eq!(a.platforms[0].rect.x, -643_500_000);
    assert_eq!(a.platforms[6].rect.x, 1_756_500_000);
}

#[test]
fn the_ground_platforms_rest_on_the_lower_edge_of_the_screen() {
    for height in [0u64, 600_000_000, 768_000_000, 2_160_000_000] {
        let level = fresh(4, height);
        for p in level.platforms.iter().take(7) {
            assert_eq!(p.rect.y + p.rect.h, height as i64);
        }
    }
}

#[test]
fn a_screen_higher_than_any_number_leaves_the_ground_at_the_end_of_the_range() {
    let level = fresh(4, u64::MAX);
    assert_eq!(level.platforms.len(), 67);
    for p in level.platforms.iter().take(7) {
        assert_eq!(p.rect.y, i64::MAX);
    }
    // No floating platform counts as ground there, and the ground is out of reach
    // of the numbers: spikes stand on ground platforms only.
    for spike in &level.spikes {
        assert_eq!(spike.rect.y, i64::MAX - 47 * U);
    }
}

#[test]
fn every_egg_stands_on_its_platform() {
    let mut with_eggs = 0;
    for seed in 0..30 {
        let level = fresh(seed, SCREEN);
        assert!(level.eggs.len() <= level.platforms.len());
        // The eggs follow the order of the platforms: look for each egg's
        // platform after the one of the egg before.
        let mut from = 0;
        for (k, egg) in level.eggs.iter().enumerate() {
            assert_eq!((egg.rect.w, egg.rect.h), (40 * U, 40 * U));
            let k = k as i64;
            let found = (from..level.platforms.len()).find(|&i| {
                let p = level.platforms[i].rect;
                egg.rect.y == p.y - 40 * U + 5 * U
                    && egg.rect.x == p.x + (2 * k + 1) * p.w / 4 - 20 * U
            });
            match found {
                Some(i) => from = i + 1,
                None => panic!("egg {} of seed {} stands on no platform", k, seed),
            }
        }
        if !level.eggs.is_empty() {
            with_eggs += 1;
        }
    }
    assert!(with_eggs > 0);
}

#[test]
fn about_three_platforms_in_ten_have_an_egg() {
    let mut eggs = 0;
    let mut platforms = 0;
    for seed in 0..100 {
        let level = fresh(seed, SCREEN);
        eggs += level.eggs.len();
        platforms += level.platforms.len();
    }
    // 6700 platforms: 2010 eggs are expected, with a deviation of about 38.
    assert!(eggs * 100 > platforms * 25);
    assert!(eggs * 100 < platforms * 35);
}

#[test]
fn the_first_egg_lies_left_of_the_middle_of_its_platform() {
    // With k = 0 the egg's centre is a quarter of the platform's width from
    // the platform's left edge.
    for seed in 0..30 {
        let level = fresh(seed, SCREEN);
        if let Some(egg) = level.eggs.first() {
            let centre = egg.rect.x + 20 * U;
            assert!(level
                .platforms
                .iter()
                .any(|p| centre == p.rect.x + p.rect.w / 4 && egg.rect.y == p.rect.y - 35 * U));
        }
    }
}

#[test]
fn there_are_20_chickens_within_their_ranges() {
    let mut left = 0;
    let mut right = 0;
    let mut up = 0;
    let mut down = 0;
    for seed in 0..20 {
        let level = fresh(seed, SCREEN);
        assert_eq!(level.chickens.len(), 20);
        for chicken in &level.chickens {
            let r = chicken.entity.rect;
            assert_eq!((r.w, r.h), (52 * U, 48 * U));
            let cx = r.x + 26 * U;
            let cy = r.y + 24 * U;
            assert!(500 * U <= cx && cx < 4000 * U);
            assert!(100 * U <= cy && cy < 600 * U);
            assert_eq!(cx % 10_000, 0);
            assert_eq!(cy % 10_000, 0);
            let v = chicken.velocity;
            assert!(50_000 <= v.x.abs() && v.x.abs() < 150_000);
            assert!(30_000 <= v.y.abs() && v.y.abs() < 80_000);
            if v.x < 0 {
                left += 1;
            } else {
                right += 1;
            }
            if v.y < 0 {
                up += 1;
            } else {
                down += 1;
            }
        }
    }
    // 400 chickens: each direction is expected 200 times.
    assert!(left > 140 && right > 140);
    assert!(up > 140 && down > 140);
}

#[test]
fn every_spike_stands_at_the_right_edge_of_a_platform_that_counts_as_ground() {
    let mut seen = 0;
    for seed in 0..30 {
        let level = fresh(seed, SCREEN);
        let mut from = 0;
        for spike in &level.spikes {
            assert_eq!((spike.rect.w, spike.rect.h), (60 * U, 52 * U));
            let found = (from..level.platforms.len()).find(|&i| {
                let p = level.platforms[i].rect;
                2 * p.y + p.h > 2 * (768 * U - 141 * U)
                    && spike.rect.x == p.x + p.w - 30 * U
                    && spike.rect.y == p.y - 52 * U + 5 * U
            });
            match found {
                Some(i) => from = i + 1,
                None => panic!("a spike of seed {} stands on no ground", seed),
            }
            seen += 1;
        }
    }
    assert!(seen > 0);
}

#[test]
fn on_a_high_screen_only_the_ground_platforms_can_have_spikes() {
    // With the ground at 2019 no floating platform has its centre below it.
    for seed in 0..30 {
        let level = fresh(seed, 2_160_000_000);
        assert!(level.spikes.len() <= 7);
        for spike in &level.spikes {
            assert_eq!(spike.rect.y, 2019 * U - 47 * U);
            assert!(level.platforms[..7].iter().any(|p| spike.rect.x == p.rect.x + 399 * U));
        }
    }
}

#[test]
fn on_a_low_screen_floating_platforms_count_as_ground_too() {
    // With the ground at -141 every platform has its centre below it, and each
    // gets a spike with one chance in five.
    let mut spikes = 0;
    for seed in 0..50 {
        let level = fresh(seed, 0);
        spikes += level.spikes.len();
    }
    // 3350 platforms: 670 spikes are expected, far more than the 350 ground
    // platforms alone could carry.
    assert!(spikes > 500 && spikes < 840);
}

#[test]
fn the_draws_are_not_all_the_least_of_their_ranges() {
    let level = fresh(9, SCREEN);
    assert!(level.clouds.iter().any(|c| c.entity.rect.y != 25 * U));
    assert!(level.clouds.iter().any(|c| c.velocity.x != 20_000));
    assert!(level.chickens.iter().any(|c| c.entity.rect.x != 474 * U));
    assert!(level.platforms[7..].iter().any(|p| p.rect.y != 150 * U - 35_250_000));
    // With every draw at its least each platform would have an egg.
    assert!(level.eggs.len() < 67);
}

#[test]
fn two_runs_in_a_row_differ() {
    macroquad::rand::srand(21);
    let mut s = State::Start;
    s.new_game(SCREEN);
    let first = match &s {
        State::Game { clouds, .. } => clouds.clone(),
        _ => panic!("no run was begun"),
    };
    s.new_game(SCREEN);
    let second = match &s {
        State::Game { clouds, .. } => clouds.clone(),
        _ => panic!("no run was begun"),
    };
    assert_ne!(first, second);
}

#[test]
fn the_same_seed_gives_the_same_level() {
    let a = fresh(33, SCREEN);
    let b = fresh(33, SCREEN);
    assert_eq!(a.clouds, b.clouds);
    assert_eq!(a.platforms, b.platforms);
    assert_eq!(a.eggs, b.eggs);
    assert_eq!(a.chickens, b.chickens);
    assert_eq!(a.spikes, b.spikes);
}
