use easter_egg::generator::{
    counts_as_ground, lay_egg, make_background_tile, make_chicken, make_cloud,
    make_floating_platform, make_ground_platform, make_house, make_player, set_spike,
};
use easter_egg::{GameEntity, MovingGameEntity, Rect, Vec2};

const U: i64 = 1_000_000;

fn entity(x: i64, y: i64, w: i64, h: i64) -> GameEntity {
    GameEntity { rect: Rect { x, y, w, h } }
}

#[test]
fn the_player_starts_centred_on_its_starting_point() {
    assert_eq!(
        make_player(),
        MovingGameEntity {
            entity: entity(228 * U, 326 * U, 30 * U, 48 * U),
            velocity: Vec2 { x: 0, y: 0 },
        }
    );
}

#[test]
fn the_house_is_centred_on_its_place() {
    assert_eq!(make_house(), entity(2_788_500_000, -20 * U, 423 * U, 624 * U));
}

#[test]
fn background_tiles_are_one_width_apart() {
    assert_eq!(make_background_tile(0), entity(-1536 * U, -816 * U, 1024 * U, 2304 * U));
    assert_eq!(make_background_tile(1), entity(-512 * U, -816 * U, 1024 * U, 2304 * U));
    assert_eq!(make_background_tile(60), entity(59_904 * U, -816 * U, 1024 * U, 2304 * U));
}

#[test]
fn a_cloud_is_built_from_its_draws() {
    assert_eq!(
        make_cloud(0, 10_000, 20_000),
        MovingGameEntity {
            entity: entity(-1417 * U, 25 * U, 786 * U, 150 * U),
            velocity: Vec2 { x: 20_000, y: 0 },
        }
    );
    assert_eq!(
        make_cloud(40, 49_999, 59_999),
        MovingGameEntity {
            entity: entity(18_583 * U, 424_990_000, 786 * U, 150 * U),
            velocity: Vec2 { x: 59_999, y: 0 },
        }
    );
}

#[test]
fn a_ground_platform_is_built_from_its_place_and_the_screen() {
    assert_eq!(
        make_ground_platform(0, 768_000_000),
        entity(-643_500_000, 627 * U, 429 * U, 141 * U)
    );
    assert_eq!(
        make_ground_platform(6, 600_000_000),
        entity(1_756_500_000, 459 * U, 429 * U, 141 * U)
    );
    assert_eq!(make_ground_platform(1, 0).rect.y, -141 * U);
    assert_eq!(make_ground_platform(1, u64::MAX).rect.y, i64::MAX);
}

#[test]
fn a_floating_platform_is_built_from_its_draws() {
    // No offset drawn: 200 units to the left. Centre at (-200, 150).
    assert_eq!(
        make_floating_platform(0, 0, 15_000),
        entity(-307_250_000, 114_750_000, 214_500_000, 70_500_000)
    );
    // The middle of the offsets: none. Centre at (500, 400).
    assert_eq!(
        make_floating_platform(10, 20_000, 40_000),
        entity(392_750_000, 364_750_000, 214_500_000, 70_500_000)
    );
    // The greatest draws. Centre at (2950 + 199.99, 649.99).
    assert_eq!(
        make_floating_platform(59, 39_999, 64_999),
        entity(3_042_740_000, 614_740_000, 214_500_000, 70_500_000)
    );
}

#[test]
fn an_egg_is_laid_by_its_number_in_the_level() {
    let ground = entity(0, 627 * U, 429 * U, 141 * U);
    assert_eq!(lay_egg(&ground, 0), entity(87_250_000, 592 * U, 40 * U, 40 * U));
    assert_eq!(lay_egg(&ground, 1), entity(301_750_000, 592 * U, 40 * U, 40 * U));
    assert_eq!(lay_egg(&ground, 3), entity(730_750_000, 592 * U, 40 * U, 40 * U));
    let bar = entity(1000 * U, 300 * U, 214_500_000, 70_500_000);
    assert_eq!(lay_egg(&bar, 0), entity(1_033_625_000, 265 * U, 40 * U, 40 * U));
    assert_eq!(lay_egg(&bar, 1), entity(1_140_875_000, 265 * U, 40 * U, 40 * U));
    assert_eq!(lay_egg(&bar, 20), entity(3_178_625_000, 265 * U, 40 * U, 40 * U));
}

#[test]
fn the_quarter_of_a_width_is_rounded_down() {
    assert_eq!(lay_egg(&entity(0, 0, 10, 0), 0).rect.x, 2 - 20 * U);
    assert_eq!(lay_egg(&entity(0, 0, 10, 0), 1).rect.x, 7 - 20 * U);
    assert_eq!(lay_egg(&entity(0, 0, -10, 0), 0).rect.x, -3 - 20 * U);
    assert_eq!(lay_egg(&entity(0, 0, -10, 0), 1).rect.x, -8 - 20 * U);
    assert_eq!(lay_egg(&entity(0, 0, -8, 0), 0).rect.x, -2 - 20 * U);
    assert_eq!(lay_egg(&entity(5, 0, i64::MAX, 0), u32::MAX).rect.x, i64::MAX);
    assert_eq!(lay_egg(&entity(5, 0, i64::MIN, 0), u32::MAX).rect.x, i64::MIN);
    assert_eq!(lay_egg(&entity(0, i64::MIN, 0, 0), 0).rect.y, i64::MIN);
}

#[test]
fn a_chicken_is_built_from_its_draws() {
    assert_eq!(
        make_chicken(50_000, 10_000, 0, 0),
        MovingGameEntity {
            entity: entity(474 * U, 76 * U, 52 * U, 48 * U),
            velocity: Vec2 { x: 50_000, y: 30_000 },
        }
    );
    assert_eq!(
        make_chicken(399_999, 59_999, 99_999, 49_999),
        MovingGameEntity {
            entity: entity(3_973_990_000, 575_990_000, 52 * U, 48 * U),
            velocity: Vec2 { x: 149_999, y: 79_999 },
        }
    );
}

#[test]
fn the_upper_half_of_the_draws_flies_the_other_way() {
    assert_eq!(make_chicken(50_000, 10_000, 100_000, 50_000).velocity, Vec2 { x: -50_000, y: -30_000 });
    assert_eq!(
        make_chicken(50_000, 10_000, 199_999, 99_999).velocity,
        Vec2 { x: -149_999, y: -79_999 }
    );
    assert_eq!(make_chicken(50_000, 10_000, 99_999, 50_000).velocity, Vec2 { x: 149_999, y: -30_000 });
}

#[test]
fn a_platform_counts_as_ground_when_its_centre_is_below_the_ground_line() {
    // On a screen 768 high the line is at 627.
    let screen = 768_000_000;
    assert!(counts_as_ground(&entity(0, 627 * U, 429 * U, 141 * U), screen));
    // A floating platform with its centre exactly on the line, and just below.
    assert!(!counts_as_ground(&entity(0, 627 * U - 35_250_000, 214_500_000, 70_500_000), screen));
    assert!(counts_as_ground(&entity(0, 627 * U - 35_249_999, 214_500_000, 70_500_000), screen));
    assert!(!counts_as_ground(&entity(0, 300 * U, 214_500_000, 70_500_000), screen));
    // Half a millionth counts: a height of 1 puts the centre half of one lower.
    assert!(!counts_as_ground(&entity(0, 627 * U, 0, 0), screen));
    assert!(counts_as_ground(&entity(0, 627 * U, 0, 1), screen));
    assert!(!counts_as_ground(&entity(0, i64::MAX, 0, i64::MAX), u64::MAX));
    assert!(!counts_as_ground(&entity(0, i64::MIN + 1, 0, 0), 0));
}

#[test]
fn a_spike_stands_on_the_right_edge_of_its_platform() {
    assert_eq!(
        set_spike(&entity(0, 627 * U, 429 * U, 141 * U)),
        entity(399 * U, 580 * U, 60 * U, 52 * U)
    );
    assert_eq!(
        set_spike(&entity(-643_500_000, 459 * U, 429 * U, 141 * U)),
        entity(-244_500_000, 412 * U, 60 * U, 52 * U)
    );
    assert_eq!(set_spike(&entity(i64::MAX, i64::MAX, i64::MAX, 0)).rect.x, i64::MAX);
}
