use easter_egg::units::{displace, saturate};
use easter_egg::{GameEntity, MovingGameEntity, Rect, Vec2};

const U: i64 = 1_000_000;

fn rect(x: i64, y: i64, w: i64, h: i64) -> Rect {
    Rect { x: x * U, y: y * U, w: w * U, h: h * U }
}

fn entity(x: i64, y: i64, w: i64, h: i64) -> GameEntity {
    GameEntity { rect: rect(x, y, w, h) }
}

#[test]
fn collision_bounds_are_inset_by_two_units() {
    let e = entity(10, 20, 30, 48);
    assert_eq!(e.get_collision_bounds(), rect(12, 22, 26, 44));
}

#[test]
fn collision_bounds_of_a_tiny_entity_have_negative_size() {
    let e = entity(0, 0, 3, 1);
    assert_eq!(e.get_collision_bounds(), rect(2, 2, -1, -3));
}

#[test]
fn collision_bounds_stop_at_the_ends_of_the_range() {
    let e = GameEntity { rect: Rect { x: i64::MAX, y: i64::MAX - 1, w: i64::MIN, h: i64::MIN + 1 } };
    assert_eq!(
        e.get_collision_bounds(),
        Rect { x: i64::MAX, y: i64::MAX, w: i64::MIN, h: i64::MIN }
    );
}

#[test]
fn rects_that_share_an_area_overlap() {
    let a = rect(0, 0, 10, 10);
    assert!(a.overlaps(&rect(5, 5, 10, 10)));
    assert!(rect(5, 5, 10, 10).overlaps(&a));
    assert!(a.overlaps(&rect(2, 2, 3, 3)));
    assert!(a.overlaps(&a));
    assert!(a.overlaps(&Rect { x: 10 * U - 1, y: 10 * U - 1, w: U, h: U }));
}

#[test]
fn rects_that_only_share_an_edge_do_not_overlap() {
    let a = rect(0, 0, 10, 10);
    assert!(!a.overlaps(&rect(10, 0, 10, 10)));
    assert!(!a.overlaps(&rect(0, 10, 10, 10)));
    assert!(!a.overlaps(&rect(-10, 0, 10, 10)));
    assert!(!a.overlaps(&rect(10, 10, 5, 5)));
}

#[test]
fn rects_apart_do_not_overlap() {
    let a = rect(0, 0, 10, 10);
    assert!(!a.overlaps(&rect(20, 0, 10, 10)));
    assert!(!a.overlaps(&rect(0, 20, 10, 10)));
    assert!(!a.overlaps(&rect(5, -30, 10, 10)));
}

#[test]
fn rects_without_area_overlap_nothing() {
    let a = rect(0, 0, 10, 10);
    assert!(!a.overlaps(&rect(5, 5, 0, 3)));
    assert!(!a.overlaps(&rect(5, 5, 3, 0)));
    assert!(!a.overlaps(&rect(5, 5, -2, 3)));
    assert!(!rect(5, 5, 3, -1).overlaps(&a));
}

#[test]
fn overlap_is_exact_at_the_ends_of_the_range() {
    let a = Rect { x: i64::MAX - 10, y: 0, w: i64::MAX, h: 10 };
    let b = Rect { x: i64::MAX - 5, y: 5, w: 1, h: 10 };
    assert!(a.overlaps(&b));
    let c = Rect { x: i64::MIN, y: i64::MIN, w: 10, h: 10 };
    assert!(!a.overlaps(&c));
}

#[test]
fn entities_touch_where_their_inset_bounds_overlap() {
    let a = entity(0, 0, 30, 48);
    // The rectangles share a strip 5 wide: inset by 2 on each side, 1 is left.
    assert!(a.touches(&entity(25, 0, 40, 40)));
    // The rectangles share a strip 4 wide: inset by 2 on each side, only an edge is left.
    assert!(!a.touches(&entity(26, 0, 40, 40)));
    // The rectangles share a strip 3 wide, and the inset bounds are apart.
    assert!(!a.touches(&entity(27, 0, 40, 40)));
    assert!(a.touches(&entity(0, 43, 40, 40)));
    assert!(!a.touches(&entity(0, 44, 40, 40)));
}

#[test]
fn apply_velocity_moves_by_velocity_times_time() {
    let mut m = MovingGameEntity {
        entity: entity(100, 200, 30, 48),
        velocity: Vec2 { x: 300_000, y: -500_000 },
    };
    m.apply_velocity(16);
    assert_eq!(m.entity.rect, Rect { x: 104_800_000, y: 192_000_000, w: 30 * U, h: 48 * U });
    assert_eq!(m.velocity, Vec2 { x: 300_000, y: -500_000 });
}

#[test]
fn apply_velocity_over_no_time_changes_nothing() {
    let mut m = MovingGameEntity {
        entity: entity(1, 2, 3, 4),
        velocity: Vec2 { x: 7, y: -9 },
    };
    m.apply_velocity(0);
    assert_eq!(m.entity, entity(1, 2, 3, 4));
}

#[test]
fn apply_velocity_stops_at_the_ends_of_the_range() {
    let mut m = MovingGameEntity {
        entity: GameEntity { rect: Rect { x: i64::MAX - 5, y: i64::MIN + 5, w: 1, h: 1 } },
        velocity: Vec2 { x: i64::MAX, y: i64::MIN },
    };
    m.apply_velocity(u32::MAX);
    assert_eq!(m.entity.rect.x, i64::MAX);
    assert_eq!(m.entity.rect.y, i64::MIN);
}

#[test]
fn saturate_keeps_what_fits_and_clips_the_rest() {
    assert_eq!(saturate(0), 0);
    assert_eq!(saturate(-17), -17);
    assert_eq!(saturate(i64::MAX as i128), i64::MAX);
    assert_eq!(saturate(i64::MAX as i128 + 1), i64::MAX);
    assert_eq!(saturate(i64::MIN as i128 - 1), i64::MIN);
    assert_eq!(saturate(i128::MAX), i64::MAX);
    assert_eq!(saturate(i128::MIN), i64::MIN);
}

#[test]
fn displace_adds_the_product() {
    assert_eq!(displace(10, 3, 4), 22);
    assert_eq!(displace(10, -3, 4), -2);
    assert_eq!(displace(i64::MAX, 1, 1), i64::MAX);
    assert_eq!(displace(0, i64::MIN, u32::MAX), i64::MIN);
}
