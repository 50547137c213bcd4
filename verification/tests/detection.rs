use platformer::components::{CheckCollision, Collision, Data, Size, State};
use platformer::geo::{CollisionRect, Side};
use platformer::systems::collision::{create_collision_rects_for_sides_from, Collider};
use platformer::systems::CollisionSystem;

fn collider(id: u32, position: (i64, i64), size: (i64, i64)) -> Collider {
    Collider {
        id,
        position,
        size: Some(Size::new(size.0, size.1)),
        check_collision: Some(CheckCollision),
        collision: Collision::new(),
    }
}

fn seen(collider: &Collider, id: u32) -> Option<(Side, State)> {
    collider.collision.collision_with(id).map(|data| (data.side, data.state))
}

#[test]
fn unit_rects_edge_to_edge_register_as_colliding() {
    let mut colliders = vec![collider(1, (9_500, 0), (1_000, 1_000)), collider(2, (10_500, 0), (1_000, 1_000))];
    CollisionSystem.run(&mut colliders);
    assert!(colliders[0].collision.in_collision_with(2));
    assert!(colliders[1].collision.in_collision_with(1));
    assert_eq!(seen(&colliders[0], 2), Some((Side::Inner, State::Enter)));
    assert_eq!(seen(&colliders[1], 1), Some((Side::Left, State::Enter)));
}

#[test]
fn what_stands_on_a_platform_touches_it_below() {
    let mut colliders =
        vec![collider(1, (0, 21_000), (16_000, 32_000)), collider(2, (0, 0), (100_000, 10_000))];
    CollisionSystem.run(&mut colliders);
    assert_eq!(
        colliders[0].collision.collision_with(2),
        Some(&Data { side: Side::Bottom, state: State::Enter, set_collision_this_frame: false })
    );
    assert!(colliders[1].collision.in_collision_with(1));
}

#[test]
fn what_is_far_apart_does_not_collide() {
    let mut colliders =
        vec![collider(1, (0, 0), (1_000, 1_000)), collider(2, (50_000, 0), (1_000, 1_000))];
    CollisionSystem.run(&mut colliders);
    assert!(!colliders[0].collision.in_collision());
    assert!(!colliders[1].collision.in_collision());
}

#[test]
fn a_collision_is_followed_from_tick_to_tick() {
    let mut colliders =
        vec![collider(1, (0, 21_000), (16_000, 32_000)), collider(2, (0, 0), (100_000, 10_000))];
    CollisionSystem.run(&mut colliders);
    assert_eq!(seen(&colliders[0], 2), Some((Side::Bottom, State::Enter)));
    CollisionSystem.run(&mut colliders);
    assert_eq!(seen(&colliders[0], 2), Some((Side::Bottom, State::Steady)));
    colliders[0].position = (0, 500_000);
    CollisionSystem.run(&mut colliders);
    assert_eq!(seen(&colliders[0], 2), Some((Side::Bottom, State::Leave)));
    assert!(!colliders[0].collision.in_collision_with(2));
    colliders[0].position = (0, 21_000);
    CollisionSystem.run(&mut colliders);
    assert_eq!(seen(&colliders[0], 2), Some((Side::Bottom, State::Enter)));
    colliders[0].position = (0, 500_000);
    CollisionSystem.run(&mut colliders);
    assert_eq!(seen(&colliders[0], 2), Some((Side::Bottom, State::Leave)));
    CollisionSystem.run(&mut colliders);
    assert_eq!(seen(&colliders[0], 2), None);
}

#[test]
fn only_who_asks_is_told() {
    let quiet = Collider { check_collision: None, ..collider(2, (0, 0), (100_000, 10_000)) };
    let mut colliders = vec![collider(1, (0, 21_000), (16_000, 32_000)), quiet];
    colliders[1].collision.set_collision_with(9, Side::Top);
    CollisionSystem.run(&mut colliders);
    assert_eq!(seen(&colliders[0], 2), Some((Side::Bottom, State::Enter)));
    assert_eq!(
        colliders[1].collision.collision_with(9),
        Some(&Data { side: Side::Top, state: State::Enter, set_collision_this_frame: true })
    );
    assert_eq!(seen(&colliders[1], 1), None);
    assert_eq!(colliders[1].position, (0, 0));
    assert_eq!(colliders[1].id, 2);
}

#[test]
fn a_rect_is_cut_into_its_sides() {
    let rect: CollisionRect<()> =
        CollisionRect { id: 4, top: 10_000, bottom: 0, left: -5_000, right: 5_000, custom: None };
    let sides = create_collision_rects_for_sides_from(&rect);
    let edges = |rect: &CollisionRect<Side>| (rect.left, rect.right, rect.bottom, rect.top);
    assert_eq!(edges(&sides.inner), (-4_000, 4_000, 1_000, 9_000));
    assert_eq!(edges(&sides.top), (-4_000, 4_000, 1_000, 10_000));
    assert_eq!(edges(&sides.bottom), (-4_000, 4_000, 0, 9_000));
    assert_eq!(edges(&sides.left), (-5_000, 4_000, 1_000, 9_000));
    assert_eq!(edges(&sides.right), (-4_000, 5_000, 1_000, 9_000));
    assert_eq!(sides.inner.custom, Some(Side::Inner));
    assert_eq!(sides.top.custom, Some(Side::Top));
    assert_eq!(sides.bottom.custom, Some(Side::Bottom));
    assert_eq!(sides.left.custom, Some(Side::Left));
    assert_eq!(sides.right.custom, Some(Side::Right));
    assert_eq!(sides.inner.id, 4);
    assert_eq!(sides.right.id, 4);
}

#[test]
fn the_side_met_first_is_named() {
    let rect: CollisionRect<()> =
        CollisionRect { id: 4, top: 10_000, bottom: 0, left: -5_000, right: 5_000, custom: None };
    let sides = create_collision_rects_for_sides_from(&rect);
    let other = |left: i64, right: i64, bottom: i64, top: i64| -> CollisionRect<()> {
        CollisionRect { id: 5, top, bottom, left, right, custom: None }
    };
    assert_eq!(sides.collides_with_side(&other(-1_000, 1_000, 4_000, 6_000)), Some(Side::Inner));
    assert_eq!(sides.collides_with_side(&other(-1_000, 1_000, 9_500, 12_000)), Some(Side::Top));
    assert_eq!(sides.collides_with_side(&other(-1_000, 1_000, -3_000, 500)), Some(Side::Bottom));
    assert_eq!(sides.collides_with_side(&other(-8_000, -4_500, 4_000, 6_000)), Some(Side::Left));
    assert_eq!(sides.collides_with_side(&other(4_500, 8_000, 4_000, 6_000)), Some(Side::Right));
    assert_eq!(sides.collides_with_side(&other(20_000, 30_000, 4_000, 6_000)), None);
    let same_entity: CollisionRect<()> =
        CollisionRect { id: 4, top: 6_000, bottom: 4_000, left: -1_000, right: 1_000, custom: None };
    assert_eq!(sides.collides_with_side(&same_entity), None);
}
