use platformer::components::{Push, Pushable, Size, Solid, Velocity};
use platformer::geo::{Axis, CollisionRect};
use platformer::systems::move_entities::{distance_covered, new_collision_rect_and_position, Body};
use platformer::systems::MoveEntitiesSystem;

fn body(id: u32, position: (i64, i64)) -> Body {
    Body { id, position, velocity: None, size: None, solid: None, push: None, pushable: None }
}

fn square(id: u32, position: (i64, i64), side: i64) -> Body {
    Body { size: Some(Size::new(side, side)), solid: Some(Solid), ..body(id, position) }
}

fn positions(bodies: &[Body]) -> Vec<(i64, i64)> {
    bodies.iter().map(|body| body.position).collect()
}

#[test]
fn distance_is_speed_times_time() {
    assert_eq!(distance_covered(100_000, 16), 1_600);
    assert_eq!(distance_covered(-50_000, 16), -800);
    assert_eq!(distance_covered(2_500, 1_000), 2_500);
    assert_eq!(distance_covered(1, 999), 0);
    assert_eq!(distance_covered(i64::MAX, 2_000), i64::MAX);
}

#[test]
fn a_probe_is_the_rect_one_step_along() {
    let size = Some(Size::new(2_000, 4_000));
    let (rect, position) =
        new_collision_rect_and_position::<bool>(3, (1_000, 1_000), size, &Axis::X, -500);
    assert_eq!(position, (500, 1_000));
    assert_eq!((rect.id, rect.left, rect.right, rect.bottom, rect.top), (3, -500, 1_500, -1_000, 3_000));
    assert_eq!(rect.custom, None);
    let (point, position): (CollisionRect<()>, _) =
        new_collision_rect_and_position(3, (1_000, 1_000), None, &Axis::Y, 250);
    assert_eq!(position, (1_000, 1_250));
    assert_eq!((point.left, point.right, point.bottom, point.top), (1_000, 1_000, 1_250, 1_250));
}

#[test]
fn what_is_not_solid_moves_freely() {
    let mut bodies = vec![
        Body { velocity: Some(Velocity::new(100_000, -50_000)), ..body(1, (0, 0)) },
        square(2, (1_000, 0), 10_000),
    ];
    MoveEntitiesSystem.run(16, &mut bodies);
    assert_eq!(positions(&bodies), vec![(1_600, -800), (1_000, 0)]);
}

#[test]
fn what_has_no_velocity_stays() {
    let mut bodies = vec![body(1, (5, 6)), square(2, (7, 8), 1_000)];
    MoveEntitiesSystem.run(1_000, &mut bodies);
    assert_eq!(positions(&bodies), vec![(5, 6), (7, 8)]);
    let mut none: Vec<Body> = Vec::new();
    MoveEntitiesSystem.run(1_000, &mut none);
    assert!(none.is_empty());
}

#[test]
fn a_solid_with_nothing_in_its_way_covers_its_distance() {
    let mut bodies =
        vec![Body { velocity: Some(Velocity::new(2_500, -3_250)), ..square(1, (0, 0), 2_000) }];
    MoveEntitiesSystem.run(1_000, &mut bodies);
    assert_eq!(positions(&bodies), vec![(2_500, -3_250)]);
}

#[test]
fn a_solid_at_rest_does_not_move() {
    let mut bodies = vec![
        Body { velocity: Some(Velocity::new(0, 0)), ..square(1, (0, 0), 2_000) },
        square(2, (500, 0), 2_000),
    ];
    MoveEntitiesSystem.run(1_000, &mut bodies);
    assert_eq!(positions(&bodies), vec![(0, 0), (500, 0)]);
}

#[test]
fn a_solid_stops_where_it_touches_a_wall() {
    let mut bodies = vec![
        Body { velocity: Some(Velocity::new(10_000, 0)), ..square(1, (0, 0), 2_000) },
        square(2, (5_000, 0), 2_000),
    ];
    MoveEntitiesSystem.run(1_000, &mut bodies);
    assert_eq!(positions(&bodies), vec![(3_000, 0), (5_000, 0)]);
}

#[test]
fn a_fast_solid_does_not_pass_through_a_thin_wall() {
    let wall = Body { size: Some(Size::new(1_000, 50_000)), solid: Some(Solid), ..body(2, (10_500, 0)) };
    let mut bodies =
        vec![Body { velocity: Some(Velocity::new(100_000, 0)), ..square(1, (0, 0), 2_000) }, wall];
    MoveEntitiesSystem.run(1_000, &mut bodies);
    assert_eq!(positions(&bodies), vec![(9_000, 0), (10_500, 0)]);
}

#[test]
fn a_slow_solid_stops_short_of_a_wall() {
    let mut bodies = vec![
        Body { velocity: Some(Velocity::new(50_000, 0)), ..square(1, (2_500, 0), 2_000) },
        square(2, (5_000, 0), 2_000),
    ];
    MoveEntitiesSystem.run(16, &mut bodies);
    assert_eq!(positions(&bodies), vec![(2_500, 0), (5_000, 0)]);
    let mut clear = vec![
        Body { velocity: Some(Velocity::new(25_000, 0)), ..square(1, (2_500, 0), 2_000) },
        square(2, (5_000, 0), 2_000),
    ];
    MoveEntitiesSystem.run(16, &mut clear);
    assert_eq!(positions(&clear), vec![(2_900, 0), (5_000, 0)]);
}

#[test]
fn a_solid_blocked_along_x_still_moves_along_y() {
    let mut bodies = vec![
        Body { velocity: Some(Velocity::new(10_000, 4_500)), ..square(1, (3_000, 0), 2_000) },
        Body { size: Some(Size::new(2_000, 100_000)), solid: Some(Solid), ..body(2, (5_000, 0)) },
    ];
    MoveEntitiesSystem.run(1_000, &mut bodies);
    assert_eq!(positions(&bodies), vec![(3_000, 4_500), (5_000, 0)]);
}

#[test]
fn a_player_resting_on_a_platform_does_not_sink() {
    let player = Body {
        velocity: Some(Velocity::new(0, -50_000)),
        size: Some(Size::new(16_000, 32_000)),
        solid: Some(Solid),
        ..body(1, (0, 21_000))
    };
    let platform =
        Body { size: Some(Size::new(100_000, 10_000)), solid: Some(Solid), ..body(2, (0, 0)) };
    for dt in [16, 100, 1_000] {
        let mut bodies = vec![player, platform];
        MoveEntitiesSystem.run(dt, &mut bodies);
        assert_eq!(positions(&bodies), vec![(0, 21_000), (0, 0)]);
        assert_eq!(bodies[0].velocity, Some(Velocity::new(0, -50_000)));
    }
}

#[test]
fn a_solid_falls_onto_a_platform_and_rests_there() {
    let player = Body {
        velocity: Some(Velocity::new(0, -7_300)),
        size: Some(Size::new(16_000, 32_000)),
        solid: Some(Solid),
        ..body(1, (0, 25_000))
    };
    let platform =
        Body { size: Some(Size::new(100_000, 10_000)), solid: Some(Solid), ..body(2, (0, 0)) };
    let mut bodies = vec![player, platform];
    MoveEntitiesSystem.run(1_000, &mut bodies);
    assert_eq!(positions(&bodies), vec![(0, 21_000), (0, 0)]);
}

#[test]
fn every_whole_unit_is_tried_but_no_more() {
    let mut bodies = vec![
        Body { velocity: Some(Velocity::new(1_000, 0)), ..square(1, (0, 0), 2_000) },
        square(2, (3_000, 0), 2_000),
    ];
    MoveEntitiesSystem.run(1_000, &mut bodies);
    assert_eq!(positions(&bodies), vec![(1_000, 0), (3_000, 0)]);
}

#[test]
fn a_pusher_pushes_what_can_be_pushed() {
    let pusher = Body {
        velocity: Some(Velocity::new(3_000, 0)),
        push: Some(Push),
        ..square(1, (0, 0), 2_000)
    };
    let crate_box = Body { pushable: Some(Pushable), ..square(2, (2_000, 0), 2_000) };
    let mut bodies = vec![pusher, crate_box];
    MoveEntitiesSystem.run(1_000, &mut bodies);
    assert_eq!(positions(&bodies), vec![(0, 0), (5_000, 0)]);
}

#[test]
fn a_pusher_pushes_by_a_unit_for_a_fraction() {
    let pusher = Body {
        velocity: Some(Velocity::new(0, -500)),
        push: Some(Push),
        ..square(1, (0, 2_000), 2_000)
    };
    let crate_box = Body { pushable: Some(Pushable), ..square(2, (0, 0), 2_000) };
    let mut bodies = vec![pusher, crate_box];
    MoveEntitiesSystem.run(1_000, &mut bodies);
    assert_eq!(positions(&bodies), vec![(0, 2_000), (0, -1_000)]);
}

#[test]
fn a_pusher_is_blocked_by_what_cannot_be_pushed() {
    let pusher = Body {
        velocity: Some(Velocity::new(3_000, 0)),
        push: Some(Push),
        ..square(1, (0, 0), 2_000)
    };
    let crate_box = Body { pushable: Some(Pushable), ..square(2, (2_000, 500), 2_000) };
    let wall = square(3, (2_000, -500), 2_000);
    let mut bodies = vec![pusher, crate_box, wall];
    MoveEntitiesSystem.run(1_000, &mut bodies);
    assert_eq!(positions(&bodies), vec![(0, 0), (2_000, 500), (2_000, -500)]);
}

#[test]
fn what_does_not_push_is_blocked_by_what_can_be_pushed() {
    let mover = Body { velocity: Some(Velocity::new(3_000, 0)), ..square(1, (0, 0), 2_000) };
    let crate_box = Body { pushable: Some(Pushable), ..square(2, (2_000, 0), 2_000) };
    let mut bodies = vec![mover, crate_box];
    MoveEntitiesSystem.run(1_000, &mut bodies);
    assert_eq!(positions(&bodies), vec![(0, 0), (2_000, 0)]);
}

#[test]
fn solids_move_against_where_the_others_stood() {
    let first = Body { velocity: Some(Velocity::new(2_000, 0)), ..square(1, (0, 0), 2_000) };
    let second = Body { velocity: Some(Velocity::new(-2_000, 0)), ..square(2, (5_000, 0), 2_000) };
    let mut bodies = vec![first, second];
    MoveEntitiesSystem.run(1_000, &mut bodies);
    assert_eq!(positions(&bodies), vec![(2_000, 0), (3_000, 0)]);
}

#[test]
fn the_two_halves_of_the_step_can_be_run_apart() {
    let free = Body { velocity: Some(Velocity::new(1_000, 1_000)), ..body(1, (0, 0)) };
    let solid = Body { velocity: Some(Velocity::new(1_000, 1_000)), ..square(2, (0, 0), 2_000) };
    let mut bodies = vec![free, solid];
    MoveEntitiesSystem.run_without_collision(1_000, &mut bodies);
    assert_eq!(positions(&bodies), vec![(1_000, 1_000), (0, 0)]);
    MoveEntitiesSystem.run_with_collision(1_000, &mut bodies);
    assert_eq!(positions(&bodies), vec![(1_000, 1_000), (1_000, 1_000)]);
}

#[test]
fn positions_saturate_at_the_end_of_the_range() {
    let mut bodies =
        vec![Body { velocity: Some(Velocity::new(i64::MAX, 0)), ..body(1, (i64::MAX - 5, 0)) }];
    MoveEntitiesSystem.run(1_000, &mut bodies);
    assert_eq!(positions(&bodies), vec![(i64::MAX, 0)]);
}
