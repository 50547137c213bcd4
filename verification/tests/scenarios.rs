use platformer::components::{
    CheckCollision, Collision, DecreaseVelocity, Gravity, MaxVelocity, Player, Size, Solid,
    State, Velocity,
};
use platformer::geo::Side;
use platformer::settings::{
    Settings, SettingsCamera, SettingsPlayer, SettingsPlayerQuickTurnaround,
};
use platformer::systems::collision::Collider;
use platformer::systems::control_player::{Controlled, Input};
use platformer::systems::move_entities::Body;
use platformer::systems::{
    CollisionSystem, ControlPlayerSystem, DecreaseVelocitiesSystem, GravitySystem,
    LimitVelocitiesSystem, MoveEntitiesSystem,
};

const PLAYER: u32 = 1;
const PLATFORM: u32 = 2;
const DT: i64 = 16;

fn settings() -> Settings {
    Settings {
        camera: SettingsCamera {
            size: (200_000, 100_000),
            inner_size: (100_000, 50_000),
            base_speed: (250_000, 250_000),
            deadzone: (0, 0),
        },
        player: SettingsPlayer {
            size: (16_000, 32_000),
            acceleration: (1_500_000, 0),
            run_acceleration: (2_000_000, 0),
            jump_strength: 500_000,
            max_velocity: (Some(400_000), None),
            run_max_velocity: (Some(800_000), None),
            decr_velocity: (500_000, 0),
            gravity: (0, -1_000_000),
            jump_gravity: (0, -500_000),
            slide_strength: 100_000,
            is_double_jump_enabled: true,
            quick_turnaround: SettingsPlayerQuickTurnaround::ResetVelocity,
            air_quick_turnaround: SettingsPlayerQuickTurnaround::No,
        },
    }
}

struct World {
    position: (i64, i64),
    controlled: Controlled,
    collision: Collision,
}

impl World {
    fn new(position: (i64, i64), velocity: (i64, i64)) -> World {
        World {
            position,
            controlled: Controlled {
                player: Player::default(),
                velocity: Velocity::new(velocity.0, velocity.1),
                max_velocity: Some(MaxVelocity::from((Some(400_000), None))),
                decr_velocity: Some(DecreaseVelocity::new(500_000, 0)),
                gravity: Some(Gravity::new(0, -1_000_000)),
            },
            collision: Collision::new(),
        }
    }

    fn control(&mut self, input: Input) -> bool {
        ControlPlayerSystem.run(
            DT,
            &settings(),
            &input,
            &self.collision,
            &vec![PLATFORM],
            &vec![],
            &mut self.controlled,
        )
    }

    fn forces(&mut self) {
        let gravity = self.controlled.gravity.unwrap();
        let mut decrease = self.controlled.decr_velocity.unwrap();
        GravitySystem.run(DT, &gravity, &mut self.controlled.velocity, &mut decrease);
        self.controlled.decr_velocity = Some(decrease);
        let max = self.controlled.max_velocity.unwrap();
        LimitVelocitiesSystem.run(&max, &mut self.controlled.velocity);
    }

    fn movement(&mut self) {
        let size = Some(Size::new(16_000, 32_000));
        let mut bodies = vec![
            Body {
                id: PLAYER,
                position: self.position,
                velocity: Some(self.controlled.velocity),
                size,
                solid: Some(Solid),
                push: None,
                pushable: None,
            },
            Body {
                id: PLATFORM,
                position: (0, 0),
                velocity: None,
                size: Some(Size::new(2_000_000, 10_000)),
                solid: Some(Solid),
                push: None,
                pushable: None,
            },
        ];
        MoveEntitiesSystem.run(DT, &mut bodies);
        self.position = bodies[0].position;
        assert_eq!(bodies[1].position, (0, 0));
    }

    fn detection(&mut self) {
        let collision = std::mem::replace(&mut self.collision, Collision::new());
        let mut colliders = vec![
            Collider {
                id: PLAYER,
                position: self.position,
                size: Some(Size::new(16_000, 32_000)),
                check_collision: Some(CheckCollision),
                collision,
            },
            Collider {
                id: PLATFORM,
                position: (0, 0),
                size: Some(Size::new(2_000_000, 10_000)),
                check_collision: None,
                collision: Collision::new(),
            },
        ];
        CollisionSystem.run(&mut colliders);
        self.collision = colliders.swap_remove(0).collision;
    }

    fn slowdown(&mut self) {
        let decrease = self.controlled.decr_velocity.unwrap();
        DecreaseVelocitiesSystem.run(DT, &decrease, &mut self.controlled.velocity);
    }

    fn tick(&mut self, input: Input) -> bool {
        let jumped = self.control(input);
        self.forces();
        self.movement();
        self.detection();
        self.slowdown();
        jumped
    }
}

fn idle() -> Input {
    Input { x: None, jump: false, run: false }
}

#[test]
fn a_resting_player_keeps_its_place_and_loses_its_fall() {
    let mut world = World::new((0, 21_000), (0, -50_000));
    world.collision.set_collision_with(PLATFORM, Side::Bottom);
    world.collision.update();
    assert!(!world.control(idle()));
    assert_eq!(world.controlled.velocity, Velocity::new(0, 0));
    world.controlled.velocity = Velocity::new(0, -50_000);
    world.movement();
    assert_eq!(world.position, (0, 21_000));
}

#[test]
fn a_player_rests_on_a_platform_tick_after_tick() {
    let mut world = World::new((0, 21_000), (0, -50_000));
    world.detection();
    assert_eq!(world.collision.collision_with(PLATFORM).map(|data| data.state), Some(State::Enter));
    for _ in 0..10 {
        assert!(!world.tick(idle()));
        assert_eq!(world.position, (0, 21_000));
        assert_eq!(world.controlled.velocity, Velocity::new(0, -16_000));
        assert!(world.controlled.player.on_ground());
        assert_eq!(
            world.collision.collision_with(PLATFORM).map(|data| (data.side, data.state)),
            Some((Side::Bottom, State::Steady))
        );
    }
}

#[test]
fn a_player_jumps_once_and_comes_down_again() {
    let mut world = World::new((0, 21_000), (0, 0));
    world.detection();
    let held = Input { jump: true, ..idle() };
    assert!(world.tick(held));
    assert_eq!(world.controlled.velocity, Velocity::new(0, 492_000));
    assert_eq!(world.position, (0, 28_872));
    let mut jumps = 1;
    let mut highest = world.position.1;
    let mut ticks = 0;
    while ticks < 500 && (world.position.1 > 21_000 || ticks < 3) {
        if world.tick(held) {
            jumps += 1;
        }
        highest = highest.max(world.position.1);
        ticks += 1;
    }
    assert_eq!(jumps, 1);
    assert!(highest > 100_000);
    assert_eq!(world.position, (0, 21_000));
    assert!(!world.tick(held));
    assert!(!world.tick(idle()));
    assert!(world.controlled.player.on_ground());
    assert!(world.tick(held));
}

#[test]
fn a_player_walks_along_a_platform() {
    let mut world = World::new((0, 21_000), (0, 0));
    world.detection();
    let right = Input { x: Some(1_000), ..idle() };
    world.tick(right);
    assert_eq!(world.controlled.velocity, Velocity::new(16_000, -16_000));
    assert_eq!(world.position, (384, 21_000));
    for _ in 0..100 {
        world.tick(right);
        assert_eq!(world.position.1, 21_000);
        assert!(world.controlled.velocity.x <= 400_000);
    }
    assert!(world.position.0 > 10_000);
    for _ in 0..100 {
        world.tick(idle());
    }
    assert_eq!(world.controlled.velocity.x, 0);
}
