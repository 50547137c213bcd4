//! The steps of a tick. They run in this order: player control, gravity,
//! speed limits, movement, camera, collision detection, speed decrease.

pub mod camera;
pub mod collision;
pub mod control_player;
pub mod decrease_velocities;
pub mod gravity;
pub mod limit_velocities;
pub mod move_entities;

pub use camera::CameraSystem;
pub use collision::CollisionSystem;
pub use control_player::ControlPlayerSystem;
pub use decrease_velocities::DecreaseVelocitiesSystem;
pub use gravity::GravitySystem;
pub use limit_velocities::LimitVelocitiesSystem;
pub use move_entities::MoveEntitiesSystem;
