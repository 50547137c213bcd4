//! What an entity can carry: its collision state and its physical data.

pub mod check_collision;
pub mod collision;
pub mod decrease_velocity;
pub mod gravity;
pub mod jump_recharge;
pub mod max_velocity;
pub mod player;
pub mod push;
pub mod pushable;
pub mod registry;
pub mod size;
pub mod solid;
pub mod velocity;

pub use check_collision::CheckCollision;
pub use collision::{Collision, Data, State};
pub use decrease_velocity::DecreaseVelocity;
pub use gravity::Gravity;
pub use jump_recharge::JumpRecharge;
pub use max_velocity::MaxVelocity;
pub use player::{Player, PlayerBuilder};
pub use push::Push;
pub use pushable::Pushable;
pub use registry::{component_by_name, Named};
pub use size::Size;
pub use solid::Solid;
pub use velocity::Velocity;
