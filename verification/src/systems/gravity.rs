//! Gravity: it accelerates an entity along each axis on which it pulls, and
//! on such an axis the speed does not decrease.

use vstd::prelude::*;

use crate::components::{DecreaseVelocity, Gravity, Velocity};
use crate::fixed::{plus, product, sum, times, Fixed};

verus! {

/// The velocity of an entity after gravity has pulled on it for the time
/// `dt`.
pub open spec fn pulled(dt: Fixed, gravity: Gravity, velocity: Velocity) -> Velocity {
    Velocity {
        x: if gravity.x != 0 {
            plus(velocity.x, times(gravity.x, dt))
        } else {
            velocity.x
        },
        y: if gravity.y != 0 {
            plus(velocity.y, times(gravity.y, dt))
        } else {
            velocity.y
        },
    }
}

/// The speed decrease of an entity under `gravity`: it is in force, in both
/// directions, on exactly the axes on which gravity does not pull.
pub open spec fn decrease_under(gravity: Gravity, decr_velocity: DecreaseVelocity)
    -> DecreaseVelocity {
    DecreaseVelocity {
        x: decr_velocity.x,
        y: decr_velocity.y,
        should_decrease_x_pos: gravity.x == 0,
        should_decrease_x_neg: gravity.x == 0,
        should_decrease_y_pos: gravity.y == 0,
        should_decrease_y_neg: gravity.y == 0,
    }
}

pub struct GravitySystem;

impl GravitySystem {
    /// Lets gravity pull on one entity for a tick of length `dt`.
    pub fn run(
        &self,
        dt: Fixed,
        gravity: &Gravity,
        velocity: &mut Velocity,
        decr_velocity: &mut DecreaseVelocity,
    )
        ensures
            *final(velocity) == pulled(dt, *gravity, *old(velocity)),
            *final(decr_velocity) == decrease_under(*gravity, *old(decr_velocity)),
    {
        if gravity.x != 0 {
            velocity.x = sum(velocity.x, product(gravity.x, dt));
            decr_velocity.should_decrease_x_pos = false;
            decr_velocity.should_decrease_x_neg = false;
        } else {
            decr_velocity.should_decrease_x_pos = true;
            decr_velocity.should_decrease_x_neg = true;
        }
        if gravity.y != 0 {
            velocity.y = sum(velocity.y, product(gravity.y, dt));
            decr_velocity.should_decrease_y_pos = false;
            decr_velocity.should_decrease_y_neg = false;
        } else {
            decr_velocity.should_decrease_y_pos = true;
            decr_velocity.should_decrease_y_neg = true;
        }
    }
}

} // verus!
