//! Speed decrease: an entity that is not driven slows down, and comes to
//! rest rather than turn back.

use vstd::prelude::*;

use crate::components::{DecreaseVelocity, Velocity};
use crate::fixed::{difference, minus, negated, opposite, product, times, Fixed};

verus! {

/// `speed` after it has decreased at `rate` for the time `dt`.
///
/// A speed decreases only in a direction in which the decrease is in force.
/// It then moves toward zero by `rate` times `dt`, and is zero where that
/// would carry it past zero.
pub open spec fn decreased(speed: Fixed, rate: Fixed, dt: Fixed, when_pos: bool, when_neg: bool)
    -> Fixed {
    if speed > 0 && when_pos {
        let slowed = minus(speed, times(rate, dt));
        if slowed < 0 {
            0
        } else {
            slowed
        }
    } else if speed < 0 && when_neg {
        let slowed = minus(speed, opposite(times(rate, dt)));
        if slowed >= 0 {
            0
        } else {
            slowed
        }
    } else {
        speed
    }
}

pub struct DecreaseVelocitiesSystem;

impl DecreaseVelocitiesSystem {
    /// Slows one entity down for a tick of length `dt`.
    pub fn run(&self, dt: Fixed, decr_velocity: &DecreaseVelocity, velocity: &mut Velocity)
        ensures
            final(velocity).x == decreased(
                old(velocity).x,
                decr_velocity.x,
                dt,
                decr_velocity.should_decrease_x_pos,
                decr_velocity.should_decrease_x_neg,
            ),
            final(velocity).y == decreased(
                old(velocity).y,
                decr_velocity.y,
                dt,
                decr_velocity.should_decrease_y_pos,
                decr_velocity.should_decrease_y_neg,
            ),
    {
        velocity.x = decrease(
            velocity.x,
            decr_velocity.x,
            dt,
            decr_velocity.should_decrease_x_pos,
            decr_velocity.should_decrease_x_neg,
        );
        velocity.y = decrease(
            velocity.y,
            decr_velocity.y,
            dt,
            decr_velocity.should_decrease_y_pos,
            decr_velocity.should_decrease_y_neg,
        );
    }
}

/// Lets `speed` decrease at `rate` for the time `dt`.
fn decrease(speed: Fixed, rate: Fixed, dt: Fixed, when_pos: bool, when_neg: bool) -> (slowed: Fixed)
    ensures
        slowed == decreased(speed, rate, dt, when_pos, when_neg),
{
    if speed > 0 && when_pos {
        let slowed = difference(speed, product(rate, dt));
        if slowed < 0 {
            0
        } else {
            slowed
        }
    } else if speed < 0 && when_neg {
        let slowed = difference(speed, negated(product(rate, dt)));
        if slowed >= 0 {
            0
        } else {
            slowed
        }
    } else {
        speed
    }
}

} // verus!
