//! Speed limits: no entity is faster along an axis than its limit there.

use vstd::prelude::*;

use crate::components::{MaxVelocity, Velocity};
use crate::fixed::{negated, opposite, Fixed};

verus! {

/// `speed` held to the limit `max`, in either direction. Without a limit
/// the speed is as it was.
pub open spec fn limited(speed: Fixed, max: Option<Fixed>) -> Fixed {
    match max {
        Some(max) => if speed > 0 {
            if speed < max {
                speed
            } else {
                max
            }
        } else if speed < 0 {
            if speed > opposite(max) {
                speed
            } else {
                opposite(max)
            }
        } else {
            speed
        },
        None => speed,
    }
}

pub struct LimitVelocitiesSystem;

impl LimitVelocitiesSystem {
    /// Holds the velocity of one entity to its limits.
    pub fn run(&self, max_velocity: &MaxVelocity, velocity: &mut Velocity)
        ensures
            final(velocity).x == limited(old(velocity).x, max_velocity.x),
            final(velocity).y == limited(old(velocity).y, max_velocity.y),
    {
        velocity.x = limit(velocity.x, max_velocity.x);
        velocity.y = limit(velocity.y, max_velocity.y);
    }
}

/// Holds `speed` to the limit `max`.
fn limit(speed: Fixed, max: Option<Fixed>) -> (held: Fixed)
    ensures
        held == limited(speed, max),
{
    match max {
        Some(max) => {
            if speed > 0 {
                if speed < max {
                    speed
                } else {
                    max
                }
            } else if speed < 0 {
                let lowest = negated(max);
                if speed > lowest {
                    speed
                } else {
                    lowest
                }
            } else {
                speed
            }
        },
        None => speed,
    }
}

} // verus!
