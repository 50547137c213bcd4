use vstd::prelude::*;

use crate::fixed::Fixed;

verus! {

/// The speed of an entity along each axis, in units per second.
#[derive(Clone, Copy, Debug, PartialEq, Eq, Structural)]
pub struct Velocity {
    pub x: Fixed,
    pub y: Fixed,
}

impl Velocity {
    pub fn new(x: Fixed, y: Fixed) -> (velocity: Self)
        ensures
            velocity == (Velocity { x, y }),
    {
        Self { x, y }
    }
}

impl Default for Velocity {
    fn default() -> (velocity: Self)
        ensures
            velocity == (Velocity { x: 0, y: 0 }),
    {
        Self { x: 0, y: 0 }
    }
}

} // verus!
