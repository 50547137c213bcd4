use vstd::prelude::*;

verus! {

/// Marks an entity whose collisions with the others are detected every tick.
#[derive(Clone, Copy, Debug, PartialEq, Eq, Structural)]
pub struct CheckCollision;

impl Default for CheckCollision {
    fn default() -> (marker: Self)
        ensures
            marker == CheckCollision,
    {
        CheckCollision
    }
}

} // verus!
