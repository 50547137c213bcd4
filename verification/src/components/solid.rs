use vstd::prelude::*;

verus! {

/// Marks an entity that blocks movement and is blocked by other solid entities.
#[derive(Clone, Copy, Debug, PartialEq, Eq, Structural)]
pub struct Solid;

impl Default for Solid {
    fn default() -> (marker: Self)
        ensures
            marker == Solid,
    {
        Solid
    }
}

} // verus!
