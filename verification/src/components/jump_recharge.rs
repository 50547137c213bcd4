use vstd::prelude::*;

verus! {

/// Marks an entity that gives the player its double jump back when the player enters it.
#[derive(Clone, Copy, Debug, PartialEq, Eq, Structural)]
pub struct JumpRecharge;

impl Default for JumpRecharge {
    fn default() -> (marker: Self)
        ensures
            marker == JumpRecharge,
    {
        JumpRecharge
    }
}

} // verus!
