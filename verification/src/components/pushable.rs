use vstd::prelude::*;

verus! {

/// Marks an entity that `Push` entities can push.
#[derive(Clone, Copy, Debug, PartialEq, Eq, Structural)]
pub struct Pushable;

impl Default for Pushable {
    fn default() -> (marker: Self)
        ensures
            marker == Pushable,
    {
        Pushable
    }
}

} // verus!
