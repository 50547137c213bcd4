use vstd::prelude::*;

verus! {

/// Marks an entity that pushes `Pushable` entities out of its way when it moves.
#[derive(Clone, Copy, Debug, PartialEq, Eq, Structural)]
pub struct Push;

impl Default for Push {
    fn default() -> (marker: Self)
        ensures
            marker == Push,
    {
        Push
    }
}

} // verus!
