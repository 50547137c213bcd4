use vstd::prelude::*;
use vstd::std_specs::convert::FromSpecImpl;

use crate::fixed::Fixed;

verus! {

/// The acceleration that pulls on an entity along each axis, in units per
/// second squared.
#[derive(Clone, Copy, Debug, PartialEq, Eq, Structural)]
pub struct Gravity {
    pub x: Fixed,
    pub y: Fixed,
}

impl Gravity {
    pub fn new(x: Fixed, y: Fixed) -> (gravity: Self)
        ensures
            gravity == (Gravity { x, y }),
    {
        Self { x, y }
    }
}

impl From<(Fixed, Fixed)> for Gravity {
    fn from(data: (Fixed, Fixed)) -> (gravity: Self) {
        Self::new(data.0, data.1)
    }
}

impl FromSpecImpl<(Fixed, Fixed)> for Gravity {
    open spec fn obeys_from_spec() -> bool {
        true
    }

    open spec fn from_spec(data: (Fixed, Fixed)) -> Self {
        Gravity { x: data.0, y: data.1 }
    }
}

} // verus!
