use vstd::prelude::*;
use vstd::std_specs::convert::FromSpecImpl;

use crate::fixed::Fixed;

verus! {

/// The width and height of an entity.
#[derive(Clone, Copy, Debug, PartialEq, Eq, Structural)]
pub struct Size {
    pub w: Fixed,
    pub h: Fixed,
}

impl Size {
    pub fn new(w: Fixed, h: Fixed) -> (size: Self)
        ensures
            size == (Size { w, h }),
    {
        Self { w, h }
    }
}

impl From<(Fixed, Fixed)> for Size {
    fn from(data: (Fixed, Fixed)) -> (size: Self) {
        Self::new(data.0, data.1)
    }
}

impl FromSpecImpl<(Fixed, Fixed)> for Size {
    open spec fn obeys_from_spec() -> bool {
        true
    }

    open spec fn from_spec(data: (Fixed, Fixed)) -> Self {
        Size { w: data.0, h: data.1 }
    }
}

} // verus!
