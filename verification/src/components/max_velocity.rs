use vstd::prelude::*;
use vstd::std_specs::convert::FromSpecImpl;

use crate::fixed::Fixed;

verus! {

/// The greatest speed that an entity may have along each axis, in either
/// direction. An axis without a value is not limited.
#[derive(Clone, Copy, Debug, PartialEq, Eq)]
pub struct MaxVelocity {
    pub x: Option<Fixed>,
    pub y: Option<Fixed>,
}

impl MaxVelocity {
    pub fn with_xy(x: Fixed, y: Fixed) -> (max: Self)
        ensures
            max == (MaxVelocity { x: Some(x), y: Some(y) }),
    {
        Self { x: Some(x), y: Some(y) }
    }

    pub fn with_x(x: Fixed) -> (max: Self)
        ensures
            max == (MaxVelocity { x: Some(x), y: None }),
    {
        Self { x: Some(x), y: None }
    }

    pub fn with_y(y: Fixed) -> (max: Self)
        ensures
            max == (MaxVelocity { x: None, y: Some(y) }),
    {
        Self { x: None, y: Some(y) }
    }
}

impl From<(Fixed, Fixed)> for MaxVelocity {
    fn from(data: (Fixed, Fixed)) -> (max: Self) {
        Self::with_xy(data.0, data.1)
    }
}

impl FromSpecImpl<(Fixed, Fixed)> for MaxVelocity {
    open spec fn obeys_from_spec() -> bool {
        true
    }

    open spec fn from_spec(data: (Fixed, Fixed)) -> Self {
        MaxVelocity { x: Some(data.0), y: Some(data.1) }
    }
}

impl From<(Option<Fixed>, Option<Fixed>)> for MaxVelocity {
    fn from(data: (Option<Fixed>, Option<Fixed>)) -> (max: Self) {
        Self { x: data.0, y: data.1 }
    }
}

impl FromSpecImpl<(Option<Fixed>, Option<Fixed>)> for MaxVelocity {
    open spec fn obeys_from_spec() -> bool {
        true
    }

    open spec fn from_spec(data: (Option<Fixed>, Option<Fixed>)) -> Self {
        MaxVelocity { x: data.0, y: data.1 }
    }
}

} // verus!
