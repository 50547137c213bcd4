use vstd::prelude::*;
use vstd::std_specs::convert::FromSpecImpl;

use crate::fixed::Fixed;

verus! {

/// The rate at which the speed of an entity falls off along each axis, in
/// units per second squared, and the directions of motion in which it does.
#[derive(Clone, Copy, Debug, PartialEq, Eq, Structural)]
pub struct DecreaseVelocity {
    pub x: Fixed,
    pub y: Fixed,
    /// Whether the speed along x falls off while it is positive.
    pub should_decrease_x_pos: bool,
    /// Whether the speed along x falls off while it is negative.
    pub should_decrease_x_neg: bool,
    /// Whether the speed along y falls off while it is positive.
    pub should_decrease_y_pos: bool,
    /// Whether the speed along y falls off while it is negative.
    pub should_decrease_y_neg: bool,
}

impl DecreaseVelocity {
    /// The rates `x` and `y`, in force in every direction.
    pub open spec fn spec_new(x: Fixed, y: Fixed) -> Self {
        DecreaseVelocity {
            x,
            y,
            should_decrease_x_pos: true,
            should_decrease_x_neg: true,
            should_decrease_y_pos: true,
            should_decrease_y_neg: true,
        }
    }

    pub fn new(x: Fixed, y: Fixed) -> (decrease: Self)
        ensures
            decrease == Self::spec_new(x, y),
    {
        Self {
            x,
            y,
            should_decrease_x_pos: true,
            should_decrease_x_neg: true,
            should_decrease_y_pos: true,
            should_decrease_y_neg: true,
        }
    }

    /// Keeps the speed along x from falling off while it is positive.
    pub fn dont_decrease_x_when_pos(&mut self)
        ensures
            *final(self) == (DecreaseVelocity { should_decrease_x_pos: false, ..*old(self) }),
    {
        self.should_decrease_x_pos = false;
    }

    /// Keeps the speed along x from falling off while it is negative.
    pub fn dont_decrease_x_when_neg(&mut self)
        ensures
            *final(self) == (DecreaseVelocity { should_decrease_x_neg: false, ..*old(self) }),
    {
        self.should_decrease_x_neg = false;
    }
}

impl From<(Fixed, Fixed)> for DecreaseVelocity {
    fn from(data: (Fixed, Fixed)) -> (decrease: Self) {
        Self::new(data.0, data.1)
    }
}

impl FromSpecImpl<(Fixed, Fixed)> for DecreaseVelocity {
    open spec fn obeys_from_spec() -> bool {
        true
    }

    open spec fn from_spec(data: (Fixed, Fixed)) -> Self {
        Self::spec_new(data.0, data.1)
    }
}

impl Default for DecreaseVelocity {
    fn default() -> (decrease: Self)
        ensures
            decrease == Self::spec_new(0, 0),
    {
        Self::new(0, 0)
    }
}

} // verus!
