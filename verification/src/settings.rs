//! The values that tune the simulation. They are read once, before the
//! first tick.

use vstd::prelude::*;

use crate::fixed::Fixed;
use crate::geo::Vector;

verus! {

#[derive(Clone, Copy, Debug, PartialEq, Eq)]
pub struct Settings {
    pub camera: SettingsCamera,
    pub player: SettingsPlayer,
}

#[derive(Clone, Copy, Debug, PartialEq, Eq)]
pub struct SettingsCamera {
    pub size: Vector,
    pub inner_size: Vector,
    pub base_speed: Vector,
    pub deadzone: Vector,
}

#[derive(Clone, Copy, Debug, PartialEq, Eq)]
pub struct SettingsPlayer {
    pub size: Vector,
    pub acceleration: Vector,
    pub run_acceleration: Vector,
    pub jump_strength: Fixed,
    pub max_velocity: (Option<Fixed>, Option<Fixed>),
    pub run_max_velocity: (Option<Fixed>, Option<Fixed>),
    pub decr_velocity: Vector,
    pub gravity: Vector,
    pub jump_gravity: Vector,
    pub slide_strength: Fixed,
    pub is_double_jump_enabled: bool,
    pub quick_turnaround: SettingsPlayerQuickTurnaround,
    pub air_quick_turnaround: SettingsPlayerQuickTurnaround,
}

/// What becomes of the player's horizontal speed when the input turns
/// against it.
#[derive(Clone, Copy, Debug, PartialEq, Eq, Structural)]
pub enum SettingsPlayerQuickTurnaround {
    /// The speed is left as it is.
    No,
    /// The speed is set to zero.
    ResetVelocity,
    /// The speed changes its sign.
    InvertVelocity,
}

impl SettingsPlayerQuickTurnaround {
    /// The policy that the number `code` stands for in a settings file.
    pub open spec fn spec_from_code(code: i8) -> Option<SettingsPlayerQuickTurnaround> {
        if code == 0 {
            Some(SettingsPlayerQuickTurnaround::No)
        } else if code == 1 {
            Some(SettingsPlayerQuickTurnaround::ResetVelocity)
        } else if code == 2 {
            Some(SettingsPlayerQuickTurnaround::InvertVelocity)
        } else {
            None
        }
    }

    /// Reads a policy from its number: 0, 1 and 2 stand for `No`,
    /// `ResetVelocity` and `InvertVelocity`, and no other number stands for
    /// a policy.
    pub fn from_code(code: i8) -> (policy: Option<Self>)
        ensures
            policy == Self::spec_from_code(code),
            policy is Some <==> 0 <= code <= 2,
    {
        match code {
            0 => Some(SettingsPlayerQuickTurnaround::No),
            1 => Some(SettingsPlayerQuickTurnaround::ResetVelocity),
            2 => Some(SettingsPlayerQuickTurnaround::InvertVelocity),
            _ => None,
        }
    }
}

} // verus!
