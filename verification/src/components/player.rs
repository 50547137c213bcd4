use vstd::prelude::*;

use crate::fixed::Fixed;
use crate::geo::Vector;

verus! {

/// The state of the player that the control step keeps from tick to tick.
#[derive(Clone, Copy, Debug, PartialEq, Eq)]
pub struct Player {
    pub acceleration: Vector,
    pub run_acceleration: Vector,
    pub max_velocity: (Option<Fixed>, Option<Fixed>),
    pub run_max_velocity: (Option<Fixed>, Option<Fixed>),
    pub is_jump_button_down: bool,
    pub is_run_button_down: bool,
    pub is_in_air: bool,
    pub is_on_wall: bool,
    pub has_double_jumped: bool,
}

impl Player {
    /// The player as it is when nothing has been chosen: it accelerates by
    /// 1500 units per second squared up to 400 units per second, by 2000 up
    /// to 800 when running, and stands on the ground with no button down.
    pub open spec fn spec_default() -> Player {
        Player {
            acceleration: (1_500_000, 0),
            run_acceleration: (2_000_000, 0),
            max_velocity: (Some(400_000), None),
            run_max_velocity: (Some(800_000), None),
            is_jump_button_down: false,
            is_run_button_down: false,
            is_in_air: false,
            is_on_wall: false,
            has_double_jumped: false,
        }
    }

    /// The acceleration in force: that of running while the run button is
    /// down.
    pub open spec fn spec_current_acceleration(self) -> Vector {
        if self.is_run_button_down {
            self.run_acceleration
        } else {
            self.acceleration
        }
    }

    pub fn new() -> (builder: PlayerBuilder)
        ensures
            builder == PlayerBuilder::spec_default(),
    {
        PlayerBuilder::default()
    }

    pub fn current_acceleration(&self) -> (acceleration: Vector)
        ensures
            acceleration == self.spec_current_acceleration(),
    {
        if self.is_run_button_down {
            self.run_acceleration
        } else {
            self.acceleration
        }
    }

    pub fn on_ground(&self) -> (b: bool)
        ensures
            b == !self.is_in_air,
    {
        !self.is_in_air
    }

    pub fn in_air(&self) -> (b: bool)
        ensures
            b == self.is_in_air,
    {
        self.is_in_air
    }

    pub fn on_wall(&self) -> (b: bool)
        ensures
            b == self.is_on_wall,
    {
        self.is_on_wall
    }
}

impl Default for Player {
    fn default() -> (player: Self)
        ensures
            player == Player::spec_default(),
    {
        Player {
            acceleration: (1_500_000, 0),
            run_acceleration: (2_000_000, 0),
            max_velocity: (Some(400_000), None),
            run_max_velocity: (Some(800_000), None),
            is_jump_button_down: false,
            is_run_button_down: false,
            is_in_air: false,
            is_on_wall: false,
            has_double_jumped: false,
        }
    }
}

/// Collects the choices for a `Player`; what is not chosen is taken from the
/// default player.
#[derive(Clone, Copy, Debug, PartialEq, Eq)]
pub struct PlayerBuilder {
    pub acceleration: Option<Vector>,
    pub run_acceleration: Option<Vector>,
    pub max_velocity: Option<(Option<Fixed>, Option<Fixed>)>,
    pub run_max_velocity: Option<(Option<Fixed>, Option<Fixed>)>,
}

impl PlayerBuilder {
    /// The builder in which nothing is chosen.
    pub open spec fn spec_default() -> PlayerBuilder {
        PlayerBuilder {
            acceleration: None,
            run_acceleration: None,
            max_velocity: None,
            run_max_velocity: None,
        }
    }

    /// The player that the choices describe.
    pub open spec fn spec_build(self) -> Player {
        let default = Player::spec_default();
        Player {
            acceleration: match self.acceleration {
                Some(acceleration) => acceleration,
                None => default.acceleration,
            },
            run_acceleration: match self.run_acceleration {
                Some(run_acceleration) => run_acceleration,
                None => default.run_acceleration,
            },
            max_velocity: match self.max_velocity {
                Some(max_velocity) => max_velocity,
                None => default.max_velocity,
            },
            run_max_velocity: match self.run_max_velocity {
                Some(run_max_velocity) => run_max_velocity,
                None => default.run_max_velocity,
            },
            ..default
        }
    }

    pub fn acceleration(self, acceleration: Vector) -> (builder: Self)
        ensures
            builder == (PlayerBuilder { acceleration: Some(acceleration), ..self }),
    {
        let mut builder = self;
        builder.acceleration = Some(acceleration);
        builder
    }

    pub fn run_acceleration(self, run_acceleration: Vector) -> (builder: Self)
        ensures
            builder == (PlayerBuilder { run_acceleration: Some(run_acceleration), ..self }),
    {
        let mut builder = self;
        builder.run_acceleration = Some(run_acceleration);
        builder
    }

    pub fn max_velocity(self, max_velocity: (Option<Fixed>, Option<Fixed>)) -> (builder: Self)
        ensures
            builder == (PlayerBuilder { max_velocity: Some(max_velocity), ..self }),
    {
        let mut builder = self;
        builder.max_velocity = Some(max_velocity);
        builder
    }

    pub fn run_max_velocity(self, run_max_velocity: (Option<Fixed>, Option<Fixed>)) -> (builder:
        Self)
        ensures
            builder == (PlayerBuilder { run_max_velocity: Some(run_max_velocity), ..self }),
    {
        let mut builder = self;
        builder.run_max_velocity = Some(run_max_velocity);
        builder
    }

    pub fn build(self) -> (player: Player)
        ensures
            player == self.spec_build(),
    {
        let default = Player::default();
        Player {
            acceleration: match self.acceleration {
                Some(acceleration) => acceleration,
                None => default.acceleration,
            },
            run_acceleration: match self.run_acceleration {
                Some(run_acceleration) => run_acceleration,
                None => default.run_acceleration,
            },
            max_velocity: match self.max_velocity {
                Some(max_velocity) => max_velocity,
                None => default.max_velocity,
            },
            run_max_velocity: match self.run_max_velocity {
                Some(run_max_velocity) => run_max_velocity,
                None => default.run_max_velocity,
            },
            ..default
        }
    }
}

impl Default for PlayerBuilder {
    fn default() -> (builder: Self)
        ensures
            builder == PlayerBuilder::spec_default(),
    {
        PlayerBuilder {
            acceleration: None,
            run_acceleration: None,
            max_velocity: None,
            run_max_velocity: None,
        }
    }
}

} // verus!
