//! Player control: what the player touches and what is pressed decide its
//! speed, its gravity and its speed limit for the tick.

use vstd::prelude::*;

use crate::components::collision::Data;
use crate::components::{Collision, DecreaseVelocity, Gravity, MaxVelocity, Player, State, Velocity};
use crate::fixed::{
    difference, heading, minus, negated, opposite, plus, product, quarter, quarter_of, sum, times,
    Fixed,
};
use crate::geo::{Index, Side};
use crate::settings::{Settings, SettingsPlayerQuickTurnaround};

verus! {

/// What is pressed in a tick.
#[derive(Clone, Copy, Debug, PartialEq, Eq)]
pub struct Input {
    /// The horizontal axis: negative to the left, positive to the right.
    /// There is no value where the axis is not bound.
    pub x: Option<Fixed>,
    /// Whether the jump button is down.
    pub jump: bool,
    /// Whether the run button is down.
    pub run: bool,
}

/// What the control step reads and writes of one player.
#[derive(Clone, Copy, Debug, PartialEq, Eq)]
pub struct Controlled {
    pub player: Player,
    pub velocity: Velocity,
    pub max_velocity: Option<MaxVelocity>,
    pub decr_velocity: Option<DecreaseVelocity>,
    pub gravity: Option<Gravity>,
}

/// Whether `side` is the top or the bottom.
pub open spec fn is_vertical(side: Side) -> bool {
    side == Side::Top || side == Side::Bottom
}

/// Whether `side` is the left or the right.
pub open spec fn is_horizontal(side: Side) -> bool {
    side == Side::Left || side == Side::Right
}

/// The side of the first entity of `solids` that `collisions` records on a
/// vertical side, if `vertical` holds, or on a horizontal side, if it does
/// not.
pub open spec fn first_touch(collisions: Map<Index, Data>, solids: Seq<Index>, vertical: bool)
    -> Option<Side>
    decreases solids.len(),
{
    if solids.len() == 0 {
        None
    } else {
        let id = solids.first();
        if collisions.contains_key(id) && (if vertical {
            is_vertical(collisions[id].side)
        } else {
            is_horizontal(collisions[id].side)
        }) {
            Some(collisions[id].side)
        } else {
            first_touch(collisions, solids.drop_first(), vertical)
        }
    }
}

/// Whether `collisions` records that one of `jump_recharges` has just been
/// entered.
pub open spec fn recharged(collisions: Map<Index, Data>, jump_recharges: Seq<Index>) -> bool {
    exists|i: int|
        0 <= i < jump_recharges.len() && collisions.contains_key(#[trigger] jump_recharges[i])
            && collisions[jump_recharges[i]].side == Side::Inner
            && collisions[jump_recharges[i]].state == State::Enter
}

/// The player after a look at the jump recharges: it has its double jump
/// back if one of them has just been entered.
pub open spec fn after_jump_recharge(
    player: Player,
    collisions: Map<Index, Data>,
    jump_recharges: Seq<Index>,
) -> Player {
    if recharged(collisions, jump_recharges) {
        Player { has_double_jumped: false, ..player }
    } else {
        player
    }
}

/// `speed` raised to zero if it is below, then raised by `strength`: the
/// vertical speed that a jump gives.
pub open spec fn launched(speed: Fixed, strength: Fixed) -> Fixed {
    plus(
        if speed < 0 {
            0
        } else {
            speed
        },
        strength,
    )
}

/// The player and its velocity after wall clinging.
///
/// Touching a wall stops the motion into it. A player that touches a wall
/// and nothing above or below it is on the wall: it slides down no faster
/// than the slide strength, and jumps off the wall when the jump button
/// goes down.
pub open spec fn after_wall_cling(
    settings: Settings,
    jump_pressed: bool,
    player: Player,
    velocity: Velocity,
    touching: (Option<Side>, Option<Side>),
) -> (Player, Velocity) {
    match touching.0 {
        None => (Player { is_on_wall: false, ..player }, velocity),
        Some(side) => {
            let into_wall = (side == Side::Left && velocity.x < 0) || (side == Side::Right
                && velocity.x > 0);
            let x = if into_wall {
                0
            } else {
                velocity.x
            };
            if touching.1 is Some {
                (Player { is_on_wall: false, ..player }, Velocity { x, y: velocity.y })
            } else {
                let slide = opposite(settings.player.slide_strength);
                let y = if velocity.y < slide {
                    slide
                } else {
                    velocity.y
                };
                let clinging = Player { is_on_wall: true, is_jump_button_down: jump_pressed, ..player };
                if should_wall_jump(jump_pressed, player, touching) {
                    (
                        clinging,
                        Velocity {
                            x: if side == Side::Left {
                                plus(x, settings.player.jump_strength)
                            } else if side == Side::Right {
                                minus(x, settings.player.jump_strength)
                            } else {
                                x
                            },
                            y: launched(y, settings.player.jump_strength),
                        },
                    )
                } else {
                    (clinging, Velocity { x, y })
                }
            }
        },
    }
}

/// The player and its velocity after the look at the ground: the player is
/// in the air unless something is below it, and does not move into what is
/// above or below it.
pub open spec fn after_ground_and_air(player: Player, velocity: Velocity, vertical: Option<Side>)
    -> (Player, Velocity) {
    (
        Player { is_in_air: vertical != Some(Side::Bottom), ..player },
        if (vertical == Some(Side::Top) && velocity.y > 0) || (vertical == Some(Side::Bottom)
            && velocity.y < 0) {
            Velocity { x: velocity.x, y: 0 }
        } else {
            velocity
        },
    )
}

/// The horizontal speed once the input has turned against it, under
/// `policy`.
pub open spec fn turned_around(policy: SettingsPlayerQuickTurnaround, speed: Fixed) -> Fixed {
    match policy {
        SettingsPlayerQuickTurnaround::No => speed,
        SettingsPlayerQuickTurnaround::ResetVelocity => 0,
        SettingsPlayerQuickTurnaround::InvertVelocity => opposite(speed),
    }
}

/// The velocity and the speed decrease after the horizontal input `x`.
///
/// An input other than zero first turns the speed around if it heads the
/// other way, by the policy for the ground or for the air, then accelerates
/// it toward the input, and keeps the speed from decreasing in that
/// direction.
pub open spec fn after_move(
    dt: Fixed,
    settings: Settings,
    x: Option<Fixed>,
    player: Player,
    velocity: Velocity,
    decr_velocity: Option<DecreaseVelocity>,
) -> (Velocity, Option<DecreaseVelocity>) {
    match x {
        Some(x) if x != 0 => {
            let policy = if player.is_in_air {
                settings.player.air_quick_turnaround
            } else {
                settings.player.quick_turnaround
            };
            let start = if heading(x as int) != heading(velocity.x as int) {
                turned_around(policy, velocity.x)
            } else {
                velocity.x
            };
            let gain = times(player.spec_current_acceleration().0, dt);
            (
                Velocity {
                    x: plus(
                        start,
                        if x > 0 {
                            gain
                        } else {
                            opposite(gain)
                        },
                    ),
                    y: velocity.y,
                },
                match decr_velocity {
                    Some(decr) => Some(
                        if x > 0 {
                            DecreaseVelocity { should_decrease_x_pos: false, ..decr }
                        } else {
                            DecreaseVelocity { should_decrease_x_neg: false, ..decr }
                        },
                    ),
                    None => None,
                },
            )
        },
        _ => (velocity, decr_velocity),
    }
}

/// Whether the player jumps: the jump button has just gone down, and the
/// player stands on the ground or has its double jump left.
pub open spec fn should_jump(settings: Settings, jump_down: bool, player: Player) -> bool {
    &&& !player.is_in_air || (settings.player.is_double_jump_enabled && !player.has_double_jumped)
    &&& jump_down
    &&& !player.is_jump_button_down
}

/// The vertical speed once the jump button is up: above a quarter of the
/// jump strength it falls by that quarter, but not below it.
pub open spec fn released(speed: Fixed, strength: Fixed) -> Fixed {
    let quarter = quarter_of(strength);
    if speed > quarter {
        if minus(speed, quarter) > quarter {
            minus(speed, quarter)
        } else {
            quarter
        }
    } else {
        speed
    }
}

/// The player, its velocity and its gravity after jumping.
///
/// A player that jumps remembers whether it did so in the air, is launched
/// upward and falls under the gravity of jumps. While the button is up the
/// upward speed is cut and gravity is the ordinary one. The button's state
/// is remembered, and a player on the ground or on a wall has its double
/// jump back.
pub open spec fn after_jump(
    settings: Settings,
    jump_down: bool,
    player: Player,
    velocity: Velocity,
    gravity: Option<Gravity>,
) -> (Player, Velocity, Option<Gravity>) {
    let jumps = should_jump(settings, jump_down, player);
    let double_jumped = if jumps {
        player.is_in_air
    } else {
        player.has_double_jumped
    };
    (
        Player {
            has_double_jumped: double_jumped && player.is_in_air && !player.is_on_wall,
            is_jump_button_down: jump_down,
            ..player
        },
        if jumps {
            Velocity { x: velocity.x, y: launched(velocity.y, settings.player.jump_strength) }
        } else if !jump_down {
            Velocity { x: velocity.x, y: released(velocity.y, settings.player.jump_strength) }
        } else {
            velocity
        },
        match gravity {
            Some(gravity) => Some(
                if jumps {
                    Gravity { x: settings.player.jump_gravity.0, y: settings.player.jump_gravity.1 }
                } else if !jump_down {
                    Gravity { x: settings.player.gravity.0, y: settings.player.gravity.1 }
                } else {
                    gravity
                },
            ),
            None => None,
        },
    )
}

/// The player and its speed limit after the look at the run button: the
/// limit becomes that of running when the button goes down and the ordinary
/// one when it goes up, and the button's state is remembered.
pub open spec fn after_run(run_down: bool, player: Player, max_velocity: Option<MaxVelocity>) -> (
    Player,
    Option<MaxVelocity>,
) {
    (
        Player { is_run_button_down: run_down, ..player },
        match max_velocity {
            Some(max) => Some(
                if run_down && !player.is_run_button_down {
                    MaxVelocity { x: player.run_max_velocity.0, y: player.run_max_velocity.1 }
                } else if !run_down && player.is_run_button_down {
                    MaxVelocity { x: player.max_velocity.0, y: player.max_velocity.1 }
                } else {
                    max
                },
            ),
            None => None,
        },
    )
}

/// The sides on which the player touches solid entities: a horizontal one
/// and a vertical one, each of the first entity of `solids` recorded on such
/// a side.
pub open spec fn touching(collisions: Map<Index, Data>, solids: Seq<Index>) -> (
    Option<Side>,
    Option<Side>,
) {
    (first_touch(collisions, solids, false), first_touch(collisions, solids, true))
}

/// One player after the control step of a tick, and whether it jumped off
/// the ground or in the air.
pub open spec fn controlled_step(
    dt: Fixed,
    settings: Settings,
    input: Input,
    collisions: Map<Index, Data>,
    solids: Seq<Index>,
    jump_recharges: Seq<Index>,
    start: Controlled,
) -> (Controlled, bool) {
    let sides = touching(collisions, solids);
    let recharged = after_jump_recharge(start.player, collisions, jump_recharges);
    let (clung, velocity_clung) = after_wall_cling(
        settings,
        input.jump,
        recharged,
        start.velocity,
        sides,
    );
    let (grounded, velocity_grounded) = after_ground_and_air(clung, velocity_clung, sides.1);
    let (velocity_moved, decr_velocity) = after_move(
        dt,
        settings,
        input.x,
        grounded,
        velocity_grounded,
        start.decr_velocity,
    );
    let jumps = should_jump(settings, input.jump, grounded);
    let (jumped, velocity, gravity) = after_jump(
        settings,
        input.jump,
        grounded,
        velocity_moved,
        start.gravity,
    );
    let (player, max_velocity) = after_run(input.run, jumped, start.max_velocity);
    (Controlled { player, velocity, max_velocity, decr_velocity, gravity }, jumps)
}

/// Whether the player jumps off a wall: it touches a wall and nothing above
/// or below it, and the jump button has just gone down.
pub open spec fn should_wall_jump(
    jump_pressed: bool,
    player: Player,
    touching: (Option<Side>, Option<Side>),
) -> bool {
    &&& touching.0 is Some
    &&& touching.1 is None
    &&& jump_pressed
    &&& !player.is_jump_button_down
}

/// Holding the jump button gives one jump, not one in each tick.
///
/// Every tick remembers the buttons as they were in it. So of two ticks in
/// a row in which the jump button is down, the second launches no jump:
/// none off the ground or in the air, and none off a wall, whatever the
/// player touches and whatever else is pressed.
pub proof fn held_jump_fires_once(
    settings: Settings,
    start: Controlled,
    first_dt: Fixed,
    first_input: Input,
    first_collisions: Map<Index, Data>,
    first_solids: Seq<Index>,
    first_recharges: Seq<Index>,
    second_dt: Fixed,
    second_input: Input,
    second_collisions: Map<Index, Data>,
    second_solids: Seq<Index>,
    second_recharges: Seq<Index>,
)
    requires
        first_input.jump,
        second_input.jump,
    ensures
        ({
            let (between, _) = controlled_step(
                first_dt,
                settings,
                first_input,
                first_collisions,
                first_solids,
                first_recharges,
                start,
            );
            let (end, jumped) = controlled_step(
                second_dt,
                settings,
                second_input,
                second_collisions,
                second_solids,
                second_recharges,
                between,
            );
            &&& between.player.is_jump_button_down
            &&& !jumped
            &&& !should_wall_jump(
                second_input.jump,
                after_jump_recharge(between.player, second_collisions, second_recharges),
                touching(second_collisions, second_solids),
            )
            &&& end.player.is_jump_button_down
        }),
{
}

/// The control step remembers the buttons as they were in the tick.
pub proof fn buttons_are_remembered(
    dt: Fixed,
    settings: Settings,
    input: Input,
    collisions: Map<Index, Data>,
    solids: Seq<Index>,
    jump_recharges: Seq<Index>,
    start: Controlled,
)
    ensures
        ({
            let (end, jumped) = controlled_step(
                dt,
                settings,
                input,
                collisions,
                solids,
                jump_recharges,
                start,
            );
            &&& end.player.is_jump_button_down == input.jump
            &&& end.player.is_run_button_down == input.run
            &&& jumped ==> input.jump && !start.player.is_jump_button_down
        }),
{
}

pub struct ControlPlayerSystem;

impl ControlPlayerSystem {
    /// Controls one player for a tick of length `dt`. `solids` and
    /// `jump_recharges` name the entities that are solid and those that
    /// recharge the double jump. The result says whether the player jumped
    /// off the ground or in the air, which is when the jump is heard.
    pub fn run(
        &self,
        dt: Fixed,
        settings: &Settings,
        input: &Input,
        collision: &Collision,
        solids: &Vec<Index>,
        jump_recharges: &Vec<Index>,
        controlled: &mut Controlled,
    ) -> (jumped: bool)
        ensures
            (*final(controlled), jumped) == controlled_step(
                dt,
                *settings,
                *input,
                collision@,
                solids@,
                jump_recharges@,
                *old(controlled),
            ),
    {
        let sides = self.is_touching_solids_on_sides_horizontally_or_vertically(collision, solids);
        self.handle_jump_recharge(&mut controlled.player, collision, jump_recharges);
        self.handle_wall_cling(
            settings,
            input.jump,
            &mut controlled.player,
            &mut controlled.velocity,
            sides,
        );
        self.handle_on_ground_and_in_air(&mut controlled.player, &mut controlled.velocity, sides);
        self.handle_move(
            dt,
            settings,
            input.x,
            &controlled.player,
            &mut controlled.velocity,
            &mut controlled.decr_velocity,
        );
        let jumped = self.handle_jump(
            settings,
            input.jump,
            &mut controlled.player,
            &mut controlled.velocity,
            &mut controlled.gravity,
        );
        self.handle_run(input.run, &mut controlled.player, &mut controlled.max_velocity);
        jumped
    }

    /// Finds the sides on which the player touches solid entities: a
    /// horizontal one (left or right) and a vertical one (top or bottom).
    pub fn is_touching_solids_on_sides_horizontally_or_vertically(
        &self,
        collision: &Collision,
        solids: &Vec<Index>,
    ) -> (sides: (Option<Side>, Option<Side>))
        ensures
            sides == touching(collision@, solids@),
    {
        let mut touching_horizontally_side: Option<Side> = None;
        let mut touching_vertically_side: Option<Side> = None;
        if collision.in_collision() {
            let mut i: usize = 0;
            assert(solids@.skip(0) == solids@);
            while i < solids.len()
                invariant
                    i <= solids.len(),
                    first_touch(collision@, solids@, false) == match touching_horizontally_side {
                        Some(side) => Some(side),
                        None => first_touch(collision@, solids@.skip(i as int), false),
                    },
                    first_touch(collision@, solids@, true) == match touching_vertically_side {
                        Some(side) => Some(side),
                        None => first_touch(collision@, solids@.skip(i as int), true),
                    },
                ensures
                    touching_horizontally_side == first_touch(collision@, solids@, false),
                    touching_vertically_side == first_touch(collision@, solids@, true),
                decreases solids.len() - i,
            {
                assert(solids@.skip(i as int).drop_first() == solids@.skip(i as int + 1));
                match collision.collision_with(solids[i]) {
                    Some(colliding_with) => {
                        match colliding_with.side {
                            Side::Top | Side::Bottom => {
                                if touching_vertically_side.is_none() {
                                    touching_vertically_side = Some(colliding_with.side);
                                }
                            },
                            Side::Left | Side::Right => {
                                if touching_horizontally_side.is_none() {
                                    touching_horizontally_side = Some(colliding_with.side);
                                }
                            },
                            Side::Inner => {},
                        }
                        if touching_vertically_side.is_some()
                            && touching_horizontally_side.is_some() {
                            break ;
                        }
                    },
                    None => {},
                }
                i += 1;
            }
        } else {
            proof {
                lemma_nothing_touched(collision@, solids@, false);
                lemma_nothing_touched(collision@, solids@, true);
            }
        }
        (touching_horizontally_side, touching_vertically_side)
    }

    /// Gives the player its double jump back if it has just entered a jump
    /// recharge.
    pub fn handle_jump_recharge(
        &self,
        player: &mut Player,
        collision: &Collision,
        jump_recharges: &Vec<Index>,
    )
        ensures
            *final(player) == after_jump_recharge(*old(player), collision@, jump_recharges@),
    {
        let mut i: usize = 0;
        while i < jump_recharges.len()
            invariant
                i <= jump_recharges.len(),
                *player == after_jump_recharge(
                    *old(player),
                    collision@,
                    jump_recharges@.take(i as int),
                ),
            decreases jump_recharges.len() - i,
        {
            let ghost seen = jump_recharges@.take(i as int);
            let ghost next = jump_recharges@.take(i as int + 1);
            match collision.collision_with(jump_recharges[i]) {
                Some(coll_data) => {
                    if coll_data.side.is_inner() && coll_data.state.is_entering() {
                        player.has_double_jumped = false;
                        assert(next[i as int] == jump_recharges[i as int]);
                    }
                },
                None => {},
            }
            proof {
                if recharged(collision@, seen) {
                    let k = choose|k: int|
                        0 <= k < seen.len() && collision@.contains_key(#[trigger] seen[k])
                            && collision@[seen[k]].side == Side::Inner && collision@[seen[k]].state
                            == State::Enter;
                    assert(next[k] == seen[k]);
                }
                if recharged(collision@, next) {
                    let k = choose|k: int|
                        0 <= k < next.len() && collision@.contains_key(#[trigger] next[k])
                            && collision@[next[k]].side == Side::Inner && collision@[next[k]].state
                            == State::Enter;
                    if k < i {
                        assert(seen[k] == next[k]);
                    }
                }
            }
            i += 1;
        }
        assert(jump_recharges@.take(jump_recharges@.len() as int) == jump_recharges@);
    }

    /// Handles clinging to a wall: the slow slide and the wall jump.
    pub fn handle_wall_cling(
        &self,
        settings: &Settings,
        jump_pressed: bool,
        player: &mut Player,
        velocity: &mut Velocity,
        touching: (Option<Side>, Option<Side>),
    )
        ensures
            (*final(player), *final(velocity)) == after_wall_cling(
                *settings,
                jump_pressed,
                *old(player),
                *old(velocity),
                touching,
            ),
    {
        let (touching_horizontally_side, touching_vertically_side) = touching;
        player.is_on_wall = false;
        match touching_horizontally_side {
            Some(side_hor) => {
                let into_wall = match side_hor {
                    Side::Left => velocity.x < 0,
                    Side::Right => velocity.x > 0,
                    _ => false,
                };
                if into_wall {
                    velocity.x = 0;
                }
                if touching_vertically_side.is_none() {
                    player.is_on_wall = true;
                    let slide_strength = negated(settings.player.slide_strength);
                    if velocity.y < slide_strength {
                        velocity.y = slide_strength;
                    }
                    if jump_pressed {
                        if !player.is_jump_button_down {
                            if velocity.y < 0 {
                                velocity.y = 0;
                            }
                            velocity.y = sum(velocity.y, settings.player.jump_strength);
                            match side_hor {
                                Side::Left => {
                                    velocity.x = sum(velocity.x, settings.player.jump_strength);
                                },
                                Side::Right => {
                                    velocity.x = difference(
                                        velocity.x,
                                        settings.player.jump_strength,
                                    );
                                },
                                _ => {},
                            }
                        }
                        player.is_jump_button_down = true;
                    } else {
                        player.is_jump_button_down = false;
                    }
                }
            },
            None => {},
        }
    }

    /// Tells standing on the ground from being in the air.
    pub fn handle_on_ground_and_in_air(
        &self,
        player: &mut Player,
        velocity: &mut Velocity,
        touching: (Option<Side>, Option<Side>),
    )
        ensures
            (*final(player), *final(velocity)) == after_ground_and_air(
                *old(player),
                *old(velocity),
                touching.1,
            ),
    {
        player.is_in_air = true;
        match touching.1 {
            Some(side_vert) => {
                match side_vert {
                    Side::Bottom => {
                        player.is_in_air = false;
                    },
                    _ => {},
                }
                let into_surface = match side_vert {
                    Side::Top => velocity.y > 0,
                    Side::Bottom => velocity.y < 0,
                    _ => false,
                };
                if into_surface {
                    velocity.y = 0;
                }
            },
            None => {},
        }
    }

    /// Moves the player to the left or to the right.
    pub fn handle_move(
        &self,
        dt: Fixed,
        settings: &Settings,
        x: Option<Fixed>,
        player: &Player,
        velocity: &mut Velocity,
        decr_velocity_opt: &mut Option<DecreaseVelocity>,
    )
        ensures
            (*final(velocity), *final(decr_velocity_opt)) == after_move(
                dt,
                *settings,
                x,
                *player,
                *old(velocity),
                *old(decr_velocity_opt),
            ),
    {
        match x {
            Some(x) => {
                if x != 0 {
                    let turned_around = (x >= 0) != (velocity.x >= 0);
                    if turned_around {
                        let qta_setting = if player.on_ground() {
                            settings.player.quick_turnaround
                        } else {
                            settings.player.air_quick_turnaround
                        };
                        match qta_setting {
                            SettingsPlayerQuickTurnaround::ResetVelocity => {
                                velocity.x = 0;
                            },
                            SettingsPlayerQuickTurnaround::InvertVelocity => {
                                velocity.x = negated(velocity.x);
                            },
                            SettingsPlayerQuickTurnaround::No => {},
                        }
                    }
                    let gain = product(player.current_acceleration().0, dt);
                    velocity.x = sum(
                        velocity.x,
                        if x > 0 {
                            gain
                        } else {
                            negated(gain)
                        },
                    );
                    match decr_velocity_opt {
                        Some(decr) => {
                            if x > 0 {
                                decr.dont_decrease_x_when_pos();
                            } else {
                                decr.dont_decrease_x_when_neg();
                            }
                        },
                        None => {},
                    }
                }
            },
            None => {},
        }
    }

    /// Handles jumping off the ground and in the air, and says whether the
    /// player jumped.
    pub fn handle_jump(
        &self,
        settings: &Settings,
        is_jump_down: bool,
        player: &mut Player,
        velocity: &mut Velocity,
        gravity_opt: &mut Option<Gravity>,
    ) -> (jumped: bool)
        ensures
            jumped == should_jump(*settings, is_jump_down, *old(player)),
            (*final(player), *final(velocity), *final(gravity_opt)) == after_jump(
                *settings,
                is_jump_down,
                *old(player),
                *old(velocity),
                *old(gravity_opt),
            ),
    {
        let should_jump = (player.on_ground() || (settings.player.is_double_jump_enabled
            && !player.has_double_jumped)) && is_jump_down && !player.is_jump_button_down;
        if should_jump {
            player.has_double_jumped = player.in_air();
            if velocity.y < 0 {
                velocity.y = 0;
            }
            velocity.y = sum(velocity.y, settings.player.jump_strength);
            match gravity_opt {
                Some(gravity) => {
                    gravity.x = settings.player.jump_gravity.0;
                    gravity.y = settings.player.jump_gravity.1;
                },
                None => {},
            }
        } else if !is_jump_down {
            let decr_jump_strength = quarter(settings.player.jump_strength);
            if velocity.y > decr_jump_strength {
                let lowered = difference(velocity.y, decr_jump_strength);
                velocity.y = if lowered > decr_jump_strength {
                    lowered
                } else {
                    decr_jump_strength
                };
            }
            match gravity_opt {
                Some(gravity) => {
                    gravity.x = settings.player.gravity.0;
                    gravity.y = settings.player.gravity.1;
                },
                None => {},
            }
        }
        player.is_jump_button_down = is_jump_down;
        if player.on_ground() || player.on_wall() {
            player.has_double_jumped = false;
        }
        should_jump
    }

    /// Handles running: the speed limit is higher while the run button is
    /// down.
    pub fn handle_run(
        &self,
        is_run_down: bool,
        player: &mut Player,
        max_velocity_opt: &mut Option<MaxVelocity>,
    )
        ensures
            (*final(player), *final(max_velocity_opt)) == after_run(
                is_run_down,
                *old(player),
                *old(max_velocity_opt),
            ),
    {
        match max_velocity_opt {
            Some(max_vel) => {
                if is_run_down && !player.is_run_button_down {
                    max_vel.x = player.run_max_velocity.0;
                    max_vel.y = player.run_max_velocity.1;
                } else if !is_run_down && player.is_run_button_down {
                    max_vel.x = player.max_velocity.0;
                    max_vel.y = player.max_velocity.1;
                }
            },
            None => {},
        }
        player.is_run_button_down = is_run_down;
    }
}

/// Where nothing is recorded, nothing is touched.
proof fn lemma_nothing_touched(collisions: Map<Index, Data>, solids: Seq<Index>, vertical: bool)
    requires
        collisions.is_empty(),
    ensures
        first_touch(collisions, solids, vertical) is None,
    decreases solids.len(),
{
    if solids.len() > 0 {
        assert(!collisions.dom().contains(solids.first()));
        lemma_nothing_touched(collisions, solids.drop_first(), vertical);
    }
}

} // verus!
