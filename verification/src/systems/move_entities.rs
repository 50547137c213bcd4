//! Movement: entities that are not solid move freely; solid entities move
//! one axis at a time, in steps of one unit, and stop where the next step
//! would make them collide with another solid entity.

use std::collections::HashMap;
use vstd::prelude::*;

use crate::components::{Push, Pushable, Size, Solid, Velocity};
use crate::fixed::{
    clamp, direction, fraction, plus, product, sum, times, trunc_div, trunc_rem, unit_step,
    whole_units, Fixed, UNIT,
};
use crate::geo::collision_grid::{colliding, rects_with_custom_of};
use crate::geo::{Axis, CollisionGrid, CollisionRect, Index, Vector};

verus! {

/// What the movement step reads and writes of one entity.
#[derive(Clone, Copy, Debug, PartialEq, Eq)]
pub struct Body {
    pub id: Index,
    pub position: Vector,
    pub velocity: Option<Velocity>,
    pub size: Option<Size>,
    pub solid: Option<Solid>,
    pub push: Option<Push>,
    pub pushable: Option<Pushable>,
}

/// The translations that pushed entities are owed, by entity.
pub type Pushes = Map<Index, Vector>;

/// The distance covered at `speed` in the time `dt`.
pub open spec fn displacement(speed: Fixed, dt: Fixed) -> Fixed {
    times(speed, dt)
}

/// The number of whole units in `distance`, whatever its sign.
pub open spec fn unit_count(distance: Fixed) -> nat {
    trunc_div(if distance >= 0 { distance as int } else { -(distance as int) }, UNIT as int) as nat
}

/// One unit in the direction of `distance`.
pub open spec fn unit_toward(distance: Fixed) -> Fixed {
    (direction(distance as int) * UNIT) as Fixed
}

/// What is left of `distance` after its whole units.
pub open spec fn remainder(distance: Fixed) -> Fixed {
    trunc_rem(distance as int, UNIT as int) as Fixed
}

/// The point `position` moved by `step` along `axis`.
pub open spec fn moved(position: Vector, axis: Axis, step: Fixed) -> Vector {
    match axis {
        Axis::X => (plus(position.0, step), position.1),
        Axis::Y => (position.0, plus(position.1, step)),
    }
}

/// The extent of a size, if there is one.
pub open spec fn extent(size: Option<Size>) -> Option<Vector> {
    match size {
        Some(size) => Some((size.w, size.h)),
        None => None,
    }
}

/// The rectangle that a solid entity has in the grid. What is attached to
/// it says whether the entity can be pushed.
pub open spec fn grid_rect(body: Body) -> CollisionRect<bool> {
    CollisionRect::spec_with_custom(
        body.id,
        body.position,
        extent(body.size),
        match body.pushable {
            Some(_) => Some(true),
            None => None,
        },
    )
}

/// The grid of a tick: the rectangles of the solid entities, in their order.
pub open spec fn solid_rects(bodies: Seq<Body>) -> Seq<CollisionRect<bool>> {
    bodies.filter(|body: Body| body.solid is Some).map_values(|body: Body| grid_rect(body))
}

/// The rectangles of `grid` that the entity `id` of size `size` would
/// collide with at `position`.
pub open spec fn hits_at(
    grid: Seq<CollisionRect<bool>>,
    id: Index,
    size: Option<Size>,
    position: Vector,
) -> Seq<CollisionRect<bool>> {
    colliding(grid, CollisionRect::<bool>::spec_new(id, position, extent(size)))
}

/// Whether the entity `id` of size `size` collides with nothing at
/// `position`.
pub open spec fn free_at(
    grid: Seq<CollisionRect<bool>>,
    id: Index,
    size: Option<Size>,
    position: Vector,
) -> bool {
    hits_at(grid, id, size, position).len() == 0
}

/// Whether every rectangle of `hits` belongs to an entity that can be
/// pushed.
pub open spec fn all_pushable(hits: Seq<CollisionRect<bool>>) -> bool {
    forall|i: int| 0 <= i < hits.len() ==> (#[trigger] hits[i]).custom == Some(true)
}

/// `pushes` with `nudge` more owed to the entity `id` along `axis`.
pub open spec fn nudged(pushes: Pushes, id: Index, axis: Axis, nudge: Fixed) -> Pushes {
    pushes.insert(
        id,
        moved(
            if pushes.contains_key(id) {
                pushes[id]
            } else {
                (0, 0)
            },
            axis,
            nudge,
        ),
    )
}

/// `pushes` with `nudge` more owed along `axis` for each rectangle of
/// `hits`, to the entity that it belongs to.
pub open spec fn nudged_all(
    pushes: Pushes,
    hits: Seq<CollisionRect<bool>>,
    axis: Axis,
    nudge: Fixed,
) -> Pushes
    decreases hits.len(),
{
    if hits.len() == 0 {
        pushes
    } else {
        nudged(nudged_all(pushes, hits.drop_last(), axis, nudge), hits.last().id, axis, nudge)
    }
}

/// One attempt of the entity `id` to move from `position` by `step` along
/// `axis`.
///
/// Where it would collide with nothing at the new position, it moves there.
/// Where it would collide, pushes, and everything in its way can be pushed,
/// it stays, and each entity in its way is owed `nudge` more. Otherwise it
/// stays and is blocked. The result holds its position, the pushes owed, and
/// whether it may go on along this axis.
pub open spec fn attempted(
    grid: Seq<CollisionRect<bool>>,
    id: Index,
    size: Option<Size>,
    pushes_others: bool,
    position: Vector,
    axis: Axis,
    step: Fixed,
    nudge: Fixed,
    pushes: Pushes,
) -> (Vector, Pushes, bool) {
    let target = moved(position, axis, step);
    let hits = hits_at(grid, id, size, target);
    if hits.len() == 0 {
        (target, pushes, true)
    } else if pushes_others && all_pushable(hits) {
        (position, nudged_all(pushes, hits, axis, nudge), true)
    } else {
        (position, pushes, false)
    }
}

/// Up to `steps` attempts in a row to move by `unit`, ended by the first
/// that is blocked.
pub open spec fn swept(
    grid: Seq<CollisionRect<bool>>,
    id: Index,
    size: Option<Size>,
    pushes_others: bool,
    position: Vector,
    axis: Axis,
    unit: Fixed,
    steps: nat,
    pushes: Pushes,
) -> (Vector, Pushes)
    decreases steps,
{
    if steps == 0 {
        (position, pushes)
    } else {
        let (next, owed, goes_on) = attempted(
            grid,
            id,
            size,
            pushes_others,
            position,
            axis,
            unit,
            unit,
            pushes,
        );
        if goes_on {
            swept(grid, id, size, pushes_others, next, axis, unit, (steps - 1) as nat, owed)
        } else {
            (next, owed)
        }
    }
}

/// The movement of an entity by `distance` along one axis: one attempt for
/// each whole unit of `distance` as long as none is blocked, then one
/// attempt for what is left of `distance`, blocked or not.
pub open spec fn resolved_axis(
    grid: Seq<CollisionRect<bool>>,
    id: Index,
    size: Option<Size>,
    pushes_others: bool,
    position: Vector,
    axis: Axis,
    distance: Fixed,
    pushes: Pushes,
) -> (Vector, Pushes) {
    let unit = unit_toward(distance);
    let (reached, owed) = swept(
        grid,
        id,
        size,
        pushes_others,
        position,
        axis,
        unit,
        unit_count(distance),
        pushes,
    );
    let (last, owed_last, _) = attempted(
        grid,
        id,
        size,
        pushes_others,
        reached,
        axis,
        remainder(distance),
        unit,
        owed,
    );
    (last, owed_last)
}

/// The movement of a solid entity in a tick of length `dt`: along x, then
/// along y from where that ended.
pub open spec fn resolved(
    grid: Seq<CollisionRect<bool>>,
    body: Body,
    velocity: Velocity,
    dt: Fixed,
    pushes: Pushes,
) -> (Vector, Pushes) {
    let (after_x, owed_x) = resolved_axis(
        grid,
        body.id,
        body.size,
        body.push is Some,
        body.position,
        Axis::X,
        displacement(velocity.x, dt),
        pushes,
    );
    resolved_axis(
        grid,
        body.id,
        body.size,
        body.push is Some,
        after_x,
        Axis::Y,
        displacement(velocity.y, dt),
        owed_x,
    )
}

/// An entity after the free movement of a tick of length `dt`: one that has
/// a velocity and is not solid has moved by its velocity times `dt` along
/// each axis; any other is as it was.
pub open spec fn free_moved(body: Body, dt: Fixed) -> Body {
    match body.velocity {
        Some(velocity) if body.solid is None => Body {
            position: (
                plus(body.position.0, displacement(velocity.x, dt)),
                plus(body.position.1, displacement(velocity.y, dt)),
            ),
            ..body
        },
        _ => body,
    }
}

/// The entities after the free movement of a tick.
pub open spec fn all_free_moved(bodies: Seq<Body>, dt: Fixed) -> Seq<Body> {
    bodies.map_values(|body: Body| free_moved(body, dt))
}

/// The entities and the pushes owed once the first `count` entities have
/// made their movement against `grid`. Only solid entities with a velocity
/// move here.
pub open spec fn resolved_first(
    grid: Seq<CollisionRect<bool>>,
    bodies: Seq<Body>,
    dt: Fixed,
    count: nat,
) -> (Seq<Body>, Pushes)
    decreases count,
{
    if count == 0 {
        (bodies, Map::empty())
    } else {
        let (before, pushes) = resolved_first(grid, bodies, dt, (count - 1) as nat);
        let body = bodies[count - 1];
        match body.velocity {
            Some(velocity) if body.solid is Some => {
                let (position, owed) = resolved(grid, body, velocity, dt, pushes);
                (before.update(count - 1, Body { position, ..body }), owed)
            },
            _ => (before, pushes),
        }
    }
}

/// An entity after it has been given what `pushes` owes it: one that can be
/// pushed and is owed a translation has moved by it.
pub open spec fn pushed(body: Body, pushes: Pushes) -> Body {
    if body.pushable is Some && pushes.contains_key(body.id) {
        Body {
            position: (
                plus(body.position.0, pushes[body.id].0),
                plus(body.position.1, pushes[body.id].1),
            ),
            ..body
        }
    } else {
        body
    }
}

/// The entities after the movement of the solid ones: the grid is made of
/// the solid entities as they stand, each solid entity with a velocity
/// moves against that grid, in order, and then every pushed entity is given
/// what it is owed.
pub open spec fn all_collided(bodies: Seq<Body>, dt: Fixed) -> Seq<Body> {
    let (moved, pushes) = resolved_first(solid_rects(bodies), bodies, dt, bodies.len());
    moved.map_values(|body: Body| pushed(body, pushes))
}

/// The entities after the movement step of a tick of length `dt`.
pub open spec fn all_moved(bodies: Seq<Body>, dt: Fixed) -> Seq<Body> {
    all_collided(all_free_moved(bodies, dt), dt)
}

/// The position reached from `position` by `steps` steps of `unit` along
/// `axis` that nothing hinders.
pub open spec fn stepped(position: Vector, axis: Axis, unit: Fixed, steps: nat) -> Vector
    decreases steps,
{
    if steps == 0 {
        position
    } else {
        stepped(moved(position, axis, unit), axis, unit, (steps - 1) as nat)
    }
}

/// Whether the entity `id` of size `size` collides with nothing at any of
/// the `steps` positions that lie `unit` apart along `axis`, beyond
/// `position`.
pub open spec fn way_is_free(
    grid: Seq<CollisionRect<bool>>,
    id: Index,
    size: Option<Size>,
    position: Vector,
    axis: Axis,
    unit: Fixed,
    steps: nat,
) -> bool
    decreases steps,
{
    steps == 0 || (free_at(grid, id, size, moved(position, axis, unit)) && way_is_free(
        grid,
        id,
        size,
        moved(position, axis, unit),
        axis,
        unit,
        (steps - 1) as nat,
    ))
}

/// Whether nothing hinders the entity `id` of size `size` on its way from
/// `position` by `distance` along `axis`: it collides with nothing after
/// any of the whole units of the way, nor at its end.
pub open spec fn unhindered(
    grid: Seq<CollisionRect<bool>>,
    id: Index,
    size: Option<Size>,
    position: Vector,
    axis: Axis,
    distance: Fixed,
) -> bool {
    &&& way_is_free(grid, id, size, position, axis, unit_toward(distance), unit_count(distance))
    &&& free_at(
        grid,
        id,
        size,
        moved(
            stepped(position, axis, unit_toward(distance), unit_count(distance)),
            axis,
            remainder(distance),
        ),
    )
}

/// A solid entity that moves by less than one unit along an axis ends at
/// its goal if it collides with nothing there, and stays where it is
/// otherwise: it stops at contact and never passes through.
pub proof fn slow_mover_stops_at_contact(
    grid: Seq<CollisionRect<bool>>,
    id: Index,
    size: Option<Size>,
    pushes_others: bool,
    position: Vector,
    axis: Axis,
    distance: Fixed,
    pushes: Pushes,
)
    requires
        -UNIT < distance < UNIT,
    ensures
        resolved_axis(grid, id, size, pushes_others, position, axis, distance, pushes).0 == if free_at(
            grid,
            id,
            size,
            moved(position, axis, distance),
        ) {
            moved(position, axis, distance)
        } else {
            position
        },
{
    assert(unit_count(distance) == 0);
    assert(remainder(distance) == distance);
}

/// A solid entity never moves to where it collides: along an axis it ends
/// where it began, or at a position where it collides with nothing.
pub proof fn mover_ends_clear_of_solids(
    grid: Seq<CollisionRect<bool>>,
    id: Index,
    size: Option<Size>,
    pushes_others: bool,
    position: Vector,
    axis: Axis,
    distance: Fixed,
    pushes: Pushes,
)
    ensures
        ({
            let end = resolved_axis(
                grid,
                id,
                size,
                pushes_others,
                position,
                axis,
                distance,
                pushes,
            ).0;
            end == position || free_at(grid, id, size, end)
        }),
{
    lemma_swept_ends_clear(
        grid,
        id,
        size,
        pushes_others,
        position,
        axis,
        unit_toward(distance),
        unit_count(distance),
        pushes,
    );
}

/// The movement along one axis leaves the other coordinate alone, and where
/// nothing hinders the entity along y, from where the movement along x has
/// left it, it covers its whole distance along y, whether or not it was
/// blocked along x.
pub proof fn axes_are_resolved_independently(
    grid: Seq<CollisionRect<bool>>,
    body: Body,
    velocity: Velocity,
    dt: Fixed,
    pushes: Pushes,
)
    ensures
        ({
            let after_x = resolved_axis(
                grid,
                body.id,
                body.size,
                body.push is Some,
                body.position,
                Axis::X,
                displacement(velocity.x, dt),
                pushes,
            ).0;
            let end = resolved(grid, body, velocity, dt, pushes).0;
            &&& after_x.1 == body.position.1
            &&& end.0 == after_x.0
            &&& unhindered(grid, body.id, body.size, after_x, Axis::Y, displacement(velocity.y, dt))
                ==> end.1 == plus(body.position.1, displacement(velocity.y, dt))
        }),
{
    let dx = displacement(velocity.x, dt);
    let dy = displacement(velocity.y, dt);
    let pushes_others = body.push is Some;
    let (after_x, owed_x) = resolved_axis(
        grid,
        body.id,
        body.size,
        pushes_others,
        body.position,
        Axis::X,
        dx,
        pushes,
    );
    lemma_swept_keeps_other_coordinate(
        grid,
        body.id,
        body.size,
        pushes_others,
        body.position,
        Axis::X,
        unit_toward(dx),
        unit_count(dx),
        pushes,
    );
    lemma_swept_keeps_other_coordinate(
        grid,
        body.id,
        body.size,
        pushes_others,
        after_x,
        Axis::Y,
        unit_toward(dy),
        unit_count(dy),
        owed_x,
    );
    if unhindered(grid, body.id, body.size, after_x, Axis::Y, dy) {
        lemma_free_way_is_covered(
            grid,
            body.id,
            body.size,
            pushes_others,
            after_x,
            Axis::Y,
            unit_toward(dy),
            unit_count(dy),
            owed_x,
        );
        lemma_steps_and_rest_make_the_distance(after_x, Axis::Y, dy);
    }
}

/// A run of attempts ends where it began or where the entity collides with
/// nothing.
proof fn lemma_swept_ends_clear(
    grid: Seq<CollisionRect<bool>>,
    id: Index,
    size: Option<Size>,
    pushes_others: bool,
    position: Vector,
    axis: Axis,
    unit: Fixed,
    steps: nat,
    pushes: Pushes,
)
    ensures
        ({
            let end = swept(grid, id, size, pushes_others, position, axis, unit, steps, pushes).0;
            end == position || free_at(grid, id, size, end)
        }),
    decreases steps,
{
    if steps > 0 {
        let (next, owed, goes_on) = attempted(
            grid,
            id,
            size,
            pushes_others,
            position,
            axis,
            unit,
            unit,
            pushes,
        );
        if goes_on {
            lemma_swept_ends_clear(
                grid,
                id,
                size,
                pushes_others,
                next,
                axis,
                unit,
                (steps - 1) as nat,
                owed,
            );
        }
    }
}

/// A run of attempts along one axis leaves the other coordinate alone.
proof fn lemma_swept_keeps_other_coordinate(
    grid: Seq<CollisionRect<bool>>,
    id: Index,
    size: Option<Size>,
    pushes_others: bool,
    position: Vector,
    axis: Axis,
    unit: Fixed,
    steps: nat,
    pushes: Pushes,
)
    ensures
        ({
            let end = swept(grid, id, size, pushes_others, position, axis, unit, steps, pushes).0;
            match axis {
                Axis::X => end.1 == position.1,
                Axis::Y => end.0 == position.0,
            }
        }),
    decreases steps,
{
    if steps > 0 {
        let (next, owed, goes_on) = attempted(
            grid,
            id,
            size,
            pushes_others,
            position,
            axis,
            unit,
            unit,
            pushes,
        );
        if goes_on {
            lemma_swept_keeps_other_coordinate(
                grid,
                id,
                size,
                pushes_others,
                next,
                axis,
                unit,
                (steps - 1) as nat,
                owed,
            );
        }
    }
}

/// Where the way is free, a run of attempts covers all of it and pushes
/// nothing.
proof fn lemma_free_way_is_covered(
    grid: Seq<CollisionRect<bool>>,
    id: Index,
    size: Option<Size>,
    pushes_others: bool,
    position: Vector,
    axis: Axis,
    unit: Fixed,
    steps: nat,
    pushes: Pushes,
)
    requires
        way_is_free(grid, id, size, position, axis, unit, steps),
    ensures
        swept(grid, id, size, pushes_others, position, axis, unit, steps, pushes) == (
            stepped(position, axis, unit, steps),
            pushes,
        ),
    decreases steps,
{
    if steps > 0 {
        lemma_free_way_is_covered(
            grid,
            id,
            size,
            pushes_others,
            moved(position, axis, unit),
            axis,
            unit,
            (steps - 1) as nat,
            pushes,
        );
    }
}

/// Steps in one direction add up, also where they saturate.
proof fn lemma_steps_add_up(position: Vector, axis: Axis, unit: Fixed, steps: nat)
    ensures
        stepped(position, axis, unit, steps) == match axis {
            Axis::X => (clamp(position.0 + steps * unit) as Fixed, position.1),
            Axis::Y => (position.0, clamp(position.1 + steps * unit) as Fixed),
        },
    decreases steps,
{
    if steps > 0 {
        let next = moved(position, axis, unit);
        lemma_steps_add_up(next, axis, unit, (steps - 1) as nat);
        assert(steps * unit == unit + (steps - 1) * unit) by (nonlinear_arith);
        assert(unit >= 0 ==> (steps - 1) * unit >= 0) by (nonlinear_arith)
            requires
                steps >= 1,
        ;
        assert(unit <= 0 ==> (steps - 1) * unit <= 0) by (nonlinear_arith)
            requires
                steps >= 1,
        ;
    } else {
        assert(steps * unit == 0) by (nonlinear_arith)
            requires
                steps == 0,
        ;
    }
}

/// The whole units of a distance and what is left of it make up the
/// distance, also where the position saturates.
proof fn lemma_steps_and_rest_make_the_distance(position: Vector, axis: Axis, distance: Fixed)
    ensures
        moved(
            stepped(position, axis, unit_toward(distance), unit_count(distance)),
            axis,
            remainder(distance),
        ) == moved(position, axis, distance),
{
    let unit = unit_toward(distance);
    let steps = unit_count(distance);
    let rest = remainder(distance);
    lemma_steps_add_up(position, axis, unit, steps);
    assert(steps * unit + rest == distance && (distance >= 0 ==> steps * unit >= 0 && rest >= 0)
        && (distance <= 0 ==> steps * unit <= 0 && rest <= 0)) by {
        if distance > 0 {
            assert(steps * unit == steps * 1000) by (nonlinear_arith)
                requires
                    unit == 1000,
            ;
        } else if distance < 0 {
            assert(steps * unit == -(steps * 1000)) by (nonlinear_arith)
                requires
                    unit == -1000,
            ;
        } else {
            assert(steps * unit == 0) by (nonlinear_arith)
                requires
                    unit == 0,
            ;
        }
    }
}

/// The distance covered at `speed` in the time `dt`.
pub fn distance_covered(speed: Fixed, dt: Fixed) -> (distance: Fixed)
    ensures
        distance == displacement(speed, dt),
{
    product(speed, dt)
}

/// The rectangle that the entity `id` would have after a move by `step`
/// along `axis`, and the position that it would have.
pub fn new_collision_rect_and_position<T>(
    id: Index,
    position: Vector,
    size_opt: Option<Size>,
    axis: &Axis,
    step: Fixed,
) -> (out: (CollisionRect<T>, Vector))
    ensures
        out.1 == moved(position, *axis, step),
        out.0 == CollisionRect::<T>::spec_new(id, out.1, extent(size_opt)),
{
    let new_position = (
        if axis.is_x() {
            sum(position.0, step)
        } else {
            position.0
        },
        if axis.is_y() {
            sum(position.1, step)
        } else {
            position.1
        },
    );
    let size = match size_opt {
        Some(size) => Some((size.w, size.h)),
        None => None,
    };
    (CollisionRect::new(id, new_position, size), new_position)
}

pub struct MoveEntitiesSystem;

impl MoveEntitiesSystem {
    /// Moves the entities for a tick of length `dt`.
    pub fn run(&self, dt: Fixed, bodies: &mut Vec<Body>)
        ensures
            final(bodies)@ == all_moved(old(bodies)@, dt),
    {
        self.run_without_collision(dt, bodies);
        self.run_with_collision(dt, bodies);
    }

    /// Moves the entities that are not solid.
    pub fn run_without_collision(&self, dt: Fixed, bodies: &mut Vec<Body>)
        ensures
            final(bodies)@ == all_free_moved(old(bodies)@, dt),
    {
        let mut i: usize = 0;
        while i < bodies.len()
            invariant
                i <= bodies.len(),
                bodies.len() == old(bodies).len(),
                forall|j: int| 0 <= j < i ==> bodies[j] == free_moved(old(bodies)[j], dt),
                forall|j: int| i <= j < bodies.len() ==> bodies[j] == old(bodies)[j],
            decreases bodies.len() - i,
        {
            let body = bodies[i];
            match body.velocity {
                Some(velocity) => {
                    if body.solid.is_none() {
                        let position = (
                            sum(body.position.0, distance_covered(velocity.x, dt)),
                            sum(body.position.1, distance_covered(velocity.y, dt)),
                        );
                        bodies.set(i, Body { position, ..body });
                    }
                },
                None => {},
            }
            i += 1;
        }
        assert(bodies@ =~= all_free_moved(old(bodies)@, dt));
    }

    /// Moves the solid entities, and the entities that they push.
    pub fn run_with_collision(&self, dt: Fixed, bodies: &mut Vec<Body>)
        ensures
            final(bodies)@ == all_collided(old(bodies)@, dt),
    {
        let collision_grid = grid_of(bodies);
        let mut translate_pushables: HashMap<Index, Vector> = HashMap::new();
        let mut i: usize = 0;
        while i < bodies.len()
            invariant
                i <= bodies.len(),
                bodies.len() == old(bodies).len(),
                collision_grid@ == solid_rects(old(bodies)@),
                (bodies@, translate_pushables@) == resolved_first(
                    collision_grid@,
                    old(bodies)@,
                    dt,
                    i as nat,
                ),
                forall|j: int| i <= j < bodies.len() ==> bodies[j] == old(bodies)[j],
            decreases bodies.len() - i,
        {
            let body = bodies[i];
            match body.velocity {
                Some(velocity) => {
                    if body.solid.is_some() {
                        let position = resolve(
                            &collision_grid,
                            &body,
                            velocity,
                            dt,
                            &mut translate_pushables,
                        );
                        bodies.set(i, Body { position, ..body });
                    }
                },
                None => {},
            }
            i += 1;
        }
        let ghost moved = bodies@;
        let mut j: usize = 0;
        while j < bodies.len()
            invariant
                j <= bodies.len(),
                bodies.len() == moved.len(),
                forall|k: int| 0 <= k < j ==> bodies[k] == pushed(moved[k], translate_pushables@),
                forall|k: int| j <= k < bodies.len() ==> bodies[k] == moved[k],
            decreases bodies.len() - j,
        {
            broadcast use vstd::std_specs::hash::group_hash_axioms;

            let body = bodies[j];
            if body.pushable.is_some() {
                match translate_pushables.get(&body.id) {
                    Some(owed) => {
                        let position = (sum(body.position.0, owed.0), sum(body.position.1, owed.1));
                        bodies.set(j, Body { position, ..body });
                    },
                    None => {},
                }
            }
            j += 1;
        }
        assert(bodies@ =~= all_collided(old(bodies)@, dt));
    }
}

/// The grid of the solid entities among `bodies`.
fn grid_of(bodies: &Vec<Body>) -> (grid: CollisionGrid<bool>)
    ensures
        grid@ == solid_rects(bodies@),
{
    let mut data: Vec<(Index, Vector, Option<Vector>, Option<bool>)> = Vec::new();
    let mut i: usize = 0;
    while i < bodies.len()
        invariant
            i <= bodies.len(),
            rects_with_custom_of(data@) == solid_rects(bodies@.take(i as int)),
        decreases bodies.len() - i,
    {
        proof {
            lemma_solid_rects_step(bodies@, i as int);
        }
        let body = bodies[i];
        if body.solid.is_some() {
            let size = match body.size {
                Some(size) => Some((size.w, size.h)),
                None => None,
            };
            let custom = match body.pushable {
                Some(_) => Some(true),
                None => None,
            };
            let ghost before = data@;
            data.push((body.id, body.position, size, custom));
            assert(rects_with_custom_of(data@) == rects_with_custom_of(before).push(
                grid_rect(body),
            ));
        }
        i += 1;
    }
    assert(bodies@.take(bodies@.len() as int) == bodies@);
    CollisionGrid::from(data)
}

/// Looking at one more entity adds its rectangle to the grid exactly when it
/// is solid.
proof fn lemma_solid_rects_step(bodies: Seq<Body>, i: int)
    requires
        0 <= i < bodies.len(),
    ensures
        solid_rects(bodies.take(i + 1)) == if bodies[i].solid is Some {
            solid_rects(bodies.take(i)).push(grid_rect(bodies[i]))
        } else {
            solid_rects(bodies.take(i))
        },
{
    reveal(Seq::filter);
    assert(bodies.take(i + 1).drop_last() == bodies.take(i));
    let solid = |body: Body| body.solid is Some;
    if bodies[i].solid is Some {
        assert(bodies.take(i + 1).filter(solid) == bodies.take(i).filter(solid).push(bodies[i]));
        assert(solid_rects(bodies.take(i + 1)) =~= solid_rects(bodies.take(i)).push(
            grid_rect(bodies[i]),
        ));
    }
}

/// Whether every rectangle of `hits` belongs to an entity that can be
/// pushed.
fn can_push_all(hits: &Vec<&CollisionRect<bool>>) -> (all: bool)
    ensures
        all == all_pushable(hits@.unref()),
{
    let mut i: usize = 0;
    while i < hits.len()
        invariant
            i <= hits.len(),
            forall|j: int| 0 <= j < i ==> (#[trigger] hits@.unref()[j]).custom == Some(true),
        decreases hits.len() - i,
    {
        let pushable = match hits[i].custom {
            Some(pushable) => pushable,
            None => false,
        };
        if !pushable {
            assert(hits@.unref()[i as int].custom != Some(true));
            return false;
        }
        i += 1;
    }
    true
}

/// Notes that each entity of `hits` is owed `nudge` more along `axis`.
fn nudge_all(
    pushes: &mut HashMap<Index, Vector>,
    hits: &Vec<&CollisionRect<bool>>,
    axis: &Axis,
    nudge: Fixed,
)
    ensures
        final(pushes)@ == nudged_all(old(pushes)@, hits@.unref(), *axis, nudge),
{
    broadcast use vstd::std_specs::hash::group_hash_axioms;

    let mut i: usize = 0;
    while i < hits.len()
        invariant
            i <= hits.len(),
            pushes@ == nudged_all(old(pushes)@, hits@.unref().take(i as int), *axis, nudge),
        decreases hits.len() - i,
    {
        assert(hits@.unref().take(i as int + 1).drop_last() == hits@.unref().take(i as int));
        let id = hits[i].id;
        let owed = match pushes.get(&id) {
            Some(owed) => *owed,
            None => (0, 0),
        };
        let owed = match axis {
            Axis::X => (sum(owed.0, nudge), owed.1),
            Axis::Y => (owed.0, sum(owed.1, nudge)),
        };
        pushes.insert(id, owed);
        i += 1;
    }
    assert(hits@.unref().take(hits@.len() as int) == hits@.unref());
}

/// Makes one attempt to move by `step` along `axis`, and says whether the
/// entity may go on along this axis.
fn attempt(
    grid: &CollisionGrid<bool>,
    body: &Body,
    position: &mut Vector,
    axis: &Axis,
    step: Fixed,
    nudge: Fixed,
    pushes: &mut HashMap<Index, Vector>,
) -> (goes_on: bool)
    ensures
        (*final(position), final(pushes)@, goes_on) == attempted(
            grid@,
            body.id,
            body.size,
            body.push is Some,
            *old(position),
            *axis,
            step,
            nudge,
            old(pushes)@,
        ),
{
    let (collision_rect, new_position) = new_collision_rect_and_position::<bool>(
        body.id,
        *position,
        body.size,
        axis,
        step,
    );
    let colliding_with = grid.colliding_with(&collision_rect);
    if colliding_with.len() == 0 {
        *position = new_position;
        true
    } else if body.push.is_some() && can_push_all(&colliding_with) {
        nudge_all(pushes, &colliding_with, axis, nudge);
        true
    } else {
        false
    }
}

/// Moves an entity by `distance` along `axis`, as far as the grid lets it.
fn resolve_axis(
    grid: &CollisionGrid<bool>,
    body: &Body,
    position: &mut Vector,
    axis: &Axis,
    distance: Fixed,
    pushes: &mut HashMap<Index, Vector>,
)
    ensures
        (*final(position), final(pushes)@) == resolved_axis(
            grid@,
            body.id,
            body.size,
            body.push is Some,
            *old(position),
            *axis,
            distance,
            old(pushes)@,
        ),
{
    let steps = whole_units(distance);
    let unit = unit_step(distance);
    let rest = fraction(distance);
    let ghost goal = swept(
        grid@,
        body.id,
        body.size,
        body.push is Some,
        *old(position),
        *axis,
        unit,
        steps as nat,
        old(pushes)@,
    );
    let mut taken: u64 = 0;
    while taken < steps
        invariant
            taken <= steps,
            goal == swept(
                grid@,
                body.id,
                body.size,
                body.push is Some,
                *position,
                *axis,
                unit,
                (steps - taken) as nat,
                pushes@,
            ),
        ensures
            goal == (*position, pushes@),
        decreases steps - taken,
    {
        let goes_on = attempt(grid, body, position, axis, unit, unit, pushes);
        if !goes_on {
            break ;
        }
        taken += 1;
    }
    attempt(grid, body, position, axis, rest, unit, pushes);
}

/// Moves a solid entity for a tick of length `dt`, and returns where it
/// ends.
fn resolve(
    grid: &CollisionGrid<bool>,
    body: &Body,
    velocity: Velocity,
    dt: Fixed,
    pushes: &mut HashMap<Index, Vector>,
) -> (position: Vector)
    ensures
        (position, final(pushes)@) == resolved(grid@, *body, velocity, dt, old(pushes)@),
{
    let mut position = body.position;
    resolve_axis(grid, body, &mut position, &Axis::X, distance_covered(velocity.x, dt), pushes);
    resolve_axis(grid, body, &mut position, &Axis::Y, distance_covered(velocity.y, dt), pushes);
    position
}

} // verus!
