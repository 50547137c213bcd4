//! Collision detection: every entity that asks for it learns which entities
//! touch it, and on which side.

use vstd::prelude::*;

use crate::components::collision::{after_tick, with_collision, Data};
use crate::components::{CheckCollision, Collision, Size};
use crate::fixed::{difference, minus, plus, sum, UNIT};
use crate::geo::collision_grid::{colliding, first_with_id, overlaps};
use crate::geo::{CollisionGrid, CollisionRect, Index, Side, Vector};

verus! {

/// What the detection step reads and writes of one entity.
pub struct Collider {
    pub id: Index,
    pub position: Vector,
    pub size: Option<Size>,
    pub check_collision: Option<CheckCollision>,
    pub collision: Collision,
}

/// The rectangle by which an entity is found to touch others: it is centred
/// one unit to the left of and below the entity, and is one unit wider and
/// higher than it.
pub open spec fn touch_rect(id: Index, position: Vector, size: Option<Size>) -> CollisionRect<()> {
    CollisionRect::spec_with_custom(
        id,
        (minus(position.0, UNIT), minus(position.1, UNIT)),
        match size {
            Some(size) => Some((plus(size.w, UNIT), plus(size.h, UNIT))),
            None => None,
        },
        None,
    )
}

/// The grid of a detection step: the rectangles of all entities, in their
/// order.
pub open spec fn touch_rects(colliders: Seq<Collider>) -> Seq<CollisionRect<()>> {
    colliders.map_values(|collider: Collider| touch_rect(collider.id, collider.position, collider.size))
}

/// Five rectangles cut from one, each carrying the side that it stands for.
pub struct CollisionRectSides {
    pub inner: CollisionRect<Side>,
    pub top: CollisionRect<Side>,
    pub bottom: CollisionRect<Side>,
    pub left: CollisionRect<Side>,
    pub right: CollisionRect<Side>,
}

/// The rectangles that stand for the sides of `rect`. The inner one is
/// `rect` drawn in by one unit on each edge; each of the others is the inner
/// one reaching out to one edge of `rect`.
pub open spec fn sides_of<T>(rect: CollisionRect<T>) -> CollisionRectSides {
    CollisionRectSides {
        inner: CollisionRect {
            id: rect.id,
            top: minus(rect.top, UNIT),
            bottom: plus(rect.bottom, UNIT),
            left: plus(rect.left, UNIT),
            right: minus(rect.right, UNIT),
            custom: Some(Side::Inner),
        },
        top: CollisionRect {
            id: rect.id,
            top: rect.top,
            bottom: plus(rect.bottom, UNIT),
            left: plus(rect.left, UNIT),
            right: minus(rect.right, UNIT),
            custom: Some(Side::Top),
        },
        bottom: CollisionRect {
            id: rect.id,
            top: minus(rect.top, UNIT),
            bottom: rect.bottom,
            left: plus(rect.left, UNIT),
            right: minus(rect.right, UNIT),
            custom: Some(Side::Bottom),
        },
        left: CollisionRect {
            id: rect.id,
            top: minus(rect.top, UNIT),
            bottom: plus(rect.bottom, UNIT),
            left: rect.left,
            right: minus(rect.right, UNIT),
            custom: Some(Side::Left),
        },
        right: CollisionRect {
            id: rect.id,
            top: minus(rect.top, UNIT),
            bottom: plus(rect.bottom, UNIT),
            left: plus(rect.left, UNIT),
            right: rect.right,
            custom: Some(Side::Right),
        },
    }
}

impl CollisionRectSides {
    /// Whether each of the five rectangles carries a side.
    pub open spec fn tagged(&self) -> bool {
        &&& self.inner.custom is Some
        &&& self.top.custom is Some
        &&& self.bottom.custom is Some
        &&& self.left.custom is Some
        &&& self.right.custom is Some
    }

    /// The side carried by the first of the five rectangles that
    /// `target_rect` collides with, taken in the order inner, top, bottom,
    /// left, right.
    pub open spec fn spec_collides_with_side<T>(&self, target_rect: CollisionRect<T>) -> Option<
        Side,
    > {
        if overlaps(target_rect, self.inner) {
            self.inner.custom
        } else if overlaps(target_rect, self.top) {
            self.top.custom
        } else if overlaps(target_rect, self.bottom) {
            self.bottom.custom
        } else if overlaps(target_rect, self.left) {
            self.left.custom
        } else if overlaps(target_rect, self.right) {
            self.right.custom
        } else {
            None
        }
    }

    pub fn collides_with_side<T>(&self, target_rect: &CollisionRect<T>) -> (side: Option<Side>)
        requires
            self.tagged(),
        ensures
            side == self.spec_collides_with_side(*target_rect),
    {
        if CollisionGrid::<()>::do_rects_collide(target_rect, &self.inner) {
            self.inner.custom
        } else if CollisionGrid::<()>::do_rects_collide(target_rect, &self.top) {
            self.top.custom
        } else if CollisionGrid::<()>::do_rects_collide(target_rect, &self.bottom) {
            self.bottom.custom
        } else if CollisionGrid::<()>::do_rects_collide(target_rect, &self.left) {
            self.left.custom
        } else if CollisionGrid::<()>::do_rects_collide(target_rect, &self.right) {
            self.right.custom
        } else {
            None
        }
    }
}

/// Cuts the rectangles that stand for the sides of `rect`.
pub fn create_collision_rects_for_sides_from<T>(rect: &CollisionRect<T>) -> (sides:
    CollisionRectSides)
    ensures
        sides == sides_of(*rect),
        sides.tagged(),
{
    CollisionRectSides {
        inner: CollisionRect {
            id: rect.id,
            top: difference(rect.top, UNIT),
            bottom: sum(rect.bottom, UNIT),
            left: sum(rect.left, UNIT),
            right: difference(rect.right, UNIT),
            custom: Some(Side::Inner),
        },
        top: CollisionRect {
            id: rect.id,
            top: rect.top,
            bottom: sum(rect.bottom, UNIT),
            left: sum(rect.left, UNIT),
            right: difference(rect.right, UNIT),
            custom: Some(Side::Top),
        },
        bottom: CollisionRect {
            id: rect.id,
            top: difference(rect.top, UNIT),
            bottom: rect.bottom,
            left: sum(rect.left, UNIT),
            right: difference(rect.right, UNIT),
            custom: Some(Side::Bottom),
        },
        left: CollisionRect {
            id: rect.id,
            top: difference(rect.top, UNIT),
            bottom: sum(rect.bottom, UNIT),
            left: rect.left,
            right: difference(rect.right, UNIT),
            custom: Some(Side::Left),
        },
        right: CollisionRect {
            id: rect.id,
            top: difference(rect.top, UNIT),
            bottom: sum(rect.bottom, UNIT),
            left: sum(rect.left, UNIT),
            right: rect.right,
            custom: Some(Side::Right),
        },
    }
}

/// The records `collisions` once each rectangle of `hits` that meets one of
/// `sides` has been seen on that side, in the order of `hits`.
pub open spec fn seen_all<T>(
    collisions: Map<Index, Data>,
    sides: CollisionRectSides,
    hits: Seq<CollisionRect<T>>,
) -> Map<Index, Data>
    decreases hits.len(),
{
    if hits.len() == 0 {
        collisions
    } else {
        let before = seen_all(collisions, sides, hits.drop_last());
        match sides.spec_collides_with_side(hits.last()) {
            Some(side) => with_collision(before, hits.last().id, side),
            None => before,
        }
    }
}

/// The records of an entity after the detection step, where `grid` holds
/// the rectangles of all entities.
///
/// An entity that does not ask for detection keeps its records. Of one that
/// does, the rectangle is looked up in the grid; every rectangle that
/// collides with it is seen on the side that it meets; and the tick ends.
pub open spec fn detected(
    grid: Seq<CollisionRect<()>>,
    id: Index,
    check_collision: Option<CheckCollision>,
    collisions: Map<Index, Data>,
) -> Map<Index, Data> {
    if check_collision is Some {
        after_tick(
            match first_with_id(grid, id) {
                Some(rect) => seen_all(collisions, sides_of(rect), colliding(grid, rect)),
                None => collisions,
            },
        )
    } else {
        collisions
    }
}

pub struct CollisionSystem;

impl CollisionSystem {
    /// Detects the collisions of a tick and brings the records of every
    /// entity that asks for it up to date.
    pub fn run(&self, colliders: &mut Vec<Collider>)
        ensures
            final(colliders).len() == old(colliders).len(),
            forall|i: int|
                0 <= i < old(colliders).len() ==> {
                    let before = #[trigger] old(colliders)[i];
                    let after = final(colliders)[i];
                    &&& after.id == before.id
                    &&& after.position == before.position
                    &&& after.size == before.size
                    &&& after.check_collision == before.check_collision
                    &&& after.collision@ == detected(
                        touch_rects(old(colliders)@),
                        before.id,
                        before.check_collision,
                        before.collision@,
                    )
                },
    {
        let collision_grid = touch_grid_of(colliders);
        let mut i: usize = 0;
        while i < colliders.len()
            invariant
                i <= colliders.len(),
                colliders.len() == old(colliders).len(),
                collision_grid@ == touch_rects(old(colliders)@),
                forall|j: int|
                    0 <= j < colliders.len() ==> {
                        let before = #[trigger] old(colliders)[j];
                        let after = colliders[j];
                        &&& after.id == before.id
                        &&& after.position == before.position
                        &&& after.size == before.size
                        &&& after.check_collision == before.check_collision
                        &&& after.collision@ == if j < i {
                            detected(
                                collision_grid@,
                                before.id,
                                before.check_collision,
                                before.collision@,
                            )
                        } else {
                            before.collision@
                        }
                    },
            decreases colliders.len() - i,
        {
            let id = colliders[i].id;
            if colliders[i].check_collision.is_some() {
                let collision = &mut colliders[i].collision;
                match collision_grid.rect_by_id(id) {
                    Some(rect) => {
                        let colliding = collision_grid.colliding_with(rect);
                        let rect_side_rects = create_collision_rects_for_sides_from(rect);
                        see_all(collision, &rect_side_rects, &colliding);
                    },
                    None => {},
                }
                collision.update();
            }
            i += 1;
        }
    }
}

/// The grid of the rectangles of `colliders`.
fn touch_grid_of(colliders: &Vec<Collider>) -> (grid: CollisionGrid<()>)
    ensures
        grid@ == touch_rects(colliders@),
{
    let mut rects: Vec<CollisionRect<()>> = Vec::new();
    let mut i: usize = 0;
    while i < colliders.len()
        invariant
            i <= colliders.len(),
            rects@ == touch_rects(colliders@.take(i as int)),
        decreases colliders.len() - i,
    {
        let collider = &colliders[i];
        let size = match collider.size {
            Some(size) => Some((sum(size.w, UNIT), sum(size.h, UNIT))),
            None => None,
        };
        let rect = CollisionRect::with_custom(
            collider.id,
            (difference(collider.position.0, UNIT), difference(collider.position.1, UNIT)),
            size,
            None,
        );
        rects.push(rect);
        assert(rects@ == touch_rects(colliders@.take(i as int + 1)));
        i += 1;
    }
    assert(colliders@.take(colliders@.len() as int) == colliders@);
    CollisionGrid::new(rects)
}

/// Records each rectangle of `hits` that meets one of `sides` as seen on
/// that side.
fn see_all<T>(collision: &mut Collision, sides: &CollisionRectSides, hits: &Vec<&CollisionRect<T>>)
    requires
        sides.tagged(),
    ensures
        final(collision)@ == seen_all(old(collision)@, *sides, hits@.unref()),
{
    let mut i: usize = 0;
    while i < hits.len()
        invariant
            i <= hits.len(),
            sides.tagged(),
            collision@ == seen_all(old(collision)@, *sides, hits@.unref().take(i as int)),
        decreases hits.len() - i,
    {
        assert(hits@.unref().take(i as int + 1).drop_last() == hits@.unref().take(i as int));
        match sides.collides_with_side(hits[i]) {
            Some(side) => {
                collision.set_collision_with(hits[i].id, side);
            },
            None => {},
        }
        i += 1;
    }
    assert(hits@.unref().take(hits@.len() as int) == hits@.unref());
}

} // verus!
