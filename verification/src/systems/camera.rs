//! The camera: it is centred on the player, or, where it has an inner
//! size, follows the player once the player leaves the inner area.

use vstd::prelude::*;
use vstd::std_specs::convert::FromSpecImpl;

use crate::components::{Size, Velocity};
use crate::fixed::{
    difference, half, half_of, magnitude, magnitude_of, minus, negated, opposite, plus, product,
    sum, times, Fixed,
};
use crate::geo::collision_grid::overlaps;
use crate::geo::{CollisionGrid, CollisionRect, Index, Vector};

verus! {

/// The speed, for each unit of distance from the player, at which a camera
/// closes in on the player while the player is inside the inner area.
pub const BASE_SPEED: Vector = (250_000, 250_000);

/// The distance from the player within which such a camera rests.
pub const MOVE_IN_PADDING: Fixed = 10_000;

/// The four bands of a camera's view that lie outside its inner area, each
/// with the coordinate of the view's centre along the axis that the band
/// bounds.
pub struct CameraCollisionRects {
    pub top: (CollisionRect<()>, Fixed),
    pub bottom: (CollisionRect<()>, Fixed),
    pub left: (CollisionRect<()>, Fixed),
    pub right: (CollisionRect<()>, Fixed),
}

/// The bands of the view of the camera `id`, centred on `pos`, of size
/// `size`, around an inner area of size `inner_size`.
///
/// The top and bottom bands are as wide as the view and half as high as the
/// view is higher than the inner area; they lie along the view's top and
/// bottom edges. The left and right bands are as high as the view and half
/// as wide as the view is wider than the inner area; they lie along its left
/// and right edges.
pub open spec fn bands_of(id: Index, pos: Vector, size: Vector, inner_size: Vector)
    -> CameraCollisionRects {
    let size_x = (half_of(minus(size.0, inner_size.0)), size.1);
    let size_y = (size.0, half_of(minus(size.1, inner_size.1)));
    CameraCollisionRects {
        top: (
            CollisionRect::spec_new(
                id,
                (pos.0, minus(plus(pos.1, half_of(size.1)), half_of(size_y.1))),
                Some(size_y),
            ),
            pos.1,
        ),
        bottom: (
            CollisionRect::spec_new(
                id,
                (pos.0, plus(minus(pos.1, half_of(size.1)), half_of(size_y.1))),
                Some(size_y),
            ),
            pos.1,
        ),
        left: (
            CollisionRect::spec_new(
                id,
                (plus(minus(pos.0, half_of(size.0)), half_of(size_x.0)), pos.1),
                Some(size_x),
            ),
            pos.0,
        ),
        right: (
            CollisionRect::spec_new(
                id,
                (minus(plus(pos.0, half_of(size.0)), half_of(size_x.0)), pos.1),
                Some(size_x),
            ),
            pos.0,
        ),
    }
}

impl From<(Index, Vector, Vector, Vector)> for CameraCollisionRects {
    fn from(data: (Index, Vector, Vector, Vector)) -> (bands: Self) {
        let (id, pos, size, inner_size) = data;
        let size_x = (half(difference(size.0, inner_size.0)), size.1);
        let size_y = (size.0, half(difference(size.1, inner_size.1)));
        CameraCollisionRects {
            top: (
                CollisionRect::new(
                    id,
                    (pos.0, difference(sum(pos.1, half(size.1)), half(size_y.1))),
                    Some(size_y),
                ),
                pos.1,
            ),
            bottom: (
                CollisionRect::new(
                    id,
                    (pos.0, sum(difference(pos.1, half(size.1)), half(size_y.1))),
                    Some(size_y),
                ),
                pos.1,
            ),
            left: (
                CollisionRect::new(
                    id,
                    (sum(difference(pos.0, half(size.0)), half(size_x.0)), pos.1),
                    Some(size_x),
                ),
                pos.0,
            ),
            right: (
                CollisionRect::new(
                    id,
                    (difference(sum(pos.0, half(size.0)), half(size_x.0)), pos.1),
                    Some(size_x),
                ),
                pos.0,
            ),
        }
    }
}

impl FromSpecImpl<(Index, Vector, Vector, Vector)> for CameraCollisionRects {
    open spec fn obeys_from_spec() -> bool {
        true
    }

    open spec fn from_spec(data: (Index, Vector, Vector, Vector)) -> Self {
        bands_of(data.0, data.1, data.2, data.3)
    }
}

/// What the camera step reads and writes of one camera.
#[derive(Clone, Copy, Debug, PartialEq, Eq)]
pub struct CameraView {
    pub id: Index,
    /// The lower left corner of the view.
    pub position: Vector,
    pub size: Size,
    pub inner_size: Option<Size>,
    pub velocity: Option<Velocity>,
}

/// The speed along one axis of a camera whose centre is at `camera` while
/// the player is at `player`, inside the inner area: none within the
/// padding, and beyond it a speed toward the player that grows with the
/// distance.
pub open spec fn closing_speed(
    base: Fixed,
    player: Fixed,
    camera: Fixed,
    dt: Fixed,
    speed: Fixed,
) -> Fixed {
    let distance = magnitude_of(minus(player, camera));
    if distance <= MOVE_IN_PADDING {
        0
    } else if player > camera {
        times(times(base, distance), dt)
    } else if player < camera {
        times(times(opposite(base), distance), dt)
    } else {
        speed
    }
}

/// A camera after the camera step of a tick of length `dt`, with the player
/// `player_id` at `player_pos`.
///
/// A camera without an inner size is placed so that the player is at the
/// centre of its view. One with an inner size is moved, along each axis,
/// only when the player is in a band outside the inner area: then the edge
/// of the inner area is brought to the player. While the player is in no
/// band, a camera with a velocity closes in on the player.
pub open spec fn followed(dt: Fixed, player_id: Index, player_pos: Vector, camera: CameraView)
    -> CameraView {
    let center = (
        minus(player_pos.0, half_of(camera.size.w)),
        minus(player_pos.1, half_of(camera.size.h)),
    );
    let camera_center = (
        plus(camera.position.0, half_of(camera.size.w)),
        plus(camera.position.1, half_of(camera.size.h)),
    );
    match camera.inner_size {
        None => CameraView { position: center, ..camera },
        Some(inner_size) => {
            let player_rect = CollisionRect::<()>::spec_new(player_id, player_pos, None);
            let bands = bands_of(
                camera.id,
                camera_center,
                (camera.size.w, camera.size.h),
                (inner_size.w, inner_size.h),
            );
            let in_top = overlaps(player_rect, bands.top.0);
            let in_bottom = overlaps(player_rect, bands.bottom.0);
            let in_left = overlaps(player_rect, bands.left.0);
            let in_right = overlaps(player_rect, bands.right.0);
            CameraView {
                position: (
                    if in_left {
                        plus(center.0, half_of(inner_size.w))
                    } else if in_right {
                        minus(center.0, half_of(inner_size.w))
                    } else {
                        camera.position.0
                    },
                    if in_top {
                        minus(center.1, half_of(inner_size.h))
                    } else if in_bottom {
                        plus(center.1, half_of(inner_size.h))
                    } else {
                        camera.position.1
                    },
                ),
                velocity: match camera.velocity {
                    Some(velocity) if !(in_top || in_bottom || in_left || in_right) => Some(
                        Velocity {
                            x: closing_speed(
                                BASE_SPEED.0,
                                player_pos.0,
                                camera_center.0,
                                dt,
                                velocity.x,
                            ),
                            y: closing_speed(
                                BASE_SPEED.1,
                                player_pos.1,
                                camera_center.1,
                                dt,
                                velocity.y,
                            ),
                        },
                    ),
                    _ => camera.velocity,
                },
                ..camera
            }
        },
    }
}

pub struct CameraSystem;

impl CameraSystem {
    /// Lets one camera follow the player `player_id`, which is at
    /// `player_pos`, for a tick of length `dt`.
    pub fn run(&self, dt: Fixed, player_id: Index, player_pos: Vector, camera: &mut CameraView)
        ensures
            *final(camera) == followed(dt, player_id, player_pos, *old(camera)),
    {
        let size = camera.size;
        let center = (difference(player_pos.0, half(size.w)), difference(player_pos.1, half(size.h)));
        let camera_center = (
            sum(camera.position.0, half(size.w)),
            sum(camera.position.1, half(size.h)),
        );
        match camera.inner_size {
            Some(inner_size) => {
                let player_rect = CollisionRect::<()>::new(player_id, player_pos, None);
                let camera_rects = CameraCollisionRects::from(
                    (camera.id, camera_center, (size.w, size.h), (inner_size.w, inner_size.h)),
                );
                let mut colliding_any = false;
                if CollisionGrid::<()>::do_rects_collide(&player_rect, &camera_rects.top.0) {
                    colliding_any = true;
                    camera.position.1 = difference(center.1, half(inner_size.h));
                } else if CollisionGrid::<()>::do_rects_collide(
                    &player_rect,
                    &camera_rects.bottom.0,
                ) {
                    colliding_any = true;
                    camera.position.1 = sum(center.1, half(inner_size.h));
                }
                if CollisionGrid::<()>::do_rects_collide(&player_rect, &camera_rects.left.0) {
                    colliding_any = true;
                    camera.position.0 = sum(center.0, half(inner_size.w));
                } else if CollisionGrid::<()>::do_rects_collide(
                    &player_rect,
                    &camera_rects.right.0,
                ) {
                    colliding_any = true;
                    camera.position.0 = difference(center.0, half(inner_size.w));
                }
                match camera.velocity {
                    Some(velocity) => {
                        if !colliding_any {
                            camera.velocity = Some(
                                Velocity {
                                    x: close_in(
                                        BASE_SPEED.0,
                                        player_pos.0,
                                        camera_center.0,
                                        dt,
                                        velocity.x,
                                    ),
                                    y: close_in(
                                        BASE_SPEED.1,
                                        player_pos.1,
                                        camera_center.1,
                                        dt,
                                        velocity.y,
                                    ),
                                },
                            );
                        }
                    },
                    None => {},
                }
            },
            None => {
                camera.position = center;
            },
        }
    }
}

/// The speed along one axis at which a camera closes in on the player.
fn close_in(base: Fixed, player: Fixed, camera: Fixed, dt: Fixed, speed: Fixed) -> (closing: Fixed)
    ensures
        closing == closing_speed(base, player, camera, dt, speed),
{
    let distance = magnitude(difference(player, camera));
    if distance <= MOVE_IN_PADDING {
        0
    } else if player > camera {
        product(product(base, distance), dt)
    } else if player < camera {
        product(product(negated(base), distance), dt)
    } else {
        speed
    }
}

} // verus!
