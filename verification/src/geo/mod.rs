//! Geometry: axes, sides, rectangles and the per-tick collision grid.

use vstd::prelude::*;

pub mod axis;
pub mod collision_grid;
pub mod collision_rect;
pub mod side;

pub use axis::Axis;
pub use collision_grid::CollisionGrid;
pub use collision_rect::CollisionRect;
pub use side::Side;

verus! {

/// The identifier of an entity.
pub type Index = u32;

/// A pair of fixed-point numbers: a point `(x, y)` or an extent `(w, h)`.
pub type Vector = (crate::fixed::Fixed, crate::fixed::Fixed);

} // verus!
