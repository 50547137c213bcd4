use vstd::prelude::*;
use vstd::std_specs::convert::FromSpecImpl;

use crate::fixed::{difference, half, half_of, minus, plus, sum, Fixed};
use crate::geo::{Index, Vector};

verus! {

/// An axis-aligned rectangle that belongs to an entity, with optional data
/// of the caller's choice attached.
pub struct CollisionRect<T> {
    pub id: Index,
    pub top: Fixed,
    pub bottom: Fixed,
    pub left: Fixed,
    pub right: Fixed,
    pub custom: Option<T>,
}

impl<T> CollisionRect<T> {
    /// The rectangle centred on `position`: it reaches half of `size`,
    /// rounded toward zero, to each side, and is the single point `position`
    /// when there is no size.
    pub open spec fn spec_with_custom(
        id: Index,
        position: Vector,
        size_opt: Option<Vector>,
        custom: Option<T>,
    ) -> Self {
        match size_opt {
            Some(size) => CollisionRect {
                id,
                top: plus(position.1, half_of(size.1)),
                bottom: minus(position.1, half_of(size.1)),
                left: minus(position.0, half_of(size.0)),
                right: plus(position.0, half_of(size.0)),
                custom,
            },
            None => CollisionRect {
                id,
                top: position.1,
                bottom: position.1,
                left: position.0,
                right: position.0,
                custom,
            },
        }
    }

    /// The rectangle of `spec_with_custom` with nothing attached.
    pub open spec fn spec_new(id: Index, position: Vector, size_opt: Option<Vector>) -> Self {
        Self::spec_with_custom(id, position, size_opt, None)
    }

    pub fn new(id: Index, position: Vector, size_opt: Option<Vector>) -> (rect: Self)
        ensures
            rect == Self::spec_new(id, position, size_opt),
    {
        Self::with_custom(id, position, size_opt, None)
    }

    pub fn with_custom(
        id: Index,
        position: Vector,
        size_opt: Option<Vector>,
        custom: Option<T>,
    ) -> (rect: Self)
        ensures
            rect == Self::spec_with_custom(id, position, size_opt, custom),
    {
        match size_opt {
            Some(size) => CollisionRect {
                id,
                top: sum(position.1, half(size.1)),
                bottom: difference(position.1, half(size.1)),
                left: difference(position.0, half(size.0)),
                right: sum(position.0, half(size.0)),
                custom,
            },
            None => CollisionRect {
                id,
                top: position.1,
                bottom: position.1,
                left: position.0,
                right: position.0,
                custom,
            },
        }
    }
}

impl<T> From<(Index, Vector, Option<Vector>)> for CollisionRect<T> {
    fn from(data: (Index, Vector, Option<Vector>)) -> (rect: Self) {
        Self::new(data.0, data.1, data.2)
    }
}

impl<T> FromSpecImpl<(Index, Vector, Option<Vector>)> for CollisionRect<T> {
    open spec fn obeys_from_spec() -> bool {
        true
    }

    open spec fn from_spec(data: (Index, Vector, Option<Vector>)) -> Self {
        Self::spec_new(data.0, data.1, data.2)
    }
}

impl<T> From<(Index, Vector, Option<Vector>, Option<T>)> for CollisionRect<T> {
    fn from(data: (Index, Vector, Option<Vector>, Option<T>)) -> (rect: Self) {
        Self::with_custom(data.0, data.1, data.2, data.3)
    }
}

impl<T> FromSpecImpl<(Index, Vector, Option<Vector>, Option<T>)> for CollisionRect<T> {
    open spec fn obeys_from_spec() -> bool {
        true
    }

    open spec fn from_spec(data: (Index, Vector, Option<Vector>, Option<T>)) -> Self {
        Self::spec_with_custom(data.0, data.1, data.2, data.3)
    }
}

} // verus!
