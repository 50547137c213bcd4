use vstd::prelude::*;

verus! {

/// One of the two axes of the plane.
#[derive(Clone, Copy, Debug, PartialEq, Eq, Structural)]
pub enum Axis {
    X,
    Y,
}

impl Axis {
    /// Calls `iterate` once for each axis: for `X`, then for `Y`.
    pub fn for_each<C>(mut iterate: C) where C: FnMut(Self)
        requires
            call_requires(iterate, (Axis::X,)),
            call_requires(iterate, (Axis::Y,)),
        ensures
            call_ensures(iterate, (Axis::X,), ()),
            call_ensures(iterate, (Axis::Y,), ()),
    {
        iterate(Axis::X);
        iterate(Axis::Y);
    }

    pub fn is_x(&self) -> (b: bool)
        ensures
            b == (*self == Axis::X),
    {
        match self {
            Axis::X => true,
            Axis::Y => false,
        }
    }

    pub fn is_y(&self) -> (b: bool)
        ensures
            b == (*self == Axis::Y),
    {
        match self {
            Axis::X => false,
            Axis::Y => true,
        }
    }
}

} // verus!
