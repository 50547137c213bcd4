use vstd::prelude::*;

verus! {

/// The part of a rectangle that an overlap is classified against.
///
/// `Inner` is no edge: it stands for an overlap that reaches the interior.
#[derive(Clone, Copy, Debug, PartialEq, Eq, Structural)]
pub enum Side {
    Inner,
    Top,
    Bottom,
    Left,
    Right,
}

impl Side {
    pub fn is_inner(&self) -> (b: bool)
        ensures
            b == (*self == Side::Inner),
    {
        match self {
            Side::Inner => true,
            _ => false,
        }
    }
}

} // verus!
