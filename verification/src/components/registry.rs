use vstd::prelude::*;

verus! {

/// A component that a level can give to an entity by naming it.
#[derive(Clone, Copy, Debug, PartialEq, Eq, Structural)]
pub enum Named {
    CheckCollision,
    Collision,
    JumpRecharge,
    Push,
    Pushable,
    Scale,
    ScaleOnce,
    Solid,
}

/// The component that `name` names. Names are matched to the letter.
pub open spec fn named(name: Seq<char>) -> Option<Named> {
    if name == "CheckCollision"@ {
        Some(Named::CheckCollision)
    } else if name == "Collision"@ {
        Some(Named::Collision)
    } else if name == "JumpRecharge"@ {
        Some(Named::JumpRecharge)
    } else if name == "Push"@ {
        Some(Named::Push)
    } else if name == "Pushable"@ {
        Some(Named::Pushable)
    } else if name == "Scale"@ {
        Some(Named::Scale)
    } else if name == "ScaleOnce"@ {
        Some(Named::ScaleOnce)
    } else if name == "Solid"@ {
        Some(Named::Solid)
    } else {
        None
    }
}

/// Looks up the component that `name` names, if it names one.
pub fn component_by_name(name: &String) -> (component: Option<Named>)
    ensures
        component == named(name@),
{
    if is_name(name, "CheckCollision") {
        Some(Named::CheckCollision)
    } else if is_name(name, "Collision") {
        Some(Named::Collision)
    } else if is_name(name, "JumpRecharge") {
        Some(Named::JumpRecharge)
    } else if is_name(name, "Push") {
        Some(Named::Push)
    } else if is_name(name, "Pushable") {
        Some(Named::Pushable)
    } else if is_name(name, "Scale") {
        Some(Named::Scale)
    } else if is_name(name, "ScaleOnce") {
        Some(Named::ScaleOnce)
    } else if is_name(name, "Solid") {
        Some(Named::Solid)
    } else {
        None
    }
}

/// Whether `name` is `expected`, to the letter.
fn is_name(name: &String, expected: &str) -> (same: bool)
    ensures
        same == (name@ == expected@),
{
    let expected = expected.to_owned();
    *name == expected
}

} // verus!
