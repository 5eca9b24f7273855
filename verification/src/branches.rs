//! Choosing between two branches.

use vstd::prelude::*;

verus! {

/// The bound that `report` compares with.
pub const LIMIT: i32 = 5;

/// Says whether `number` lies below `LIMIT`.
pub fn report(number: i32) -> (text: &'static str)
    ensures
        text@ == if number < LIMIT {
            "condition was true"@
        } else {
            "condition was false"@
        },
{
    if number < LIMIT {
        "condition was true"
    } else {
        "condition was false"
    }
}

/// An `if` used as a value: five where `condition` holds, six where not.
pub fn pick(condition: bool) -> (number: i32)
    ensures
        number == if condition { 5i32 } else { 6i32 },
{
    if condition {
        5
    } else {
        6
    }
}

} // verus!
