//! Counting down with a `while` loop.

use vstd::prelude::*;

verus! {

/// The numbers from `from` down to one; none when `from` is zero.
pub open spec fn descent(from: u32) -> Seq<u32> {
    Seq::new(from as nat, |i: int| (from - i) as u32)
}

/// Counts from `from` down to one, stopping when zero is reached.
pub fn countdown(from: u32) -> (steps: Vec<u32>)
    ensures
        steps@ == descent(from),
{
    let mut steps: Vec<u32> = Vec::new();
    let mut number: u32 = from;
    while number != 0
        invariant
            number <= from,
            steps@ == descent(from).take(from - number),
        decreases number,
    {
        steps.push(number);
        number = number - 1;
    }
    steps
}

} // verus!
