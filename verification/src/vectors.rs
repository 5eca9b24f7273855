//! Growing, shrinking and reading a vector.

use vstd::prelude::*;

verus! {

/// The numbers from one to `count`; none where `count` is below one.
pub open spec fn ascent(count: int) -> Seq<i32> {
    Seq::new(
        if count > 0 {
            count as nat
        } else {
            0
        },
        |i: int| (i + 1) as i32,
    )
}

/// The vector that holds the numbers from one to `count`, pushed one by
/// one onto an empty vector.
pub fn count_up(count: i32) -> (numbers: Vec<i32>)
    ensures
        numbers@ == ascent(count as int),
{
    let mut numbers: Vec<i32> = Vec::new();
    let mut next: i32 = 0;
    while next < count
        invariant
            0 <= next,
            next <= count || next == 0,
            numbers@ == ascent(next as int),
        decreases count - next,
    {
        next = next + 1;
        numbers.push(next);
    }
    numbers
}

/// Pops the last element, then removes the first. The vector must hold at
/// least two elements, so that a first one is left after the pop.
pub fn drop_ends(numbers: &mut Vec<i32>)
    requires
        old(numbers).len() >= 2,
    ensures
        final(numbers)@ == old(numbers)@.subrange(1, old(numbers).len() - 1),
{
    numbers.pop();
    numbers.remove(0);
}

/// The element at `index`, or nothing where the vector is shorter.
pub fn lookup(numbers: &Vec<i32>, index: usize) -> (found: Option<i32>)
    ensures
        found == if index < numbers.len() {
            Some(numbers[index as int])
        } else {
            None
        },
{
    if index < numbers.len() {
        Some(numbers[index])
    } else {
        None
    }
}

} // verus!
