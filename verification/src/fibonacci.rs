//! Fibonacci numbers in 32 bits.

use vstd::prelude::*;
use crate::number::{is_digit, parse_u32, parsed_u32};
use crate::prompt::{decide, next_step, quit_word, Step};
use crate::text::{trim, trimmed};

verus! {

/// The Fibonacci sequence over the naturals: 0, 1, 1, 2, 3, 5, ...
pub open spec fn fib(n: nat) -> nat
    decreases n,
{
    if n <= 1 {
        n
    } else {
        fib((n - 1) as nat) + fib((n - 2) as nat)
    }
}

/// The sequence starts with zero and one, and each number after them is
/// the sum of the two before it.
pub proof fn lemma_fib_recurrence(n: nat)
    ensures
        fib(0) == 0,
        fib(1) == 1,
        n >= 2 ==> fib(n) == fib((n - 1) as nat) + fib((n - 2) as nat),
{
}

/// The `n`-th Fibonacci number, by the doubly recursive definition and
/// without remembering earlier results: the running time grows as fast as
/// the result does. The result must fit in 32 bits, which it does for the
/// indices up to `LAST_INDEX`.
pub fn fibonacci(n: u32) -> (value: u32)
    requires
        fib(n as nat) <= u32::MAX,
    ensures
        value == fib(n as nat),
    decreases n,
{
    if n <= 1 {
        n
    } else {
        fibonacci(n - 1) + fibonacci(n - 2)
    }
}

/// The last index whose Fibonacci number fits in 32 bits.
pub const LAST_INDEX: u32 = 47;

/// The sequence never decreases.
pub proof fn lemma_fib_monotonic(i: nat, j: nat)
    requires
        i <= j,
    ensures
        fib(i) <= fib(j),
    decreases j,
{
    if i < j {
        lemma_fib_monotonic(i, (j - 1) as nat);
    }
}

/// The sequence that starts with `a`, `b` and goes on by the same rule,
/// taken `k` places further.
spec fn advance(a: nat, b: nat, k: nat) -> nat
    decreases k,
{
    if k == 0 {
        a
    } else {
        advance(b, a + b, (k - 1) as nat)
    }
}

/// Starting from two neighbours of the Fibonacci sequence, `advance` walks
/// along that sequence.
proof fn lemma_advance_is_fib(m: nat, k: nat)
    ensures
        advance(fib(m), fib(m + 1), k) == fib(m + k),
    decreases k,
{
    if k > 0 {
        lemma_advance_is_fib(m + 1, (k - 1) as nat);
    }
}

/// The two numbers on either side of the 32-bit limit.
proof fn lemma_fib_around_limit()
    ensures
        fib(47) == 2971215073,
        fib(48) == 4807526976,
{
    lemma_advance_is_fib(0, 47);
    lemma_advance_is_fib(0, 48);
    assert(advance(0, 1, 47) == 2971215073 && advance(0, 1, 48) == 4807526976) by {
        reveal_with_fuel(advance, 50);
    }
}

/// `fib(n)` fits in 32 bits exactly for the indices up to `LAST_INDEX`.
pub proof fn lemma_fib_fits(n: nat)
    ensures
        fib(n) <= u32::MAX <==> n <= LAST_INDEX,
{
    lemma_fib_around_limit();
    if n <= 47 {
        lemma_fib_monotonic(n, 47);
    } else {
        lemma_fib_monotonic(48, n);
    }
}

/// The `n`-th Fibonacci number where it fits in 32 bits.
pub fn checked_fibonacci(n: u32) -> (value: Option<u32>)
    ensures
        value == if n <= LAST_INDEX {
            Some(fib(n as nat) as u32)
        } else {
            None
        },
{
    proof {
        lemma_fib_fits(n as nat);
    }
    if n <= LAST_INDEX {
        Some(fibonacci(n))
    } else {
        None
    }
}

/// What the generator answers to one line of input.
#[derive(Debug, PartialEq, Eq, Clone, Copy)]
pub enum Reply {
    /// The line asked for the `n`-th number, which is `value`.
    Answer { n: u32, value: u32 },
    /// The line asked for the `n`-th number, which does not fit in 32 bits.
    Overflow { n: u32 },
    /// The line ends the session.
    Quit,
    /// The line is neither an index nor the quit word.
    Retry,
}

/// The reply that a line calls for: the line is trimmed and read as an
/// index; failing that, it either ends the session or is asked again.
pub open spec fn reply_to(line: Seq<char>) -> Reply {
    match next_step(line, parsed_u32(trimmed(line))) {
        Step::Compute(n) => if n <= LAST_INDEX {
            Reply::Answer { n, value: fib(n as nat) as u32 }
        } else {
            Reply::Overflow { n }
        },
        Step::Quit => Reply::Quit,
        Step::Retry => Reply::Retry,
    }
}

/// The session ends on the quit word, with or without white space around
/// it, and on nothing else.
pub proof fn lemma_session_ends_on_quit_word(line: Seq<char>)
    ensures
        reply_to(line) == Reply::Quit <==> trimmed(line) == quit_word(),
{
    // The quit word does not start with a digit, so it is no index.
    assert(!is_digit(quit_word()[0]));
}

/// A line is asked again exactly when it holds neither an index nor the
/// quit word.
pub proof fn lemma_other_text_is_asked_again(line: Seq<char>)
    ensures
        reply_to(line) == Reply::Retry <==> parsed_u32(trimmed(line)) is None && trimmed(line)
            != quit_word(),
{
}

/// A line is answered with a number exactly when it holds an index up to
/// `LAST_INDEX`, and then with the Fibonacci number of that index.
pub proof fn lemma_index_is_answered(line: Seq<char>)
    ensures
        reply_to(line) is Answer <==> parsed_u32(trimmed(line)) is Some && parsed_u32(
            trimmed(line),
        )->0 <= LAST_INDEX,
        reply_to(line) matches Reply::Answer { n, value } ==> parsed_u32(trimmed(line)) == Some(n)
            && value == fib(n as nat),
{
    if reply_to(line) is Answer {
        lemma_fib_fits(parsed_u32(trimmed(line))->0 as nat);
    }
}

/// Answers one line of input.
pub fn respond(line: &str) -> (reply: Reply)
    ensures
        reply == reply_to(line@),
{
    match decide(line, parse_u32(trim(line))) {
        Step::Compute(n) => match checked_fibonacci(n) {
            Some(value) => Reply::Answer { n, value },
            None => Reply::Overflow { n },
        },
        Step::Quit => Reply::Quit,
        Step::Retry => Reply::Retry,
    }
}

} // verus!
