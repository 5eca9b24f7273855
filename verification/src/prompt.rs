//! One round of a console prompt that asks for a number until it is told
//! to stop.

use vstd::prelude::*;
use crate::text::{trim, trimmed};

verus! {

/// What a prompt does with the line it has read.
#[derive(Debug, PartialEq, Eq)]
pub enum Step<T> {
    /// The line held a number: work on it, then ask again.
    Compute(T),
    /// The line held the word that ends the session.
    Quit,
    /// The line held neither: say so, then ask again.
    Retry,
}

/// The word that ends a session.
pub open spec fn quit_word() -> Seq<char> {
    seq!['q', 'u', 'i', 't']
}

/// Whether `word` is the word that ends a session, letter for letter and
/// in lower case.
pub fn is_quit_word(word: &str) -> (quit: bool)
    ensures
        quit == (word@ == quit_word()),
{
    let quit = word.unicode_len() == 4 && word.get_char(0) == 'q' && word.get_char(1) == 'u'
        && word.get_char(2) == 'i' && word.get_char(3) == 't';
    assert(quit ==> word@ =~= quit_word());
    quit
}

/// The step that follows a line, given the number that was read from it,
/// if any. A number wins; without one, the line ends the session when,
/// white space aside, it is the quit word.
pub open spec fn next_step<T>(line: Seq<char>, number: Option<T>) -> Step<T> {
    match number {
        Some(n) => Step::Compute(n),
        None => if trimmed(line) == quit_word() {
            Step::Quit
        } else {
            Step::Retry
        },
    }
}

/// A step computes exactly when a number was read, and then on that very
/// number.
pub proof fn lemma_computes_what_was_read<T>(line: Seq<char>, number: Option<T>)
    ensures
        next_step(line, number) is Compute <==> number is Some,
        number matches Some(n) ==> next_step(line, number) == Step::Compute(n),
{
}

/// Decides what to do with `line`, from which the caller has read `number`
/// or failed to read one.
pub fn decide<T>(line: &str, number: Option<T>) -> (step: Step<T>)
    ensures
        step == next_step(line@, number),
{
    match number {
        Some(n) => Step::Compute(n),
        None => if is_quit_word(trim(line)) {
            Step::Quit
        } else {
            Step::Retry
        },
    }
}

} // verus!
