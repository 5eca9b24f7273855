//! An enum whose variants carry different data, and matches over it.

use vstd::prelude::*;

verus! {

/// A message with one of four shapes.
#[derive(Debug)]
pub enum Message {
    Quit,
    Move { x: i32, y: i32 },
    Write(String),
    ChangeColor(i32, i32, i32),
}

impl Message {
    /// A method on an enum; it takes a string slice and leaves everything
    /// as it was.
    pub fn some_method(&self, _string: &str) {
    }
}

/// Names the variant of `message`, with one arm for each.
pub fn do_something_with_enum(message: Message) -> (text: &'static str)
    ensures
        text@ == match message {
            Message::Quit => "gone into quit"@,
            Message::Move { .. } => "gone into move"@,
            Message::Write(_) => "gone into write"@,
            Message::ChangeColor(..) => "gone into change colour"@,
        },
{
    match message {
        Message::Quit => "gone into quit",
        Message::Move { .. } => "gone into move",
        Message::Write(_) => "gone into write",
        Message::ChangeColor(..) => "gone into change colour",
    }
}

/// Tells `Quit` from the other three variants, which share one arm.
pub fn do_something_with_enum_with_placeholder(message: Message) -> (text: &'static str)
    ensures
        text@ == if message is Quit {
            "gone into quit"@
        } else {
            "I have gone into the placeholder"@
        },
{
    match message {
        Message::Quit => "gone into quit",
        _ => "I have gone into the placeholder",
    }
}

/// Tells an absent string from a present one.
pub fn do_something_with_option(option: Option<String>) -> (text: &'static str)
    ensures
        text@ == if option is None {
            "did nothing"@
        } else {
            "did something"@
        },
{
    match option {
        None => "did nothing",
        Some(_) => "did something",
    }
}

} // verus!
