//! A struct with methods.

use vstd::prelude::*;

verus! {

/// A rectangle with whole-numbered sides.
#[derive(Debug)]
pub struct Rectangle {
    pub width: u32,
    pub height: u32,
}

impl Rectangle {
    /// The area, which must fit in 32 bits.
    pub fn area(&self) -> (area: u32)
        requires
            self.width * self.height <= u32::MAX,
        ensures
            area == self.width * self.height,
    {
        self.width * self.height
    }

    /// Whether both sides of `self` are longer than `other` is wide. The
    /// height of `other` plays no part.
    pub fn can_hold(&self, other: &Rectangle) -> (holds: bool)
        ensures
            holds == (self.width > other.width && self.height > other.width),
    {
        self.width > other.width && self.height > other.width
    }

    /// The square whose sides are `size` long.
    pub fn square(size: u32) -> (square: Rectangle)
        ensures
            square.width == size,
            square.height == size,
    {
        Rectangle { height: size, width: size }
    }
}

} // verus!
