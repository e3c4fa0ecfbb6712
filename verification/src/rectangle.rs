//! Rectangles with sides of whole length.

use vstd::prelude::*;

verus! {

/// A rectangle, given by the lengths of its two sides.
///
/// Every pair of lengths is a rectangle: the two fields are free of each
/// other, and either may be zero.
pub struct Rectangle {
    pub width: u32,
    pub heigth: u32,
}

impl Rectangle {
    /// The area as a mathematical integer: the product of the two sides,
    /// which may be more than a `u32` holds.
    pub open spec fn spec_area(&self) -> int {
        self.width * self.heigth
    }

    /// The area of the rectangle.
    ///
    /// The product of the sides has to fit in a `u32`.
    pub fn area(&self) -> (area: u32)
        requires
            self.spec_area() <= u32::MAX,
        ensures
            area == self.spec_area(),
    {
        return self.width * self.heigth;
    }

    /// Sets the width to 100 and leaves the height as it is.
    pub fn change(&mut self)
        ensures
            final(self).width == 100,
            final(self).heigth == old(self).heigth,
    {
        self.width = 100
    }

    /// The square with sides of length `num`.
    pub fn pp(num: u32) -> (square: Rectangle)
        ensures
            square.width == num,
            square.heigth == num,
    {
        return Rectangle { width: num, heigth: num };
    }
}

} // verus!
