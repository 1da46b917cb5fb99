//! A width and a height.

use vstd::prelude::*;

verus! {

/// The two sides of a rectangle, such as a surface in pixels.
#[derive(Clone, Copy, Debug)]
pub struct Size<T: Copy> {
    pub width: T,
    pub height: T,
}

impl Size<u32> {
    /// Whether the rectangle has no area.
    pub open spec fn empty(self) -> bool {
        self.width == 0 || self.height == 0
    }

    pub fn new(width: u32, height: u32) -> (r: Size<u32>)
        ensures
            r.width == width,
            r.height == height,
    {
        Size { width, height }
    }

    pub fn is_empty(self) -> (r: bool)
        ensures
            r == self.empty(),
    {
        self.width == 0 || self.height == 0
    }
}

} // verus!
