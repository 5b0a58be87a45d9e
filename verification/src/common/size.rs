//! Size implementation and manipulation.
use vstd::prelude::*;
use vstd::std_specs::convert::FromSpecImpl;

verus! {

/// A Size implementation with `usize` dimensions.
#[derive(Debug, Clone, Copy, PartialEq, Eq, Structural, Default, PartialOrd, Ord)]
pub struct Size {
    /// The number of columns.
    pub width: usize,
    /// The number of rows.
    pub height: usize,
}

impl Size {
    /// The number of cells of a grid of this size.
    pub open spec fn area(self) -> int {
        self.width * self.height
    }

    /// Creates a new Size.
    pub fn new(width: usize, height: usize) -> (size: Size)
        ensures
            size == (Size { width, height }),
    {
        Self { width, height }
    }

    /// Returns the width.
    pub fn width(&self) -> (width: usize)
        ensures
            width == self.width,
    {
        self.width
    }

    /// Returns the height.
    pub fn height(&self) -> (height: usize)
        ensures
            height == self.height,
    {
        self.height
    }
}

impl From<(usize, usize)> for Size {
    fn from(pair: (usize, usize)) -> (size: Self) {
        Self::new(pair.0, pair.1)
    }
}

impl FromSpecImpl<(usize, usize)> for Size {
    open spec fn obeys_from_spec() -> bool {
        true
    }

    open spec fn from_spec(pair: (usize, usize)) -> Self {
        Size { width: pair.0, height: pair.1 }
    }
}

impl From<[usize; 2]> for Size {
    fn from(array: [usize; 2]) -> (size: Self) {
        Self::new(array[0], array[1])
    }
}

impl FromSpecImpl<[usize; 2]> for Size {
    open spec fn obeys_from_spec() -> bool {
        true
    }

    open spec fn from_spec(array: [usize; 2]) -> Self {
        Size { width: array@[0], height: array@[1] }
    }
}

} // verus!
