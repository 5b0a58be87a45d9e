//! CommonError implementation and manipulation.
use crate::common::coord::Coord;
use crate::common::size::Size;
use vstd::prelude::*;

verus! {

/// Common errors.
#[derive(Debug, Clone, Copy, PartialEq, Eq, Structural)]
pub enum CommonError {
    /// Error to represent invalid coords.
    InvalidCoord { coord: Coord, size: Size },
    /// Error to represent invalid indexes.
    InvalidIndex { index: usize, lenght: usize },
}

impl CommonError {
    /// Creates a `InvalidCoord` error.
    pub fn new_invalid_coord(coord: Coord, size: Size) -> (error: Self)
        ensures
            error == (CommonError::InvalidCoord { coord, size }),
    {
        Self::InvalidCoord { coord, size }
    }

    /// Creates a `InvalidIndex` error.
    pub fn new_invalid_index(index: usize, lenght: usize) -> (error: Self)
        ensures
            error == (CommonError::InvalidIndex { index, lenght }),
    {
        Self::InvalidIndex { index, lenght }
    }
}

} // verus!
