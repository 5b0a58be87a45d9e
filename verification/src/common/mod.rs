//! Common utilities.
pub mod coord;
pub mod error;
pub mod grid;
pub mod size;
pub mod slices;
pub mod text;

pub use crate::common::coord::{Coord, CoordEnumerate, CoordEnumerateMut, CoordIter};
pub use crate::common::error::CommonError;
pub use crate::common::size::Size;
