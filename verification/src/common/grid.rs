//! Cells of a grid that is stored row after row.
use crate::common::coord::Coord;
use crate::common::size::Size;
use vstd::prelude::*;

verus! {

/// Whether `coord` names a cell of a grid of size `size` that is stored in
/// `len` cells: the coord is within the size, and its place, row after row,
/// is one of the cells.
pub open spec fn names_cell(size: Size, len: nat, coord: Coord) -> bool {
    &&& coord.x < size.width
    &&& coord.y < size.height
    &&& coord.index_in(size.width) < len
}

/// Computes the place of `coord` in a grid of size `size` stored in `len`
/// cells, if the coord names one.
pub fn cell_index(size: Size, len: usize, coord: Coord) -> (index: Option<usize>)
    ensures
        names_cell(size, len as nat, coord) ==> index == Some(
            coord.index_in(size.width) as usize,
        ),
        !names_cell(size, len as nat, coord) ==> index is None,
{
    if !(coord.x < size.width() && coord.y < size.height()) {
        return None;
    }
    assert(0 <= coord.x * size.width) by (nonlinear_arith)
        requires
            0 <= coord.x,
            0 <= size.width,
    ;
    let row = match coord.x.checked_mul(size.width()) {
        Some(row) => row,
        None => {
            return None;
        },
    };
    let index = match row.checked_add(coord.y) {
        Some(index) => index,
        None => {
            return None;
        },
    };
    if index < len {
        Some(index)
    } else {
        None
    }
}

} // verus!
