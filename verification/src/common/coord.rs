//! Coord implementation and manipulation.
use crate::common::size::Size;
use vstd::prelude::*;
use crate::common::slices::{next_mut, next_ref};
use vstd::std_specs::convert::FromSpecImpl;
use vstd::std_specs::iter::IteratorSpec;

verus! {

/// A Coord representation.
#[derive(Debug, Clone, Copy, PartialEq, Eq, Structural, Default, PartialOrd, Ord)]
pub struct Coord {
    /// The row.
    pub x: usize,
    /// The column.
    pub y: usize,
}

impl Coord {
    /// The place of the coord in a grid of `width` columns stored row after
    /// row.
    pub open spec fn index_in(self, width: usize) -> int {
        self.x * width + self.y
    }

    /// Creates a new Coord.
    pub fn new(x: usize, y: usize) -> (coord: Self)
        ensures
            coord == (Coord { x, y }),
    {
        Self { x, y }
    }
}

impl From<(usize, usize)> for Coord {
    fn from(pair: (usize, usize)) -> (coord: Self) {
        Self::new(pair.0, pair.1)
    }
}

impl FromSpecImpl<(usize, usize)> for Coord {
    open spec fn obeys_from_spec() -> bool {
        true
    }

    open spec fn from_spec(pair: (usize, usize)) -> Self {
        Coord { x: pair.0, y: pair.1 }
    }
}

impl From<[usize; 2]> for Coord {
    fn from(array: [usize; 2]) -> (coord: Self) {
        Self::new(array[0], array[1])
    }
}

impl FromSpecImpl<[usize; 2]> for Coord {
    open spec fn obeys_from_spec() -> bool {
        true
    }

    open spec fn from_spec(array: [usize; 2]) -> Self {
        Coord { x: array@[0], y: array@[1] }
    }
}

/// A iterator over all Coord limited by Size: row after row, each row from
/// its first column to its last.
#[derive(Debug, Clone, Copy, PartialEq, Eq, Structural)]
pub struct CoordIter {
    /// The size of the grid.
    pub size: Size,
    /// The coord that comes next.
    pub coord: Coord,
}

impl CoordIter {
    /// Whether the iterator has given all its coords.
    pub open spec fn finished(self) -> bool {
        self.coord.x == self.size.height
    }

    /// The iterator after it gave its next coord: one column on, or at the
    /// start of the next row after the last column.
    pub open spec fn advanced(self) -> CoordIter {
        if self.finished() {
            self
        } else if self.coord.y + 1 == self.size.width {
            CoordIter { size: self.size, coord: Coord { x: (self.coord.x + 1) as usize, y: 0 } }
        } else {
            CoordIter {
                size: self.size,
                coord: Coord { x: self.coord.x, y: (self.coord.y + 1) as usize },
            }
        }
    }

    /// Whether the next coord lies in the grid, or the iterator is at its
    /// end.
    pub open spec fn in_grid(self) -> bool {
        if self.coord.x < self.size.height {
            self.coord.y < self.size.width
        } else {
            self.coord.x == self.size.height && self.coord.y == 0
        }
    }

    /// The number of coords still to come from an iterator in the grid.
    pub open spec fn pending(self) -> int {
        self.size.area() - self.coord.index_in(self.size.width)
    }

    // Creates a new CoordIter from a Size.
    pub fn new(size: Size) -> (iter: Self)
        ensures
            iter == (CoordIter { size, coord: Coord { x: 0, y: 0 } }),
    {
        Self { size, coord: Coord::new(0, 0) }
    }

    /// Gives the next coord and moves on, or nothing once the rows are used
    /// up.
    pub fn next(&mut self) -> (item: Option<Coord>)
        requires
            !old(self).finished() ==> old(self).coord.x < usize::MAX && old(self).coord.y
                < usize::MAX,
        ensures
            *final(self) == old(self).advanced(),
            item == if old(self).finished() {
                None
            } else {
                Some(old(self).coord)
            },
    {
        if self.coord.x == self.size.height() {
            return None;
        }
        let result = self.coord;
        self.coord.y = self.coord.y + 1;
        if self.coord.y == self.size.width() {
            self.coord.y = 0;
            self.coord.x = self.coord.x + 1;
        }
        Some(result)
    }
}

/// An iterator in the grid stays in the grid, and each coord it gives is the
/// place after the one before: the coords come out in the order in which the
/// cells are stored.
pub proof fn lemma_coords_follow_storage(iter: CoordIter)
    requires
        iter.in_grid(),
        !iter.finished(),
    ensures
        iter.advanced().in_grid(),
        0 <= iter.coord.index_in(iter.size.width) < iter.size.area(),
        iter.advanced().pending() == iter.pending() - 1,
        iter.coord.x < usize::MAX && iter.coord.y < usize::MAX,
{
    let w = iter.size.width as int;
    let h = iter.size.height as int;
    let x = iter.coord.x as int;
    let y = iter.coord.y as int;
    assert(x * w + w <= h * w) by (nonlinear_arith)
        requires
            0 <= x < h,
            0 <= w,
    ;
    assert(0 <= x * w) by (nonlinear_arith)
        requires
            0 <= x,
            0 <= w,
    ;
    assert((x + 1) * w == x * w + w) by (nonlinear_arith);
    assert(h * w == w * h) by (nonlinear_arith);
}

/// A iterator over all Coord and their related itens, limited by Size.
pub struct CoordEnumerate<'iter, T: 'iter> {
    /// The coords still to come.
    pub coords: CoordIter,
    /// The items still to come.
    pub iter: core::slice::Iter<'iter, T>,
}

impl<'iter, T> CoordEnumerate<'iter, T> {
    /// Creates a CoordEnumerate from a CoordIter and item Iter.
    pub fn new(coords: CoordIter, iter: core::slice::Iter<'iter, T>) -> (enumerate: Self)
        ensures
            enumerate.coords == coords,
            enumerate.iter == iter,
    {
        Self { coords, iter }
    }

    /// Gives the next coord with the next item and moves on. Nothing comes
    /// once the coords are used up, and the items are then left alone;
    /// nothing comes either once the items are used up.
    pub fn next(&mut self) -> (item: Option<(Coord, &'iter T)>)
        requires
            !old(self).coords.finished() ==> old(self).coords.coord.x < usize::MAX && old(self).coords.coord.y < usize::MAX,
        ensures
            final(self).coords == old(self).coords.advanced(),
            old(self).coords.finished() ==> item is None && final(self).iter == old(self).iter,
            !old(self).coords.finished() && old(self).iter.remaining().len() > 0 ==> item == Some(
                (old(self).coords.coord, old(self).iter.remaining()[0]),
            ) && final(self).iter.remaining() == old(self).iter.remaining().drop_first(),
            !old(self).coords.finished() && old(self).iter.remaining().len() == 0 ==> item is None
                && final(self).iter.remaining() == old(self).iter.remaining(),
    {
        let coord = self.coords.next();
        match coord {
            None => None,
            Some(coord) => {
                let item = next_ref(&mut self.iter);
                match item {
                    None => None,
                    Some(item) => Some((coord, item)),
                }
            },
        }
    }
}

/// A mutable iterator over all Coord and their related itens, limited by Size.
#[verifier::reject_recursive_types(T)]
pub struct CoordEnumerateMut<'iter, T: 'iter> {
    /// The coords still to come.
    pub coords: CoordIter,
    /// The items still to come.
    pub iter: core::slice::IterMut<'iter, T>,
}

impl<'iter, T> CoordEnumerateMut<'iter, T> {
    /// Creates a CoordEnumerateMut from a CoordIter and item Iter.
    pub fn new(coords: CoordIter, iter: core::slice::IterMut<'iter, T>) -> (enumerate: Self)
        ensures
            enumerate.coords == coords,
            enumerate.iter == iter,
    {
        Self { coords, iter }
    }

    /// Gives the next coord with the next item, for writing, and moves on.
    /// Nothing comes once the coords are used up, and the items are then
    /// left alone; nothing comes either once the items are used up.
    pub fn next(&mut self) -> (item: Option<(Coord, &'iter mut T)>)
        requires
            !old(self).coords.finished() ==> old(self).coords.coord.x < usize::MAX && old(self).coords.coord.y < usize::MAX,
        ensures
            final(self).coords == old(self).coords.advanced(),
            old(self).coords.finished() ==> item is None && final(self).iter == old(self).iter,
            item matches Some(pair) ==> pair.0 == old(self).coords.coord,
    {
        match self.coords.next() {
            None => None,
            Some(coord) => match next_mut(&mut self.iter) {
                None => None,
                Some(item) => Some((coord, item)),
            },
        }
    }
}

} // verus!
