//! Glyph implementation and manipulation.
use crate::common::grid::{cell_index, names_cell};
use crate::common::slices::iter_mut;
use crate::common::text::{debug_field, glyph_text};
use crate::common::{CommonError, Coord, CoordEnumerate, CoordEnumerateMut, CoordIter, Size};
use vstd::prelude::*;
use vstd::std_specs::cmp::PartialEqSpecImpl;
use vstd::std_specs::iter::IteratorSpec;

verus! {

/// The default Glyph width.
pub const GLYPH_WIDTH: usize = 16;

/// The default Glyph height.
pub const GLYPH_HEIGHT: usize = 16;

/// A Glyph pixel representation.
#[derive(Debug, Clone, Copy, PartialEq, Eq, Structural)]
pub enum GlyphPixel {
    /// An empty or transparent pixel.
    Empty,
    /// An solid pixel.
    Solid,
}

/// A Glyph representation with NxM Pixels.
#[derive(Debug, Clone)]
pub struct Glyph {
    /// The size of the glyph.
    pub size: Size,
    /// The pixels, row after row.
    pub data: Vec<GlyphPixel>,
}

impl Glyph {
    /// Whether the glyph holds one pixel for each cell of its size.
    pub open spec fn wf(&self) -> bool {
        self.data@.len() == self.size.area()
    }

    /// Whether `coord` names a pixel of the glyph.
    pub open spec fn holds(&self, coord: Coord) -> bool {
        names_cell(self.size, self.data@.len(), coord)
    }

    /// Creates a new Glyph.
    pub fn new(size: Size) -> (glyph: Self)
        requires
            size.area() <= usize::MAX,
        ensures
            glyph.wf(),
            glyph.size == size,
            forall|i: int| 0 <= i < glyph.data@.len() ==> glyph.data@[i] == GlyphPixel::Empty,
    {
        assert(0 <= size.width * size.height) by (nonlinear_arith)
            requires
                0 <= size.width,
                0 <= size.height,
        ;
        let count: usize = size.width() * size.height();
        let mut data: Vec<GlyphPixel> = Vec::with_capacity(count);
        let mut i: usize = 0;
        while i < count
            invariant
                i <= count,
                data@.len() == i,
                forall|j: int| 0 <= j < i ==> data@[j] == GlyphPixel::Empty,
            decreases count - i,
        {
            data.push(GlyphPixel::Empty);
            i = i + 1;
        }
        Self { size, data }
    }

    /// Returns a Size.
    pub fn size(&self) -> (size: Size)
        ensures
            size == self.size,
    {
        self.size
    }

    /// Returns a pixel.
    pub fn get_pixel(&self, coord: Coord) -> (r: Result<GlyphPixel, CommonError>)
        ensures
            r == if self.holds(coord) {
                Ok::<GlyphPixel, CommonError>(self.data@[coord.index_in(self.size.width)])
            } else {
                Err::<GlyphPixel, CommonError>(
                    CommonError::InvalidCoord { coord, size: self.size },
                )
            },
    {
        match cell_index(self.size, self.data.len(), coord) {
            Some(index) => Ok(self.data[index]),
            None => Err(CommonError::new_invalid_coord(coord, self.size)),
        }
    }

    /// Sets a pixel.
    pub fn set_pixel(&mut self, coord: Coord, value: GlyphPixel) -> (r: Result<(), CommonError>)
        ensures
            final(self).size == old(self).size,
            old(self).holds(coord) ==> r is Ok && final(self).data@ == old(self).data@.update(
                coord.index_in(old(self).size.width),
                value,
            ),
            !old(self).holds(coord) ==> final(self).data@ == old(self).data@ && r == Err::<
                (),
                CommonError,
            >(CommonError::InvalidCoord { coord, size: old(self).size }),
    {
        match cell_index(self.size, self.data.len(), coord) {
            Some(index) => {
                self.data.set(index, value);
                Ok(())
            },
            None => Err(CommonError::new_invalid_coord(coord, self.size)),
        }
    }

    /// Returns a iterator over the glyph's coords.
    pub fn coords(&self) -> (coords: CoordIter)
        ensures
            coords == (CoordIter { size: self.size, coord: Coord { x: 0, y: 0 } }),
    {
        CoordIter::new(self.size())
    }

    /// Returns an iterator over all Glyph pixels.
    pub fn iter(&self) -> (iter: core::slice::Iter<'_, GlyphPixel>)
        ensures
            iter.remaining() == self.data@.as_ref(),
    {
        self.data.as_slice().iter()
    }

    /// Returns a mutable iterator over all Glyph pixels.
    pub fn iter_mut(&mut self) -> (iter: core::slice::IterMut<'_, GlyphPixel>)
        ensures
            final(self).size == old(self).size,
            final(self).data@.len() == old(self).data@.len(),
    {
        iter_mut(self.data.as_mut_slice())
    }

    /// Returns an enumerate iterator over glyph's coords and pixels.
    pub fn enumerate(&self) -> (enumerate: CoordEnumerate<'_, GlyphPixel>)
        ensures
            enumerate.coords == (CoordIter { size: self.size, coord: Coord { x: 0, y: 0 } }),
            enumerate.iter.remaining() == self.data@.as_ref(),
    {
        CoordEnumerate::new(self.coords(), self.iter())
    }

    /// Returns a mutable enumerate iterator over glyph's coords and pixels.
    pub fn enumerate_mut(&mut self) -> (enumerate: CoordEnumerateMut<'_, GlyphPixel>)
        ensures
            enumerate.coords == (CoordIter { size: old(self).size, coord: Coord { x: 0, y: 0 } }),
            final(self).size == old(self).size,
            final(self).data@.len() == old(self).data@.len(),
    {
        let coords = self.coords();
        CoordEnumerateMut::new(coords, self.iter_mut())
    }

    /// Returns the debugging text of the glyph: its pixels, without its
    /// size.
    pub fn debug_string(&self) -> (text: String)
        ensures
            text@ == glyph_text(self.data@),
    {
        debug_field("Glyph", "data", &self.data)
    }

    /// Whether `coord` names a pixel of the glyph.
    pub fn is_coord_valid(&self, coord: Coord) -> (valid: bool)
        ensures
            valid == self.holds(coord),
    {
        cell_index(self.size, self.data.len(), coord).is_some()
    }
}

impl Default for Glyph {
    /// Creates a Glyph with all pixels empty.
    fn default() -> (glyph: Self)
        ensures
            glyph.wf(),
            glyph.size == (Size { width: GLYPH_WIDTH, height: GLYPH_HEIGHT }),
            forall|i: int| 0 <= i < glyph.data@.len() ==> glyph.data@[i] == GlyphPixel::Empty,
    {
        let size = Size::new(GLYPH_WIDTH, GLYPH_HEIGHT);
        assert(size.area() == 256) by (nonlinear_arith)
            requires
                size.width == 16,
                size.height == 16,
        ;
        Glyph::new(size)
    }
}

impl PartialEq for Glyph {
    /// Two glyphs are equal when their pixels are, as far as both have
    /// pixels.
    fn eq(&self, other: &Self) -> (equal: bool) {
        let mut i: usize = 0;
        while i < self.data.len() && i < other.data.len()
            invariant
                forall|j: int| 0 <= j < i ==> self.data@[j] == other.data@[j],
                i <= self.data@.len(),
                i <= other.data@.len(),
            decreases self.data@.len() - i,
        {
            if self.data[i] != other.data[i] {
                return false;
            }
            i = i + 1;
        }
        true
    }
}

impl PartialEqSpecImpl for Glyph {
    open spec fn obeys_eq_spec() -> bool {
        true
    }

    open spec fn eq_spec(&self, other: &Self) -> bool {
        forall|j: int|
            0 <= j < self.data@.len() && j < other.data@.len() ==> self.data@[j] == other.data@[j]
    }
}

} // verus!
