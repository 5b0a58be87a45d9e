//! Screen implementation and manipulation.
use crate::common::grid::{cell_index, names_cell};
use crate::common::slices::iter_mut;
use crate::common::{CommonError, Coord, CoordEnumerate, CoordEnumerateMut, CoordIter, Size};
use crate::graphic::Color;
use vstd::prelude::*;
use vstd::std_specs::iter::IteratorSpec;

verus! {

/// Screen width in pixels.
pub const SCREEN_WIDTH: usize = 640;

/// Screen height in pixels.
pub const SCREEN_HEIGHT: usize = 384;

/// The number of pixels of the screen.
pub const SCREEN_PIXELS: usize = 245760;

/// A screen pixel or color.
pub type ScreenPixel = Color;

/// The size of the screen.
pub open spec fn screen_size() -> Size {
    Size { width: SCREEN_WIDTH, height: SCREEN_HEIGHT }
}

/// The black pixel.
pub open spec fn black() -> Color {
    Color { red: 0, green: 0, blue: 0 }
}

/// A Screen representation with 640x384 pixels.
#[derive(Debug, Clone)]
pub struct Screen {
    /// The pixels, row after row.
    pub pixels: Vec<Color>,
}

impl Screen {
    /// Whether the screen holds one pixel for each cell of its size.
    pub open spec fn wf(&self) -> bool {
        self.pixels@.len() == SCREEN_PIXELS
    }

    /// Whether `coord` names a pixel of the screen.
    pub open spec fn holds(&self, coord: Coord) -> bool {
        names_cell(screen_size(), self.pixels@.len(), coord)
    }

    /// Returns the width.
    pub fn width(&self) -> (width: usize)
        ensures
            width == SCREEN_WIDTH,
    {
        SCREEN_WIDTH
    }

    /// Returns the height.
    pub fn height(&self) -> (height: usize)
        ensures
            height == SCREEN_HEIGHT,
    {
        SCREEN_HEIGHT
    }

    /// Returns the size.
    pub fn size(&self) -> (size: Size)
        ensures
            size == screen_size(),
    {
        Size::new(self.width(), self.height())
    }

    /// Returns a pixel.
    pub fn get_pixel(&self, coord: Coord) -> (r: Result<ScreenPixel, CommonError>)
        ensures
            r == if self.holds(coord) {
                Ok::<Color, CommonError>(self.pixels@[coord.index_in(SCREEN_WIDTH)])
            } else {
                Err::<Color, CommonError>(CommonError::InvalidCoord { coord, size: screen_size() })
            },
    {
        match cell_index(self.size(), self.pixels.len(), coord) {
            Some(index) => Ok(self.pixels[index]),
            None => Err(CommonError::new_invalid_coord(coord, self.size())),
        }
    }

    /// Sets a pixels.
    pub fn set_pixel(&mut self, coord: Coord, pixel: ScreenPixel) -> (r: Result<(), CommonError>)
        ensures
            old(self).holds(coord) ==> r is Ok && final(self).pixels@ == old(self).pixels@.update(
                coord.index_in(SCREEN_WIDTH),
                pixel,
            ),
            !old(self).holds(coord) ==> final(self).pixels@ == old(self).pixels@ && r == Err::<
                (),
                CommonError,
            >(CommonError::InvalidCoord { coord, size: screen_size() }),
    {
        match cell_index(self.size(), self.pixels.len(), coord) {
            Some(index) => {
                self.pixels.set(index, pixel);
                Ok(())
            },
            None => Err(CommonError::new_invalid_coord(coord, self.size())),
        }
    }

    /// Clears all pixels to black.
    pub fn clear(&mut self)
        ensures
            final(self).pixels@.len() == old(self).pixels@.len(),
            forall|i: int| 0 <= i < final(self).pixels@.len() ==> final(self).pixels@[i] == black(),
    {
        let count: usize = self.pixels.len();
        let mut i: usize = 0;
        while i < count
            invariant
                i <= count,
                self.pixels@.len() == count,
                forall|j: int| 0 <= j < i ==> self.pixels@[j] == black(),
            decreases count - i,
        {
            self.pixels.set(i, Color::default());
            i = i + 1;
        }
    }

    /// Returns an iterator over all screen coords.
    pub fn coords(&self) -> (coords: CoordIter)
        ensures
            coords == (CoordIter { size: screen_size(), coord: Coord { x: 0, y: 0 } }),
    {
        CoordIter::new(self.size())
    }

    /// Returns an iterator over all screen pixels.
    pub fn iter(&self) -> (iter: core::slice::Iter<'_, ScreenPixel>)
        ensures
            iter.remaining() == self.pixels@.as_ref(),
    {
        self.pixels.as_slice().iter()
    }

    /// Returns a mutable iterator over all screen pixels.
    pub fn iter_mut(&mut self) -> (iter: core::slice::IterMut<'_, ScreenPixel>)
        ensures
            final(self).pixels@.len() == old(self).pixels@.len(),
    {
        iter_mut(self.pixels.as_mut_slice())
    }

    /// Returns an enumerate iterator over all screen coords and pixels.
    pub fn enumerate(&self) -> (enumerate: CoordEnumerate<'_, ScreenPixel>)
        ensures
            enumerate.coords == (CoordIter { size: screen_size(), coord: Coord { x: 0, y: 0 } }),
            enumerate.iter.remaining() == self.pixels@.as_ref(),
    {
        CoordEnumerate::new(self.coords(), self.iter())
    }

    /// Returns a mutable enumerate iterator over all screen coords and
    /// pixels.
    pub fn enumerate_mut(&mut self) -> (enumerate: CoordEnumerateMut<'_, ScreenPixel>)
        ensures
            enumerate.coords == (CoordIter { size: screen_size(), coord: Coord { x: 0, y: 0 } }),
            final(self).pixels@.len() == old(self).pixels@.len(),
    {
        let coords = self.coords();
        CoordEnumerateMut::new(coords, self.iter_mut())
    }

    /// Whether `coord` names a pixel of the screen.
    pub fn is_coord_valid(&self, coord: Coord) -> (valid: bool)
        ensures
            valid == self.holds(coord),
    {
        cell_index(self.size(), self.pixels.len(), coord).is_some()
    }
}

impl Default for Screen {
    /// Creates a new black Screen.
    fn default() -> (screen: Self)
        ensures
            screen.wf(),
            forall|i: int| 0 <= i < SCREEN_PIXELS ==> screen.pixels@[i] == black(),
    {
        let mut pixels: Vec<Color> = Vec::with_capacity(SCREEN_PIXELS);
        let mut i: usize = 0;
        while i < SCREEN_PIXELS
            invariant
                i <= SCREEN_PIXELS,
                pixels@.len() == i,
                forall|j: int| 0 <= j < i ==> pixels@[j] == black(),
            decreases SCREEN_PIXELS - i,
        {
            pixels.push(Color::default());
            i = i + 1;
        }
        Self { pixels }
    }
}

} // verus!
