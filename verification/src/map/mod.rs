//! Map utilities.
use crate::common::grid::{cell_index, names_cell};
use crate::common::slices::iter_mut;
use crate::common::{CommonError, Coord, CoordEnumerate, CoordEnumerateMut, CoordIter, Size};
use crate::graphic::{Color, Glyph};
use vstd::prelude::*;
use vstd::std_specs::iter::IteratorSpec;

verus! {

/// Map width in Glyphs.
pub const MAP_WIDTH: usize = 320;

/// Map height in Glyphs.
pub const MAP_HEIGHT: usize = 192;

/// The number of tiles of the map.
pub const MAP_TILES: usize = 61440;

/// The size of the map.
pub open spec fn map_size() -> Size {
    Size { width: MAP_WIDTH, height: MAP_HEIGHT }
}

/// A Tile representation with a glyph and a color.
#[derive(Clone, Copy, PartialEq, Debug)]
pub struct Tile<'refs> {
    /// A reference to a Glyph.
    pub glyph: &'refs Glyph,
    /// A reference to a Color.
    pub color: &'refs Color,
}

impl<'refs> Tile<'refs> {
    /// Creates a new Tile with references to a Glyph and a Color.
    pub fn new(glyph: &'refs Glyph, color: &'refs Color) -> (tile: Self)
        ensures
            tile.glyph == glyph,
            tile.color == color,
    {
        Self { glyph, color }
    }
}

/// A Map representation with 320x192 tiles.
#[derive(Debug)]
pub struct TileMap<'tile> {
    /// Map's tiles.
    pub tiles: Vec<Option<Tile<'tile>>>,
}

impl<'tile> TileMap<'tile> {
    /// Whether the map holds one place for each cell of its size.
    pub open spec fn wf(&self) -> bool {
        self.tiles@.len() == MAP_TILES
    }

    /// Whether `coord` names a place of the map.
    pub open spec fn holds(&self, coord: Coord) -> bool {
        names_cell(map_size(), self.tiles@.len(), coord)
    }

    /// Returns the width.
    pub fn width(&self) -> (width: usize)
        ensures
            width == MAP_WIDTH,
    {
        MAP_WIDTH
    }

    /// Returns the height.
    pub fn height(&self) -> (height: usize)
        ensures
            height == MAP_HEIGHT,
    {
        MAP_HEIGHT
    }

    /// Returns the size.
    pub fn size(&self) -> (size: Size)
        ensures
            size == map_size(),
    {
        Size::new(self.width(), self.height())
    }

    /// Returns a tile.
    pub fn get_tile(&self, coord: Coord) -> (r: Result<Option<Tile<'tile>>, CommonError>)
        ensures
            r == if self.holds(coord) {
                Ok::<Option<Tile<'tile>>, CommonError>(self.tiles@[coord.index_in(MAP_WIDTH)])
            } else {
                Err::<Option<Tile<'tile>>, CommonError>(
                    CommonError::InvalidCoord { coord, size: map_size() },
                )
            },
    {
        match cell_index(self.size(), self.tiles.len(), coord) {
            Some(index) => Ok(self.tiles[index]),
            None => Err(CommonError::new_invalid_coord(coord, self.size())),
        }
    }

    /// Sets a tile.
    pub fn set_tile(&mut self, coord: Coord, value: Tile<'tile>) -> (r: Result<(), CommonError>)
        ensures
            old(self).holds(coord) ==> r is Ok && final(self).tiles@ == old(self).tiles@.update(
                coord.index_in(MAP_WIDTH),
                Some(value),
            ),
            !old(self).holds(coord) ==> final(self).tiles@ == old(self).tiles@ && r == Err::<
                (),
                CommonError,
            >(CommonError::InvalidCoord { coord, size: map_size() }),
    {
        match cell_index(self.size(), self.tiles.len(), coord) {
            Some(index) => {
                self.tiles.set(index, Some(value));
                Ok(())
            },
            None => Err(CommonError::new_invalid_coord(coord, self.size())),
        }
    }

    /// Returns an iterator over all map coords.
    pub fn coords(&self) -> (coords: CoordIter)
        ensures
            coords == (CoordIter { size: map_size(), coord: Coord { x: 0, y: 0 } }),
    {
        CoordIter::new(self.size())
    }

    /// Returns an iterator over all map tiles.
    pub fn iter(&self) -> (iter: core::slice::Iter<'_, Option<Tile<'tile>>>)
        ensures
            iter.remaining() == self.tiles@.as_ref(),
    {
        self.tiles.as_slice().iter()
    }

    /// Returns a mutable iterator over all map tiles.
    pub fn iter_mut<'iter>(&'iter mut self) -> (iter: core::slice::IterMut<
        'iter,
        Option<Tile<'tile>>,
    >)
        ensures
            final(self).tiles@.len() == old(self).tiles@.len(),
    {
        iter_mut(self.tiles.as_mut_slice())
    }

    /// Returns an enumerate iterator over all map coords and tiles.
    pub fn enumerate(&self) -> (enumerate: CoordEnumerate<'_, Option<Tile<'tile>>>)
        ensures
            enumerate.coords == (CoordIter { size: map_size(), coord: Coord { x: 0, y: 0 } }),
            enumerate.iter.remaining() == self.tiles@.as_ref(),
    {
        CoordEnumerate::new(self.coords(), self.iter())
    }

    /// Returns a mutable enumerate iterator over all map coords and tiles.
    pub fn enumerate_mut<'iter>(&'iter mut self) -> (enumerate: CoordEnumerateMut<
        'iter,
        Option<Tile<'tile>>,
    >)
        ensures
            enumerate.coords == (CoordIter { size: map_size(), coord: Coord { x: 0, y: 0 } }),
            final(self).tiles@.len() == old(self).tiles@.len(),
    {
        let coords = self.coords();
        CoordEnumerateMut::new(coords, self.iter_mut())
    }

    /// Whether `coord` names a place of the map.
    pub fn is_coord_valid(&self, coord: Coord) -> (valid: bool)
        ensures
            valid == self.holds(coord),
    {
        cell_index(self.size(), self.tiles.len(), coord).is_some()
    }
}

impl<'tile> Default for TileMap<'tile> {
    /// Creates a new empty Map.
    fn default() -> (map: Self)
        ensures
            map.wf(),
            forall|i: int| 0 <= i < MAP_TILES ==> map.tiles@[i] is None,
    {
        let mut tiles: Vec<Option<Tile<'tile>>> = Vec::with_capacity(MAP_TILES);
        let mut i: usize = 0;
        while i < MAP_TILES
            invariant
                i <= MAP_TILES,
                tiles@.len() == i,
                forall|j: int| 0 <= j < i ==> tiles@[j] is None,
            decreases MAP_TILES - i,
        {
            tiles.push(None);
            i = i + 1;
        }
        Self { tiles }
    }
}

} // verus!
