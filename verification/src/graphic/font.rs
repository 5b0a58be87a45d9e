//! Font implementation and manipulation.
use crate::common::slices::iter_mut;
use crate::common::text::{debug_list, font_text, glyph_text, texts};
use crate::common::{CommonError, Size};
use crate::graphic::glyph::{Glyph, GlyphPixel, GLYPH_HEIGHT, GLYPH_WIDTH};
use vstd::prelude::*;
use vstd::std_specs::iter::IteratorSpec;

verus! {

/// Default number of Glyphs in a Font.
pub const NUM_GLYPHS_IN_FONT: usize = 256;

/// Whether `glyph` is a glyph of the default size with all pixels empty.
pub open spec fn is_blank(glyph: Glyph) -> bool {
    &&& glyph.wf()
    &&& glyph.size == (Size { width: GLYPH_WIDTH, height: GLYPH_HEIGHT })
    &&& forall|i: int| 0 <= i < glyph.data@.len() ==> glyph.data@[i] == GlyphPixel::Empty
}

/// A Font representation with N Glyphs.
#[derive(Debug, Clone)]
pub struct Font {
    /// Font's glyph size.
    pub glyph_size: Size,
    /// Font's glyphs.
    pub glyphs: Vec<Glyph>,
}

impl Font {
    /// Creates a new Font: `num_glyphs` glyphs of the default size, all
    /// blank.
    pub fn new(glyph_size: Size, num_glyphs: usize) -> (font: Self)
        ensures
            font.glyph_size == glyph_size,
            font.glyphs@.len() == num_glyphs,
            forall|i: int| 0 <= i < num_glyphs ==> is_blank(font.glyphs@[i]),
    {
        let mut glyphs: Vec<Glyph> = Vec::with_capacity(num_glyphs);
        let mut i: usize = 0;
        while i < num_glyphs
            invariant
                i <= num_glyphs,
                glyphs@.len() == i,
                forall|j: int| 0 <= j < i ==> is_blank(glyphs@[j]),
            decreases num_glyphs - i,
        {
            glyphs.push(Glyph::default());
            i = i + 1;
        }
        Self { glyph_size, glyphs }
    }

    /// Returns glyph's size.
    pub fn glyph_size(&self) -> (size: Size)
        ensures
            size == self.glyph_size,
    {
        self.glyph_size
    }

    /// Returns the lenght.
    pub fn lenght(&self) -> (lenght: usize)
        ensures
            lenght == self.glyphs@.len(),
    {
        self.glyphs.len()
    }

    /// Returns a glyph.
    pub fn get_glyph(&self, index: usize) -> (r: Result<&Glyph, CommonError>)
        ensures
            r == if index < self.glyphs@.len() {
                Ok::<&Glyph, CommonError>(&self.glyphs@[index as int])
            } else {
                Err::<&Glyph, CommonError>(
                    CommonError::InvalidIndex { index, lenght: self.glyphs@.len() as usize },
                )
            },
    {
        if !self.is_index_valid(index) {
            return Err(CommonError::new_invalid_index(index, self.lenght()));
        }
        Ok(&self.glyphs[index])
    }

    /// Returns a mutable glyph.
    pub fn get_glyph_mut(&mut self, index: usize) -> (r: Result<&mut Glyph, CommonError>)
        ensures
            final(self).glyph_size == old(self).glyph_size,
            index < old(self).glyphs@.len() ==> r is Ok && *r->Ok_0 == old(self).glyphs@[index as int]
                && final(self).glyphs@ == old(self).glyphs@.update(index as int, *final(r->Ok_0)),
            index >= old(self).glyphs@.len() ==> final(self).glyphs@ == old(self).glyphs@ && r
                == Err::<&mut Glyph, CommonError>(
                CommonError::InvalidIndex { index, lenght: old(self).glyphs@.len() as usize },
            ),
    {
        if !self.is_index_valid(index) {
            return Err(CommonError::new_invalid_index(index, self.lenght()));
        }
        Ok(&mut self.glyphs[index])
    }

    /// Sets a glyph.
    pub fn set_glyph(&mut self, index: usize, glyph: Glyph) -> (r: Result<(), CommonError>)
        ensures
            final(self).glyph_size == old(self).glyph_size,
            index < old(self).glyphs@.len() ==> r is Ok && final(self).glyphs@ == old(
                self
            ).glyphs@.update(index as int, glyph),
            index >= old(self).glyphs@.len() ==> final(self).glyphs@ == old(self).glyphs@ && r
                == Err::<(), CommonError>(
                CommonError::InvalidIndex { index, lenght: old(self).glyphs@.len() as usize },
            ),
    {
        if !self.is_index_valid(index) {
            return Err(CommonError::new_invalid_index(index, self.lenght()));
        }
        self.glyphs.set(index, glyph);
        Ok(())
    }

    /// Returns an iterator over all font glyphs.
    pub fn iter(&self) -> (iter: core::slice::Iter<'_, Glyph>)
        ensures
            iter.remaining() == self.glyphs@.as_ref(),
    {
        self.glyphs.as_slice().iter()
    }

    /// Returns a mutable iterator over all font glyphs.
    pub fn iter_mut(&mut self) -> (iter: core::slice::IterMut<'_, Glyph>)
        ensures
            final(self).glyph_size == old(self).glyph_size,
            final(self).glyphs@.len() == old(self).glyphs@.len(),
    {
        iter_mut(self.glyphs.as_mut_slice())
    }

    /// Returns the debugging text of the font: its glyphs, each as its own
    /// debugging text, without the glyph size.
    pub fn debug_string(&self) -> (text: String)
        ensures
            text@ == font_text(Seq::new(self.glyphs@.len(), |i: int| self.glyphs@[i].data@)),
    {
        let mut items: Vec<String> = Vec::with_capacity(self.glyphs.len());
        let mut i: usize = 0;
        while i < self.glyphs.len()
            invariant
                i <= self.glyphs@.len(),
                items@.len() == i,
                forall|j: int| 0 <= j < i ==> items@[j]@ == glyph_text(self.glyphs@[j].data@),
            decreases self.glyphs@.len() - i,
        {
            items.push(self.glyphs[i].debug_string());
            i = i + 1;
        }
        proof {
            let glyphs = Seq::new(self.glyphs@.len(), |i: int| self.glyphs@[i].data@);
            assert(texts(items@) =~= Seq::new(glyphs.len(), |i: int| glyph_text(glyphs[i])));
        }
        debug_list("Font", "data", &items)
    }

    /// Whether `index` names a glyph of the font.
    pub fn is_index_valid(&self, index: usize) -> (valid: bool)
        ensures
            valid == (index < self.glyphs@.len()),
    {
        index < self.lenght()
    }
}

impl Default for Font {
    /// Creates a Font with default empty glyphs.
    fn default() -> (font: Self)
        ensures
            font.glyph_size == (Size { width: GLYPH_WIDTH, height: GLYPH_HEIGHT }),
            font.glyphs@.len() == NUM_GLYPHS_IN_FONT,
            forall|i: int| 0 <= i < NUM_GLYPHS_IN_FONT ==> is_blank(font.glyphs@[i]),
    {
        Font::new(Size::new(GLYPH_WIDTH, GLYPH_HEIGHT), NUM_GLYPHS_IN_FONT)
    }
}

} // verus!
