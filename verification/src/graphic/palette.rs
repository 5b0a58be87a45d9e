//! Palette implementation and manipulation.
use crate::common::CommonError;
use crate::graphic::color::Color;
use vstd::prelude::*;
use vstd::slice::slice_to_vec;
use vstd::std_specs::convert::FromSpecImpl;
use vstd::std_specs::iter::IteratorSpec;

verus! {

/// Default number of colors in a Palette.
pub const NUM_COLORS_IN_PALETTE: usize = 16;

/// A Palette representation with N colors.
#[derive(Debug, Clone)]
pub struct Palette {
    /// Palette's colors.
    pub colors: Vec<Color>,
}

impl View for Palette {
    type V = Seq<Color>;

    open spec fn view(&self) -> Seq<Color> {
        self.colors@
    }
}

impl Palette {
    /// Creates a new Palette.
    pub fn new(num_colors: usize) -> (palette: Self)
        ensures
            palette@.len() == num_colors,
            forall|i: int| 0 <= i < num_colors ==> palette@[i] == (Color { red: 0, green: 0, blue: 0 }),
    {
        let mut colors: Vec<Color> = Vec::with_capacity(num_colors);
        let mut i: usize = 0;
        while i < num_colors
            invariant
                i <= num_colors,
                colors@.len() == i,
                forall|j: int| 0 <= j < i ==> colors@[j] == (Color { red: 0, green: 0, blue: 0 }),
            decreases num_colors - i,
        {
            colors.push(Color::default());
            i = i + 1;
        }
        Self { colors }
    }

    /// Returns the lenght.
    pub fn lenght(&self) -> (lenght: usize)
        ensures
            lenght == self@.len(),
    {
        self.colors.len()
    }

    /// Returns a color.
    pub fn get_color(&self, index: usize) -> (r: Result<Color, CommonError>)
        ensures
            r == if index < self@.len() {
                Ok::<Color, CommonError>(self@[index as int])
            } else {
                Err::<Color, CommonError>(
                    CommonError::InvalidIndex { index, lenght: self@.len() as usize },
                )
            },
    {
        if !self.is_index_valid(index) {
            return Err(CommonError::new_invalid_index(index, self.lenght()));
        }
        Ok(self.colors[index])
    }

    /// Sets a color.
    pub fn set_color(&mut self, index: usize, color: Color) -> (r: Result<(), CommonError>)
        ensures
            index < old(self)@.len() ==> r is Ok && final(self)@ == old(self)@.update(
                index as int,
                color,
            ),
            index >= old(self)@.len() ==> final(self)@ == old(self)@ && r == Err::<(), CommonError>(
                CommonError::InvalidIndex { index, lenght: old(self)@.len() as usize },
            ),
    {
        if !self.is_index_valid(index) {
            return Err(CommonError::new_invalid_index(index, self.lenght()));
        }
        self.colors.set(index, color);
        Ok(())
    }

    /// Returns an iterator over all palette colors.
    pub fn iter(&self) -> (iter: core::slice::Iter<'_, Color>)
        ensures
            iter.remaining() == self@.as_ref(),
    {
        self.colors.as_slice().iter()
    }

    /// Creates a Palette that holds a copy of `colors`.
    pub fn from_colors(colors: &[Color]) -> (palette: Self)
        ensures
            palette@ == colors@,
    {
        Self { colors: slice_to_vec(colors) }
    }

    /// Returns a mutable iterator over all palette colors.
    pub fn iter_mut(&mut self) -> (iter: core::slice::IterMut<'_, Color>)
        ensures
            final(self)@.len() == old(self)@.len(),
    {
        crate::common::slices::iter_mut(self.colors.as_mut_slice())
    }

    /// Whether `index` names a color of the palette.
    pub fn is_index_valid(&self, index: usize) -> (valid: bool)
        ensures
            valid == (index < self@.len()),
    {
        index < self.lenght()
    }
}

impl Default for Palette {
    /// Creates a Palette with all colors set to black.
    fn default() -> (palette: Self)
        ensures
            palette@.len() == NUM_COLORS_IN_PALETTE,
            forall|i: int|
                0 <= i < NUM_COLORS_IN_PALETTE ==> palette@[i] == (Color {
                    red: 0,
                    green: 0,
                    blue: 0,
                }),
    {
        Palette::new(NUM_COLORS_IN_PALETTE)
    }
}

impl From<&[Color]> for Palette {
    fn from(colors: &[Color]) -> (palette: Self) {
        Palette::from_colors(colors)
    }
}

impl FromSpecImpl<&[Color]> for Palette {
    open spec fn obeys_from_spec() -> bool {
        false
    }

    open spec fn from_spec(colors: &[Color]) -> Self {
        arbitrary()
    }
}

} // verus!
