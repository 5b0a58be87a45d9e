//! VRAM implementation and manipulation.
use crate::graphic::{Font, Palette};
use crate::machine::screen::Screen;
use vstd::prelude::*;

verus! {

/// The machine VRAM representation.
#[derive(Debug)]
pub struct VRAM {
    /// The screen.
    pub screen: Screen,
    /// The palette.
    pub palette: Palette,
    /// The font.
    pub font: Font,
}

impl VRAM {
    /// Returns a screen reference.
    pub fn screen(&self) -> (screen: &Screen)
        ensures
            *screen == self.screen,
    {
        &self.screen
    }

    /// Returns a mutable screen reference.
    pub fn screen_mut(&mut self) -> (screen: &mut Screen)
        ensures
            *screen == old(self).screen,
            final(self).screen == *final(screen),
            final(self).palette == old(self).palette,
            final(self).font == old(self).font,
    {
        &mut self.screen
    }

    /// Returns a palette reference.
    pub fn palette(&self) -> (palette: &Palette)
        ensures
            *palette == self.palette,
    {
        &self.palette
    }

    /// Returns a mutable palette reference.
    pub fn palette_mut(&mut self) -> (palette: &mut Palette)
        ensures
            *palette == old(self).palette,
            final(self).palette == *final(palette),
            final(self).screen == old(self).screen,
            final(self).font == old(self).font,
    {
        &mut self.palette
    }

    /// Returns a font reference.
    pub fn font(&self) -> (font: &Font)
        ensures
            *font == self.font,
    {
        &self.font
    }

    /// Returns a mutable font reference.
    pub fn font_mut(&mut self) -> (font: &mut Font)
        ensures
            *font == old(self).font,
            final(self).font == *final(font),
            final(self).screen == old(self).screen,
            final(self).palette == old(self).palette,
    {
        &mut self.font
    }
}

impl Default for VRAM {
    /// Creates a new VRAM.
    fn default() -> (vram: Self)
        ensures
            vram.screen.wf(),
    {
        Self { screen: Screen::default(), palette: Palette::default(), font: Font::default() }
    }
}

} // verus!
