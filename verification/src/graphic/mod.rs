//! Graphic utilities.
pub mod color;
pub mod font;
pub mod glyph;
pub mod palette;

pub use crate::graphic::color::Color;
pub use crate::graphic::font::Font;
pub use crate::graphic::glyph::{Glyph, GlyphPixel};
pub use crate::graphic::palette::Palette;
