//! Text that shows a container as debugging output does.
use crate::graphic::glyph::GlyphPixel;
use vstd::prelude::*;

verus! {

/// The text that `{:?}` gives of a list of pixels.
pub uninterp spec fn pixels_debug(pixels: Seq<GlyphPixel>) -> Seq<char>;

/// The debugging text of a struct `name` with the one field `field`, whose
/// value is shown by `value`: `name { field: value }`.
pub open spec fn struct_text(name: Seq<char>, field: Seq<char>, value: Seq<char>) -> Seq<char> {
    name + " { "@ + field + ": "@ + value + " }"@
}

/// The texts `items` one after the other, with `separator` between each two.
pub open spec fn joined(items: Seq<Seq<char>>, separator: Seq<char>) -> Seq<char>
    decreases items.len(),
{
    if items.len() == 0 {
        Seq::<char>::empty()
    } else if items.len() == 1 {
        items[0]
    } else {
        items[0] + separator + joined(items.drop_first(), separator)
    }
}

/// The debugging text of a list whose items are shown by the texts `items`:
/// in square brackets, a comma and a space between each two.
pub open spec fn list_text(items: Seq<Seq<char>>) -> Seq<char> {
    "["@ + joined(items, ", "@) + "]"@
}

/// The characters of each of the strings `items`.
pub open spec fn texts(items: Seq<String>) -> Seq<Seq<char>> {
    Seq::new(items.len(), |i: int| items[i]@)
}

/// The debugging text of a glyph with the pixels `pixels`: the pixels, and
/// not the size.
pub open spec fn glyph_text(pixels: Seq<GlyphPixel>) -> Seq<char> {
    struct_text("Glyph"@, "data"@, pixels_debug(pixels))
}

/// The debugging text of a font with glyphs of the pixels `glyphs`: the
/// glyphs, each as its own debugging text, and not the glyph size.
pub open spec fn font_text(glyphs: Seq<Seq<GlyphPixel>>) -> Seq<char> {
    struct_text(
        "Font"@,
        "data"@,
        list_text(Seq::new(glyphs.len(), |i: int| glyph_text(glyphs[i]))),
    )
}

/// `format!`: the debugging text of a struct `name` with the one field
/// `field`, whose value is shown as `{:?}` shows the pixels `value`.
#[verifier::external_body]
pub(crate) fn debug_field(name: &str, field: &str, value: &Vec<GlyphPixel>) -> (text: String)
    ensures
        text@ == struct_text(name@, field@, pixels_debug(value@)),
{
    format!("{} {{ {}: {:?} }}", name, field, value)
}

/// `format!` and `join`: the debugging text of a struct `name` with the one
/// field `field`, a list whose items are shown by the texts `items`, with a
/// comma and a space between each two.
#[verifier::external_body]
pub(crate) fn debug_list(name: &str, field: &str, items: &Vec<String>) -> (text: String)
    ensures
        text@ == struct_text(name@, field@, list_text(texts(items@))),
{
    format!("{} {{ {}: [{}] }}", name, field, items.join(", "))
}

} // verus!
