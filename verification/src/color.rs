//! Colours in the packed form the window system takes: `0x00BBGGRR`.

use vstd::prelude::*;

verus! {

/// The packed value of a colour with the given red, green and blue parts.
pub open spec fn packed(r: u8, g: u8, b: u8) -> int {
    r as int + 256 * (g as int) + 65536 * (b as int)
}

/// Packs the three parts of a colour: red in the lowest byte, then green,
/// then blue; the highest byte is zero.
pub fn rgb(r: u8, g: u8, b: u8) -> (c: u32)
    ensures
        c as int == packed(r, g, b),
{
    let c: u32 = (r as u32) | ((g as u32) << 8) | ((b as u32) << 16);
    assert(((r as u32) | ((g as u32) << 8) | ((b as u32) << 16)) as int == r as int + 256 * (
    g as int) + 65536 * (b as int)) by (bit_vector);
    c
}

/// The three parts of a colour are read back from its packed value: red
/// from the lowest byte, green from the next, blue from the third; and no
/// two colours pack to the same value.
pub proof fn lemma_packed(r: u8, g: u8, b: u8)
    ensures
        0 <= packed(r, g, b) <= 0x00FF_FFFF,
        packed(r, g, b) % 256 == r,
        (packed(r, g, b) / 256) % 256 == g,
        packed(r, g, b) / 65536 == b,
{
}

/// The background of every frame. The window system shows this colour as
/// fully transparent.
pub const KEY_COLOR: u32 = 0x0000_0000;

/// The colour of the outline round the label.
pub const OUTLINE_COLOR: u32 = 0x00FF_FFFF;

/// The colour of the label itself: next to the key colour, yet not it.
pub const GLYPH_COLOR: u32 = 0x0001_0101;

/// The key colour is black, the outline white, the label the darkest grey;
/// neither the outline nor the label is the key colour, so both stay
/// opaque, and the outline differs from the label.
pub proof fn lemma_palette()
    ensures
        KEY_COLOR as int == packed(0, 0, 0),
        OUTLINE_COLOR as int == packed(255, 255, 255),
        GLYPH_COLOR as int == packed(1, 1, 1),
        OUTLINE_COLOR != KEY_COLOR,
        GLYPH_COLOR != KEY_COLOR,
        OUTLINE_COLOR != GLYPH_COLOR,
{
}

} // verus!
