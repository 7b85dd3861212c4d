use vstd::prelude::*;

verus! {

/// Row `row` (0 at the top) of built-in glyph `glyph` in a font of height
/// `font_height`, as a byte whose most significant bit is the leftmost pixel.
///
/// The built-in table holds the block-graphics glyphs of code page 437: the
/// three shades (0xB0..0xB2), the full block (0xDB), and the lower, left,
/// right and upper half blocks (0xDC..0xDF). Every other glyph is blank.
pub open spec fn builtin_glyph_row(font_height: int, row: int, glyph: int) -> u8 {
    if glyph == 0xB0 {
        if row % 2 == 0 { 0x22 } else { 0x88 }
    } else if glyph == 0xB1 {
        if row % 2 == 0 { 0x55 } else { 0xAA }
    } else if glyph == 0xB2 {
        if row % 2 == 0 { 0x77 } else { 0xDD }
    } else if glyph == 0xDB {
        0xFF
    } else if glyph == 0xDC {
        if row >= font_height / 2 { 0xFF } else { 0 }
    } else if glyph == 0xDD {
        0xF0
    } else if glyph == 0xDE {
        0x0F
    } else if glyph == 0xDF {
        if row < font_height / 2 { 0xFF } else { 0 }
    } else {
        0
    }
}

/// One row of one built-in glyph.
pub fn builtin_glyph_byte(font_height: usize, row: usize, glyph: usize) -> (r: u8)
    ensures
        r == builtin_glyph_row(font_height as int, row as int, glyph as int),
{
    if glyph == 0xB0 {
        if row % 2 == 0 { 0x22 } else { 0x88 }
    } else if glyph == 0xB1 {
        if row % 2 == 0 { 0x55 } else { 0xAA }
    } else if glyph == 0xB2 {
        if row % 2 == 0 { 0x77 } else { 0xDD }
    } else if glyph == 0xDB {
        0xFF
    } else if glyph == 0xDC {
        if row >= font_height / 2 { 0xFF } else { 0 }
    } else if glyph == 0xDD {
        0xF0
    } else if glyph == 0xDE {
        0x0F
    } else if glyph == 0xDF {
        if row < font_height / 2 { 0xFF } else { 0 }
    } else {
        0
    }
}

/// The built-in font of height `font_height` (8 or 16), laid out as the
/// XRAM fonts are: 256 bytes per glyph row, byte `row * 256 + glyph`.
pub fn builtin_font(font_height: usize) -> (font: Vec<u8>)
    requires
        font_height == 8 || font_height == 16,
    ensures
        font@.len() == 256 * font_height,
        forall|i: int|
            0 <= i < font@.len() ==> font@[i] == builtin_glyph_row(font_height as int, i / 256, i % 256),
{
    let n = 256 * font_height;
    let mut font: Vec<u8> = Vec::new();
    let mut i: usize = 0;
    while i < n
        invariant
            n == 256 * font_height,
            i <= n,
            font@.len() == i,
            forall|j: int|
                0 <= j < i ==> font@[j] == builtin_glyph_row(font_height as int, j / 256, j % 256),
        decreases n - i,
    {
        font.push(builtin_glyph_byte(font_height, i / 256, i % 256));
        i += 1;
    }
    font
}

} // verus!
