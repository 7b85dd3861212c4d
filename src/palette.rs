use vstd::prelude::*;
use crate::xram::{le_u16, read_u16, XRAM_SIZE};

verus! {

/// An RGBA word: R in bits 31..24, G in 23..16, B in 15..8, alpha in 7..0.
pub open spec fn rgba_word(r: u8, g: u8, b: u8, a: u8) -> u32 {
    (r as int * 0x100_0000 + g as int * 0x1_0000 + b as int * 0x100 + a as int) as u32
}

pub open spec fn red_of(c: u32) -> u8 {
    (c / 0x100_0000) as u8
}

pub open spec fn green_of(c: u32) -> u8 {
    (c / 0x1_0000 % 0x100) as u8
}

pub open spec fn blue_of(c: u32) -> u8 {
    (c / 0x100 % 0x100) as u8
}

pub open spec fn alpha_of(c: u32) -> u8 {
    (c % 0x100) as u8
}

/// Expand a 5-bit channel to 8 bits by replicating its top bits.
pub open spec fn expand5(v: int) -> int {
    v * 8 + v / 4
}

/// RGB565 with alpha: R5 in bits 4..0, alpha in bit 5, G5 in bits 10..6,
/// B5 in bits 15..11.
pub open spec fn rgb565_color(raw: u16) -> u32 {
    rgba_word(
        expand5(raw as int % 32) as u8,
        expand5(raw as int / 64 % 32) as u8,
        expand5(raw as int / 2048) as u8,
        if raw as int / 32 % 2 == 1 { 0xFF } else { 0 },
    )
}

/// Back to RGB565: the top five bits of each channel, and bit 5 set for a
/// nonzero alpha.
pub open spec fn rgb565_of(c: u32) -> u16 {
    ((blue_of(c) / 8) as int * 2048 + (green_of(c) / 8) as int * 64 + (if alpha_of(c) != 0 {
        32int
    } else {
        0int
    }) + (red_of(c) / 8) as int) as u16
}

/// The standard and bright ANSI colors, entries 1..15 of the 256-color palette.
pub open spec fn ansi_rgb(i: int) -> (u8, u8, u8) {
    if i == 1 {
        (205, 0, 0)
    } else if i == 2 {
        (0, 205, 0)
    } else if i == 3 {
        (205, 205, 0)
    } else if i == 4 {
        (0, 0, 238)
    } else if i == 5 {
        (205, 0, 205)
    } else if i == 6 {
        (0, 205, 205)
    } else if i == 7 {
        (229, 229, 229)
    } else if i == 8 {
        (127, 127, 127)
    } else if i == 9 {
        (255, 0, 0)
    } else if i == 10 {
        (0, 255, 0)
    } else if i == 11 {
        (255, 255, 0)
    } else if i == 12 {
        (92, 92, 255)
    } else if i == 13 {
        (255, 0, 255)
    } else if i == 14 {
        (0, 255, 255)
    } else {
        (255, 255, 255)
    }
}

/// Channel levels of the 6x6x6 color cube: 0, 95, 135, 175, 215, 255.
pub open spec fn cube_level(k: int) -> u8 {
    if k == 0 {
        0
    } else {
        (55 + 40 * k) as u8
    }
}

/// The built-in 256-color palette: transparent black, the ANSI colors, the
/// color cube (red outermost, blue innermost), and a greyscale ramp.
pub open spec fn palette_256_color(i: int) -> u32 {
    if i == 0 {
        rgba_word(0, 0, 0, 0)
    } else if i < 16 {
        rgba_word(ansi_rgb(i).0, ansi_rgb(i).1, ansi_rgb(i).2, 0xFF)
    } else if i < 232 {
        rgba_word(
            cube_level((i - 16) / 36),
            cube_level((i - 16) / 6 % 6),
            cube_level((i - 16) % 6),
            0xFF,
        )
    } else {
        rgba_word((8 + 10 * (i - 232)) as u8, (8 + 10 * (i - 232)) as u8, (8 + 10 * (i - 232)) as u8, 0xFF)
    }
}

/// The built-in 1-bpp palette: transparent black and opaque light grey.
pub open spec fn palette_2_color(i: int) -> u32 {
    if i == 0 {
        rgba_word(0, 0, 0, 0)
    } else {
        rgba_word(192, 192, 192, 0xFF)
    }
}

/// Opaque RGBA word for an RGB color.
pub fn rgba(r: u8, g: u8, b: u8) -> (c: u32)
    ensures
        c == rgba_word(r, g, b, 0xFF),
{
    (r as u32) * 0x100_0000 + (g as u32) * 0x1_0000 + (b as u32) * 0x100 + 0xFF
}

/// Transparent (alpha 0) RGBA word for an RGB color.
pub fn rgba_transparent(r: u8, g: u8, b: u8) -> (c: u32)
    ensures
        c == rgba_word(r, g, b, 0),
{
    (r as u32) * 0x100_0000 + (g as u32) * 0x1_0000 + (b as u32) * 0x100
}

/// Entry `i` of the built-in 1-bpp palette.
pub fn palette_2(i: u8) -> (c: u32)
    requires
        i < 2,
    ensures
        c == palette_2_color(i as int),
{
    if i == 0 {
        rgba_transparent(0, 0, 0)
    } else {
        rgba(192, 192, 192)
    }
}

fn cube_level_value(k: u8) -> (v: u8)
    requires
        k < 6,
    ensures
        v == cube_level(k as int),
{
    if k == 0 {
        0
    } else {
        55 + 40 * k
    }
}

/// Entry `i` of the built-in 256-color palette.
pub fn palette_256(i: u8) -> (c: u32)
    ensures
        c == palette_256_color(i as int),
{
    if i == 0 {
        rgba_transparent(0, 0, 0)
    } else if i < 16 {
        let (r, g, b): (u8, u8, u8) = match i {
            1 => (205, 0, 0),
            2 => (0, 205, 0),
            3 => (205, 205, 0),
            4 => (0, 0, 238),
            5 => (205, 0, 205),
            6 => (0, 205, 205),
            7 => (229, 229, 229),
            8 => (127, 127, 127),
            9 => (255, 0, 0),
            10 => (0, 255, 0),
            11 => (255, 255, 0),
            12 => (92, 92, 255),
            13 => (255, 0, 255),
            14 => (0, 255, 255),
            _ => (255, 255, 255),
        };
        rgba(r, g, b)
    } else if i < 232 {
        let k = i - 16;
        rgba(cube_level_value(k / 36), cube_level_value(k / 6 % 6), cube_level_value(k % 6))
    } else {
        let v = 8 + 10 * (i - 232);
        rgba(v, v, v)
    }
}

/// Convert a 16-bit RGB565-with-alpha word (as stored in XRAM palettes and
/// 16-bpp bitmaps) to an RGBA word.
pub fn rgb565_to_rgba(raw: u16) -> (c: u32)
    ensures
        c == rgb565_color(raw),
{
    let r5 = (raw % 32) as u8;
    let g5 = (raw / 64 % 32) as u8;
    let b5 = (raw / 2048) as u8;
    let a: u8 = if raw / 32 % 2 == 1 { 0xFF } else { 0 };
    let r = r5 * 8 + r5 / 4;
    let g = g5 * 8 + g5 / 4;
    let b = b5 * 8 + b5 / 4;
    (r as u32) * 0x100_0000 + (g as u32) * 0x1_0000 + (b as u32) * 0x100 + (a as u32)
}

/// Number of entries of an indexed palette: 2 to the power of the depth;
/// direct color (16 bpp) has none.
pub open spec fn palette_len(bpp: u32) -> int {
    if bpp == 1 {
        2
    } else if bpp == 2 {
        4
    } else if bpp == 4 {
        16
    } else if bpp == 8 {
        256
    } else {
        0
    }
}

pub open spec fn valid_bpp(bpp: u32) -> bool {
    bpp == 1 || bpp == 2 || bpp == 4 || bpp == 8 || bpp == 16
}

/// Whether a caller-supplied XRAM palette is used: a nonzero, even pointer
/// whose entries all fit in XRAM.
pub open spec fn custom_palette(bpp: u32, palette_ptr: u16) -> bool {
    palette_ptr != 0 && palette_ptr % 2 == 0 && palette_ptr as int + 2 * palette_len(bpp) <= 0x10000
}

/// Entry `i` of the palette that a plane of depth `bpp` resolves to.
pub open spec fn palette_color(xram: Seq<u8>, bpp: u32, palette_ptr: u16, i: int) -> u32 {
    if custom_palette(bpp, palette_ptr) {
        rgb565_color(le_u16(xram, palette_ptr + 2 * i))
    } else if bpp == 1 {
        palette_2_color(i)
    } else {
        palette_256_color(i)
    }
}

/// `pal` holds the palette that a plane of depth `bpp` resolves to.
pub open spec fn palette_matches(pal: Seq<u32>, xram: Seq<u8>, bpp: u32, palette_ptr: u16) -> bool {
    &&& pal.len() == palette_len(bpp)
    &&& forall|i: int| 0 <= i < pal.len() ==> pal[i] == palette_color(xram, bpp, palette_ptr, i)
}

/// Resolve the palette of an indexed plane: from XRAM when `palette_ptr`
/// selects a custom one, else the built-in palette for the depth.
pub fn resolve_palette(xram: &[u8], bpp: u32, palette_ptr: u16) -> (pal: Vec<u32>)
    requires
        xram@.len() == XRAM_SIZE,
        valid_bpp(bpp),
    ensures
        palette_matches(pal@, xram@, bpp, palette_ptr),
{
    let count: usize = if bpp == 1 {
        2
    } else if bpp == 2 {
        4
    } else if bpp == 4 {
        16
    } else if bpp == 8 {
        256
    } else {
        0
    };
    let custom = palette_ptr != 0 && palette_ptr % 2 == 0 && palette_ptr as usize + 2 * count
        <= XRAM_SIZE;
    let mut pal: Vec<u32> = Vec::new();
    let mut i: usize = 0;
    while i < count
        invariant
            count == palette_len(bpp),
            count <= 256,
            custom == custom_palette(bpp, palette_ptr),
            xram@.len() == XRAM_SIZE,
            i <= count,
            pal@.len() == i,
            forall|j: int| 0 <= j < i ==> pal@[j] == palette_color(xram@, bpp, palette_ptr, j),
        decreases count - i,
    {
        let c = if custom {
            rgb565_to_rgba(read_u16(xram, palette_ptr as usize + 2 * i))
        } else if bpp == 1 {
            palette_2(i as u8)
        } else {
            palette_256(i as u8)
        };
        pal.push(c);
        i += 1;
    }
    pal
}

proof fn lemma_rgba_fields(r: u8, g: u8, b: u8, a: u8)
    ensures
        red_of(rgba_word(r, g, b, a)) == r,
        green_of(rgba_word(r, g, b, a)) == g,
        blue_of(rgba_word(r, g, b, a)) == b,
        alpha_of(rgba_word(r, g, b, a)) == a,
{
    let c = r as int * 0x100_0000 + g as int * 0x1_0000 + b as int * 0x100 + a as int;
    assert(c < 0x1_0000_0000);
    assert(c / 0x100_0000 == r as int);
    assert(c / 0x1_0000 == r as int * 0x100 + g as int);
    assert(c / 0x100 == r as int * 0x1_0000 + g as int * 0x100 + b as int);
}

proof fn lemma_expand5_top(v: int)
    requires
        0 <= v < 32,
    ensures
        0 <= expand5(v) < 256,
        expand5(v) / 8 == v,
{
}

proof fn lemma_rgb565_fields(raw: int)
    requires
        0 <= raw < 0x10000,
    ensures
        raw == (raw / 2048) * 2048 + (raw / 64 % 32) * 64 + (raw / 32 % 2) * 32 + raw % 32,
        raw / 2048 < 32,
{
    vstd::arithmetic::div_mod::lemma_fundamental_div_mod(raw, 32);
    vstd::arithmetic::div_mod::lemma_fundamental_div_mod(raw / 32, 2);
    vstd::arithmetic::div_mod::lemma_fundamental_div_mod(raw / 64, 32);
    vstd::arithmetic::div_mod::lemma_div_denominator(raw, 32, 2);
    vstd::arithmetic::div_mod::lemma_div_denominator(raw, 64, 32);
}

/// Converting RGB565 to RGBA and taking the top five bits of each channel
/// back gives the same word: all 15 color bits and the alpha bit survive.
pub proof fn lemma_rgb565_round_trip(raw: u16)
    ensures
        rgb565_of(rgb565_color(raw)) == raw,
{
    let x = raw as int;
    let r5 = x % 32;
    let g5 = x / 64 % 32;
    let b5 = x / 2048;
    let a: u8 = if x / 32 % 2 == 1 { 0xFF } else { 0 };
    lemma_rgb565_fields(x);
    lemma_expand5_top(r5);
    lemma_expand5_top(g5);
    lemma_expand5_top(b5);
    let (r, g, b) = (expand5(r5) as u8, expand5(g5) as u8, expand5(b5) as u8);
    lemma_rgba_fields(r, g, b, a);
    let c = rgb565_color(raw);
    assert(c == rgba_word(r, g, b, a));
    assert(red_of(c) / 8 == r5);
    assert(green_of(c) / 8 == g5);
    assert(blue_of(c) / 8 == b5);
    assert((alpha_of(c) != 0) == (x / 32 % 2 == 1));
}

} // verus!
