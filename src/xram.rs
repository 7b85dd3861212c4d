use vstd::prelude::*;

verus! {

/// Size of extended RAM in bytes.
pub const XRAM_SIZE: usize = 0x10000;

/// Little-endian u16 at byte offset `p`.
pub open spec fn le_u16(m: Seq<u8>, p: int) -> u16 {
    (m[p] as int + 256 * m[p + 1] as int) as u16
}

/// Little-endian i16 at byte offset `p` (two's complement).
pub open spec fn le_i16(m: Seq<u8>, p: int) -> i16 {
    le_u16(m, p) as i16
}

/// Read a little-endian u16 at offset `p`.
pub fn read_u16(m: &[u8], p: usize) -> (r: u16)
    requires
        p + 1 < m@.len(),
    ensures
        r == le_u16(m@, p as int),
{
    (m[p] as u16) + (m[p + 1] as u16) * 256
}

/// Read a little-endian i16 at offset `p`.
pub fn read_i16(m: &[u8], p: usize) -> (r: i16)
    requires
        p + 1 < m@.len(),
    ensures
        r == le_i16(m@, p as int),
{
    read_u16(m, p) as i16
}

/// Last scanline (exclusive) of a plane's window; 0 means the canvas height.
pub open spec fn window_end(scanline_end: u16, canvas_height: u16) -> int {
    if scanline_end == 0 {
        canvas_height as int
    } else {
        scanline_end as int
    }
}

/// Whether canvas row `y` lies in a plane's scanline window.
pub open spec fn in_window(scanline_begin: u16, scanline_end: u16, canvas_height: u16, y: int) -> bool {
    scanline_begin <= y && y < window_end(scanline_end, canvas_height) && 0 <= y && y < canvas_height
}

/// Position inside a plane of extent `size` for a canvas offset `d` from the
/// plane's origin: wrapped (Euclidean remainder) when `wrap` is set, and
/// `None` when it falls outside the plane.
pub open spec fn plane_coord(d: int, size: int, wrap: bool) -> Option<int> {
    let c = if wrap { d % size } else { d };
    if 0 <= c && c < size {
        Some(c)
    } else {
        None
    }
}

/// What a plane leaves in a canvas pixel: its color if it drew one, the old
/// pixel otherwise.
pub open spec fn overlay(drawn: Option<u32>, old: u32) -> u32 {
    match drawn {
        Some(c) => c,
        None => old,
    }
}

/// Keep a color only when its alpha byte is nonzero.
pub open spec fn opaque(c: u32) -> Option<u32> {
    if c % 0x100 != 0 {
        Some(c)
    } else {
        None
    }
}

/// Whether the alpha byte of an RGBA word is nonzero.
pub fn is_opaque(c: u32) -> (r: bool)
    ensures
        r == (c % 0x100 != 0),
{
    c % 0x100 != 0
}

/// Euclidean remainder of `d` by `size`.
pub fn rem_euclid(d: i32, size: i32) -> (r: i32)
    requires
        size > 0,
    ensures
        r == d as int % size as int,
        0 <= r < size,
{
    if d >= 0 {
        ((d as u32) % (size as u32)) as i32
    } else {
        let n: u32 = (-(d as i64)) as u32;
        let m: u32 = n % (size as u32);
        proof {
            let ni = n as int;
            let si = size as int;
            vstd::arithmetic::div_mod::lemma_fundamental_div_mod(ni, si);
            let q = ni / si;
            assert(d as int == -(q * si) - (m as int));
            if m == 0 {
                vstd::arithmetic::div_mod::lemma_mod_multiples_basic(-q, si);
                assert(-(q * si) == (-q) * si) by (nonlinear_arith);
            } else {
                assert(d as int == (-q - 1) * si + (si - m as int)) by (nonlinear_arith)
                    requires
                        d as int == -(q * si) - (m as int),
                ;
                vstd::arithmetic::div_mod::lemma_mod_multiples_vanish(-q - 1, si - m as int, si);
                vstd::arithmetic::div_mod::lemma_small_mod((si - m as int) as nat, si as nat);
            }
        }
        if m == 0 {
            0
        } else {
            size - (m as i32)
        }
    }
}

/// Position inside a plane, as `plane_coord` states it.
pub fn plane_position(d: i32, size: i32, wrap: bool) -> (r: Option<i32>)
    requires
        size > 0,
    ensures
        r matches Some(c) ==> plane_coord(d as int, size as int, wrap) == Some(c as int),
        r is None ==> plane_coord(d as int, size as int, wrap) is None,
{
    let c = if wrap {
        rem_euclid(d, size)
    } else {
        d
    };
    if 0 <= c && c < size {
        Some(c)
    } else {
        None
    }
}

} // verus!
