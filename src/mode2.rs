use vstd::prelude::*;
use crate::layout::{lemma_index_split, lemma_row_offset, lemma_row_span};
use crate::palette::{palette_color, palette_len, palette_matches, resolve_palette};
use crate::xram::{
    in_window, is_opaque, le_i16, le_u16, opaque, overlay, plane_coord, plane_position, read_i16,
    read_u16, XRAM_SIZE,
};

verus! {

/// Mode 2 configuration, read from XRAM at config_ptr (16 bytes,
/// little-endian): x_wrap, y_wrap (1 byte each), x_pos_px, y_pos_px,
/// width_tiles, height_tiles (i16 each), xram_data_ptr, xram_palette_ptr,
/// xram_tile_ptr (u16 each).
#[derive(Debug, Clone, Copy, PartialEq, Eq, Structural)]
pub struct Mode2Config {
    pub x_wrap: bool,
    pub y_wrap: bool,
    pub x_pos_px: i16,
    pub y_pos_px: i16,
    pub width_tiles: i16,
    pub height_tiles: i16,
    pub xram_data_ptr: u16,
    pub xram_palette_ptr: u16,
    pub xram_tile_ptr: u16,
}

/// Mode 2 format: tile size (8x8 or 16x16) and color depth.
#[allow(non_camel_case_types)]
#[derive(Debug, Clone, Copy, PartialEq, Eq, Structural)]
pub enum Mode2Format {
    Bpp1_8x8,
    Bpp2_8x8,
    Bpp4_8x8,
    Bpp8_8x8,
    Bpp1_16x16,
    Bpp2_16x16,
    Bpp4_16x16,
    Bpp8_16x16,
}

/// The format an attribute selects: bit 3 picks 16x16 tiles, the low bits
/// the depth (0..3).
pub open spec fn mode2_format_of(attr: u16) -> Option<Mode2Format> {
    if attr == 0 {
        Some(Mode2Format::Bpp1_8x8)
    } else if attr == 1 {
        Some(Mode2Format::Bpp2_8x8)
    } else if attr == 2 {
        Some(Mode2Format::Bpp4_8x8)
    } else if attr == 3 {
        Some(Mode2Format::Bpp8_8x8)
    } else if attr == 8 {
        Some(Mode2Format::Bpp1_16x16)
    } else if attr == 9 {
        Some(Mode2Format::Bpp2_16x16)
    } else if attr == 10 {
        Some(Mode2Format::Bpp4_16x16)
    } else if attr == 11 {
        Some(Mode2Format::Bpp8_16x16)
    } else {
        None
    }
}

impl Mode2Format {
    pub open spec fn spec_tile_size(self) -> i16 {
        match self {
            Mode2Format::Bpp1_8x8 | Mode2Format::Bpp2_8x8 | Mode2Format::Bpp4_8x8
            | Mode2Format::Bpp8_8x8 => 8,
            _ => 16,
        }
    }

    pub open spec fn spec_bpp(self) -> u32 {
        match self {
            Mode2Format::Bpp1_8x8 | Mode2Format::Bpp1_16x16 => 1,
            Mode2Format::Bpp2_8x8 | Mode2Format::Bpp2_16x16 => 2,
            Mode2Format::Bpp4_8x8 | Mode2Format::Bpp4_16x16 => 4,
            Mode2Format::Bpp8_8x8 | Mode2Format::Bpp8_16x16 => 8,
        }
    }

    /// Bytes per row of one tile: the depth in bytes per 8 pixels of width.
    pub open spec fn spec_row_size(self) -> int {
        self.spec_bpp() as int * self.spec_tile_size() as int / 8
    }

    pub open spec fn spec_tile_bytes(self) -> int {
        self.spec_row_size() * self.spec_tile_size() as int
    }

    pub fn from_attr(attr: u16) -> (r: Option<Self>)
        ensures
            r == mode2_format_of(attr),
    {
        match attr {
            0 => Some(Self::Bpp1_8x8),
            1 => Some(Self::Bpp2_8x8),
            2 => Some(Self::Bpp4_8x8),
            3 => Some(Self::Bpp8_8x8),
            8 => Some(Self::Bpp1_16x16),
            9 => Some(Self::Bpp2_16x16),
            10 => Some(Self::Bpp4_16x16),
            11 => Some(Self::Bpp8_16x16),
            _ => None,
        }
    }

    /// Tile size in pixels (8 or 16).
    pub fn tile_size(&self) -> (r: i16)
        ensures
            r == self.spec_tile_size(),
    {
        match self {
            Self::Bpp1_8x8 | Self::Bpp2_8x8 | Self::Bpp4_8x8 | Self::Bpp8_8x8 => 8,
            _ => 16,
        }
    }

    /// Bits per pixel.
    pub fn bpp(&self) -> (r: u32)
        ensures
            r == self.spec_bpp(),
    {
        match self {
            Self::Bpp1_8x8 | Self::Bpp1_16x16 => 1,
            Self::Bpp2_8x8 | Self::Bpp2_16x16 => 2,
            Self::Bpp4_8x8 | Self::Bpp4_16x16 => 4,
            Self::Bpp8_8x8 | Self::Bpp8_16x16 => 8,
        }
    }

    /// Bytes per row within a single tile's bitmap: bpp bytes for 8x8
    /// tiles, 2 * bpp bytes for 16x16 tiles.
    pub fn row_size(&self) -> (r: usize)
        ensures
            r == self.spec_row_size(),
            1 <= r <= 16,
    {
        let bpp = self.bpp() as usize;
        if self.tile_size() == 8 {
            bpp
        } else {
            2 * bpp
        }
    }

    /// Total bytes per tile: row size times tile size.
    pub fn tile_bytes(&self) -> (r: usize)
        ensures
            r == self.spec_tile_bytes(),
            r <= 256,
    {
        let row = self.row_size();
        let size = self.tile_size() as usize;
        assert(row * size <= 256) by (nonlinear_arith)
            requires
                row <= 16,
                size <= 16,
        ;
        row * size
    }
}

/// A programmed Mode 2 plane.
#[derive(Debug, Clone, Copy)]
pub struct Mode2Plane {
    pub config: Mode2Config,
    pub format: Mode2Format,
    pub scanline_begin: u16,
    pub scanline_end: u16,
    pub config_ptr: u16,
}

/// The Mode 2 configuration stored at `p`; all zero when the 16-byte
/// structure would cross the end of XRAM.
pub open spec fn mode2_config_at(m: Seq<u8>, p: int) -> Mode2Config {
    if p + 16 > 0x10000 {
        Mode2Config {
            x_wrap: false,
            y_wrap: false,
            x_pos_px: 0,
            y_pos_px: 0,
            width_tiles: 0,
            height_tiles: 0,
            xram_data_ptr: 0,
            xram_palette_ptr: 0,
            xram_tile_ptr: 0,
        }
    } else {
        Mode2Config {
            x_wrap: m[p] != 0,
            y_wrap: m[p + 1] != 0,
            x_pos_px: le_i16(m, p + 2),
            y_pos_px: le_i16(m, p + 4),
            width_tiles: le_i16(m, p + 6),
            height_tiles: le_i16(m, p + 8),
            xram_data_ptr: le_u16(m, p + 10),
            xram_palette_ptr: le_u16(m, p + 12),
            xram_tile_ptr: le_u16(m, p + 14),
        }
    }
}

impl Mode2Config {
    /// Read the configuration from XRAM at `ptr`.
    pub fn from_xram(xram: &[u8], ptr: u16) -> (r: Self)
        requires
            xram@.len() == XRAM_SIZE,
        ensures
            r == mode2_config_at(xram@, ptr as int),
    {
        let p = ptr as usize;
        if p + 16 > XRAM_SIZE {
            return Self {
                x_wrap: false,
                y_wrap: false,
                x_pos_px: 0,
                y_pos_px: 0,
                width_tiles: 0,
                height_tiles: 0,
                xram_data_ptr: 0,
                xram_palette_ptr: 0,
                xram_tile_ptr: 0,
            };
        }
        Self {
            x_wrap: xram[p] != 0,
            y_wrap: xram[p + 1] != 0,
            x_pos_px: read_i16(xram, p + 2),
            y_pos_px: read_i16(xram, p + 4),
            width_tiles: read_i16(xram, p + 6),
            height_tiles: read_i16(xram, p + 8),
            xram_data_ptr: read_u16(xram, p + 10),
            xram_palette_ptr: read_u16(xram, p + 12),
            xram_tile_ptr: read_u16(xram, p + 14),
        }
    }
}

/// Whether the plane is drawn at all: a positive size, and a tile map that
/// lies entirely in XRAM.
pub open spec fn mode2_fits(cfg: Mode2Config) -> bool {
    cfg.width_tiles >= 1 && cfg.height_tiles >= 1 && cfg.height_tiles as int * cfg.width_tiles as int
        <= 0x10000 - cfg.xram_data_ptr as int
}

/// Palette index of pixel `p` (from the left) of a tile byte, MSB first.
pub open spec fn tile_pixel(b: u8, p: int, bpp: u32) -> u8 {
    if bpp == 1 {
        (b >> ((7 - p) as u8)) & 1u8
    } else if bpp == 2 {
        (b >> ((6 - 2 * p) as u8)) & 3u8
    } else if bpp == 4 {
        if p == 0 {
            b >> 4u8
        } else {
            b & 0xFu8
        }
    } else {
        b
    }
}

/// Byte offset in XRAM of the tile bitmap byte for pixel (`row`, `col`) of
/// the plane.
pub open spec fn tile_byte_addr(m: Seq<u8>, cfg: Mode2Config, fmt: Mode2Format, row: int, col: int) -> int {
    let ts = fmt.spec_tile_size() as int;
    let ppb = 8int / fmt.spec_bpp() as int;
    let map = cfg.xram_data_ptr as int + (row / ts) * cfg.width_tiles as int + col / ts;
    cfg.xram_tile_ptr as int + m[map] as int * fmt.spec_tile_bytes() + (row % ts) * fmt.spec_row_size()
        + (col % ts) / ppb
}

/// Color at pixel (`row`, `col`) of the tile grid; `None` where the tile's
/// bitmap byte lies past the end of XRAM.
pub open spec fn mode2_color(m: Seq<u8>, cfg: Mode2Config, fmt: Mode2Format, row: int, col: int) -> Option<u32> {
    let ts = fmt.spec_tile_size() as int;
    let ppb = 8int / fmt.spec_bpp() as int;
    let addr = tile_byte_addr(m, cfg, fmt, row, col);
    if addr >= 0x10000 {
        None
    } else {
        Some(
            palette_color(
                m,
                fmt.spec_bpp(),
                cfg.xram_palette_ptr,
                tile_pixel(m[addr], (col % ts) % ppb, fmt.spec_bpp()) as int,
            ),
        )
    }
}

/// The color a Mode 2 plane draws at canvas pixel (`x`, `y`), if any.
pub open spec fn mode2_pixel(plane: Mode2Plane, m: Seq<u8>, canvas_height: u16, x: int, y: int) -> Option<u32> {
    let cfg = plane.config;
    let ts = plane.format.spec_tile_size() as int;
    if !mode2_fits(cfg) || !in_window(plane.scanline_begin, plane.scanline_end, canvas_height, y) {
        None
    } else {
        match (
            plane_coord(y - cfg.y_pos_px, cfg.height_tiles * ts, cfg.y_wrap),
            plane_coord(x - cfg.x_pos_px, cfg.width_tiles * ts, cfg.x_wrap),
        ) {
            (Some(row), Some(col)) => match mode2_color(m, cfg, plane.format, row, col) {
                Some(c) => opaque(c),
                None => None,
            },
            _ => None,
        }
    }
}

/// Extract pixel `pixel_in_byte` of a tile byte, MSB first.
fn get_tile_pixel(tile_byte: u8, pixel_in_byte: usize, bpp: u32) -> (r: u8)
    requires
        bpp == 1 || bpp == 2 || bpp == 4 || bpp == 8,
        pixel_in_byte < 8int / bpp as int,
    ensures
        r == tile_pixel(tile_byte, pixel_in_byte as int, bpp),
        (r as int) < palette_len(bpp),
{
    if bpp == 1 {
        let shift = (7 - pixel_in_byte) as u8;
        assert((tile_byte >> shift) & 1u8 < 2u8) by (bit_vector);
        (tile_byte >> shift) & 1
    } else if bpp == 2 {
        let shift = (6 - pixel_in_byte * 2) as u8;
        assert((tile_byte >> shift) & 3u8 < 4u8) by (bit_vector);
        (tile_byte >> shift) & 3
    } else if bpp == 4 {
        assert(tile_byte >> 4u8 < 16u8 && tile_byte & 0xFu8 < 16u8) by (bit_vector);
        if pixel_in_byte == 0 {
            tile_byte >> 4u8
        } else {
            tile_byte & 0xF
        }
    } else {
        tile_byte
    }
}

/// Color at pixel (`row`, `col`) of the grid of a plane that fits.
fn mode2_color_at(
    xram: &[u8],
    cfg: &Mode2Config,
    format: Mode2Format,
    palette: &Vec<u32>,
    row: usize,
    col: usize,
) -> (c: Option<u32>)
    requires
        xram@.len() == XRAM_SIZE,
        mode2_fits(*cfg),
        row < cfg.height_tiles * format.spec_tile_size(),
        col < cfg.width_tiles * format.spec_tile_size(),
        palette_matches(palette@, xram@, format.spec_bpp(), cfg.xram_palette_ptr),
    ensures
        c == mode2_color(xram@, *cfg, format, row as int, col as int),
{
    let ts = format.tile_size() as usize;
    let bpp = format.bpp();
    let ppb = 8 / bpp as usize;
    let tile_row = row / ts;
    let tile_col = col / ts;
    proof {
        vstd::arithmetic::div_mod::lemma_multiply_divide_lt(row as int, ts as int, cfg.height_tiles as int);
        vstd::arithmetic::div_mod::lemma_multiply_divide_lt(col as int, ts as int, cfg.width_tiles as int);
        lemma_row_offset(tile_row as int, cfg.height_tiles as int, cfg.width_tiles as int);
    }
    let map = cfg.xram_data_ptr as usize + tile_row * cfg.width_tiles as usize + tile_col;
    let tile_id = xram[map] as usize;
    let pixel_in_tile_col = col % ts;
    let byte_col = pixel_in_tile_col / ppb;
    let pixel_in_byte = pixel_in_tile_col % ppb;
    let tile_bytes = format.tile_bytes();
    let row_size = format.row_size();
    let row_in_tile = row % ts;
    assert(tile_id * tile_bytes <= 255 * 256 && row_in_tile * row_size <= 16 * 16) by (nonlinear_arith)
        requires
            tile_id <= 255,
            tile_bytes <= 256,
            row_in_tile < 16,
            row_size <= 16,
    ;
    let tile_addr = cfg.xram_tile_ptr as usize + tile_id * tile_bytes + row_in_tile * row_size
        + byte_col;
    if tile_addr >= XRAM_SIZE {
        return None;
    }
    let idx = get_tile_pixel(xram[tile_addr], pixel_in_byte, bpp);
    Some(palette[idx as usize])
}

/// Render canvas row `y` of a Mode 2 plane that fits.
fn render_mode2_row(
    plane: &Mode2Plane,
    xram: &[u8],
    palette: &Vec<u32>,
    framebuffer: &mut Vec<u32>,
    canvas_width: u16,
    canvas_height: u16,
    y: usize,
)
    requires
        xram@.len() == XRAM_SIZE,
        mode2_fits(plane.config),
        palette_matches(palette@, xram@, plane.format.spec_bpp(), plane.config.xram_palette_ptr),
        old(framebuffer)@.len() == canvas_width as int * canvas_height as int,
        y < canvas_height,
    ensures
        final(framebuffer)@.len() == old(framebuffer)@.len(),
        forall|i: int|
            y * canvas_width <= i < y * canvas_width + canvas_width ==> final(framebuffer)@[i]
                == overlay(
                mode2_pixel(*plane, xram@, canvas_height, i % canvas_width as int, i / canvas_width as int),
                old(framebuffer)@[i],
            ),
        forall|i: int|
            0 <= i < old(framebuffer)@.len() && !(y * canvas_width <= i < y * canvas_width
                + canvas_width) ==> final(framebuffer)@[i] == old(framebuffer)@[i],
{
    let cfg = &plane.config;
    let w = canvas_width as usize;
    let h = canvas_height as usize;
    let n = framebuffer.len();
    proof {
        lemma_row_span(y as int, w as int, h as int);
    }
    let ts = plane.format.tile_size() as i32;
    let height_px = cfg.height_tiles as i32 * ts;
    let width_px = cfg.width_tiles as i32 * ts;
    assert(height_px > 0 && width_px > 0) by (nonlinear_arith)
        requires
            height_px == cfg.height_tiles * ts,
            width_px == cfg.width_tiles * ts,
            cfg.height_tiles >= 1,
            cfg.width_tiles >= 1,
            ts >= 8,
    ;
    let y_end: usize = if plane.scanline_end == 0 {
        h
    } else {
        plane.scanline_end as usize
    };
    let shown = plane.scanline_begin as usize <= y && y < y_end;
    let row = if shown {
        plane_position(y as i32 - cfg.y_pos_px as i32, height_px, cfg.y_wrap)
    } else {
        None
    };
    let ghost old_fb = framebuffer@;
    let start = y * w;
    let mut x: usize = 0;
    while x < w
        invariant
            xram@.len() == XRAM_SIZE,
            mode2_fits(*cfg),
            *cfg == plane.config,
            height_px == cfg.height_tiles * plane.format.spec_tile_size(),
            width_px == cfg.width_tiles * plane.format.spec_tile_size(),
            width_px > 0,
            shown == in_window(plane.scanline_begin, plane.scanline_end, canvas_height, y as int),
            row matches Some(r) ==> shown && plane_coord(y - cfg.y_pos_px, height_px as int, cfg.y_wrap)
                == Some(r as int),
            row is None ==> !shown || plane_coord(y - cfg.y_pos_px, height_px as int, cfg.y_wrap) is None,
            palette_matches(palette@, xram@, plane.format.spec_bpp(), cfg.xram_palette_ptr),
            w == canvas_width,
            start == y * w,
            start + w <= n,
            n == old_fb.len(),
            framebuffer@.len() == n,
            x <= w,
            forall|i: int|
                start <= i < start + x ==> framebuffer@[i] == overlay(
                    mode2_pixel(*plane, xram@, canvas_height, i % w as int, i / w as int),
                    old_fb[i],
                ),
            forall|i: int|
                0 <= i < n && !(start <= i < start + x) ==> framebuffer@[i] == old_fb[i],
        decreases w - x,
    {
        let idx = start + x;
        proof {
            lemma_index_split(idx as int, y as int, x as int, w as int);
        }
        if let Some(r) = row {
            if let Some(col) = plane_position(x as i32 - cfg.x_pos_px as i32, width_px, cfg.x_wrap) {
                if let Some(c) = mode2_color_at(xram, cfg, plane.format, palette, r as usize, col as usize) {
                    if is_opaque(c) {
                        framebuffer.set(idx, c);
                    }
                }
            }
        }
        x += 1;
    }
}

/// Render a Mode 2 (tile grid) plane into a canvas of RGBA words
/// (`canvas_width` by `canvas_height`, row-major). Each canvas pixel the
/// plane covers takes its tile's color when that color is opaque; every
/// other pixel is kept.
pub fn render_mode2(
    plane: &Mode2Plane,
    xram: &[u8],
    framebuffer: &mut Vec<u32>,
    canvas_width: u16,
    canvas_height: u16,
)
    requires
        xram@.len() == XRAM_SIZE,
        old(framebuffer)@.len() == canvas_width as int * canvas_height as int,
    ensures
        final(framebuffer)@.len() == old(framebuffer)@.len(),
        forall|i: int|
            0 <= i < old(framebuffer)@.len() ==> final(framebuffer)@[i] == overlay(
                mode2_pixel(*plane, xram@, canvas_height, i % canvas_width as int, i / canvas_width as int),
                old(framebuffer)@[i],
            ),
{
    let cfg = &plane.config;
    if cfg.width_tiles < 1 || cfg.height_tiles < 1 {
        assert(!mode2_fits(plane.config));
        return;
    }
    assert(cfg.height_tiles as int * cfg.width_tiles as int <= 0x8000 * 0x8000) by (nonlinear_arith)
        requires
            1 <= cfg.height_tiles <= 0x7FFF,
            1 <= cfg.width_tiles <= 0x7FFF,
    ;
    let sizeof_tilemap = cfg.height_tiles as usize * cfg.width_tiles as usize;
    if sizeof_tilemap > XRAM_SIZE - cfg.xram_data_ptr as usize {
        assert(!mode2_fits(plane.config));
        return;
    }
    let palette = resolve_palette(xram, plane.format.bpp(), cfg.xram_palette_ptr);
    let w = canvas_width as usize;
    let h = canvas_height as usize;
    let ghost old_fb = framebuffer@;
    let mut y: usize = 0;
    while y < h
        invariant
            xram@.len() == XRAM_SIZE,
            mode2_fits(plane.config),
            palette_matches(palette@, xram@, plane.format.spec_bpp(), plane.config.xram_palette_ptr),
            w == canvas_width,
            h == canvas_height,
            old_fb.len() == w * h,
            framebuffer@.len() == old_fb.len(),
            y <= h,
            forall|i: int|
                0 <= i < y * w ==> framebuffer@[i] == overlay(
                    mode2_pixel(*plane, xram@, canvas_height, i % w as int, i / w as int),
                    old_fb[i],
                ),
            forall|i: int| y * w <= i < old_fb.len() ==> framebuffer@[i] == old_fb[i],
        decreases h - y,
    {
        proof {
            lemma_row_span(y as int, w as int, h as int);
        }
        render_mode2_row(plane, xram, &palette, framebuffer, canvas_width, canvas_height, y);
        y += 1;
    }
    proof {
        vstd::arithmetic::mul::lemma_mul_is_commutative(w as int, h as int);
    }
}

} // verus!
