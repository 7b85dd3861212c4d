use vstd::prelude::*;
use crate::font::{builtin_font, builtin_glyph_row};
use crate::layout::{lemma_index_split, lemma_row_offset, lemma_row_span};
use crate::palette::{palette_color, palette_matches, resolve_palette, rgb565_color, rgb565_to_rgba};
use crate::xram::{
    in_window, is_opaque, le_i16, le_u16, opaque, overlay, plane_coord, plane_position, read_i16,
    read_u16, XRAM_SIZE,
};

verus! {

/// Mode 1 configuration, read from XRAM at config_ptr (16 bytes,
/// little-endian): x_wrap, y_wrap (1 byte each), x_pos_px, y_pos_px,
/// width_chars, height_chars (i16 each), xram_data_ptr, xram_palette_ptr,
/// xram_font_ptr (u16 each).
#[derive(Debug, Clone, Copy, PartialEq, Eq, Structural)]
pub struct Mode1Config {
    pub x_wrap: bool,
    pub y_wrap: bool,
    pub x_pos_px: i16,
    pub y_pos_px: i16,
    pub width_chars: i16,
    pub height_chars: i16,
    pub xram_data_ptr: u16,
    pub xram_palette_ptr: u16,
    pub xram_font_ptr: u16,
}

/// Mode 1 format: font height (8x8 or 8x16) and color depth of the cells.
#[allow(non_camel_case_types)]
#[derive(Debug, Clone, Copy, PartialEq, Eq, Structural)]
pub enum Mode1Format {
    Bpp1_8x8,
    Bpp4r_8x8,
    Bpp4_8x8,
    Bpp8_8x8,
    Bpp16_8x8,
    Bpp1_8x16,
    Bpp4r_8x16,
    Bpp4_8x16,
    Bpp8_8x16,
    Bpp16_8x16,
}

/// The format an attribute selects: bit 3 picks the 8x16 font, the low bits
/// the depth (0..4).
pub open spec fn mode1_format_of(attr: u16) -> Option<Mode1Format> {
    if attr == 0 {
        Some(Mode1Format::Bpp1_8x8)
    } else if attr == 1 {
        Some(Mode1Format::Bpp4r_8x8)
    } else if attr == 2 {
        Some(Mode1Format::Bpp4_8x8)
    } else if attr == 3 {
        Some(Mode1Format::Bpp8_8x8)
    } else if attr == 4 {
        Some(Mode1Format::Bpp16_8x8)
    } else if attr == 8 {
        Some(Mode1Format::Bpp1_8x16)
    } else if attr == 9 {
        Some(Mode1Format::Bpp4r_8x16)
    } else if attr == 10 {
        Some(Mode1Format::Bpp4_8x16)
    } else if attr == 11 {
        Some(Mode1Format::Bpp8_8x16)
    } else if attr == 12 {
        Some(Mode1Format::Bpp16_8x16)
    } else {
        None
    }
}

impl Mode1Format {
    pub open spec fn spec_font_height(self) -> i16 {
        match self {
            Mode1Format::Bpp1_8x8 | Mode1Format::Bpp4r_8x8 | Mode1Format::Bpp4_8x8
            | Mode1Format::Bpp8_8x8 | Mode1Format::Bpp16_8x8 => 8,
            _ => 16,
        }
    }

    pub open spec fn spec_cell_size(self) -> usize {
        match self {
            Mode1Format::Bpp1_8x8 | Mode1Format::Bpp1_8x16 => 1,
            Mode1Format::Bpp4r_8x8 | Mode1Format::Bpp4_8x8 | Mode1Format::Bpp4r_8x16
            | Mode1Format::Bpp4_8x16 => 2,
            Mode1Format::Bpp8_8x8 | Mode1Format::Bpp8_8x16 => 3,
            Mode1Format::Bpp16_8x8 | Mode1Format::Bpp16_8x16 => 6,
        }
    }

    pub open spec fn spec_bpp(self) -> u32 {
        match self {
            Mode1Format::Bpp1_8x8 | Mode1Format::Bpp1_8x16 => 1,
            Mode1Format::Bpp4r_8x8 | Mode1Format::Bpp4_8x8 | Mode1Format::Bpp4r_8x16
            | Mode1Format::Bpp4_8x16 => 4,
            Mode1Format::Bpp8_8x8 | Mode1Format::Bpp8_8x16 => 8,
            Mode1Format::Bpp16_8x8 | Mode1Format::Bpp16_8x16 => 16,
        }
    }

    pub fn from_attr(attr: u16) -> (r: Option<Self>)
        ensures
            r == mode1_format_of(attr),
    {
        match attr {
            0 => Some(Self::Bpp1_8x8),
            1 => Some(Self::Bpp4r_8x8),
            2 => Some(Self::Bpp4_8x8),
            3 => Some(Self::Bpp8_8x8),
            4 => Some(Self::Bpp16_8x8),
            8 => Some(Self::Bpp1_8x16),
            9 => Some(Self::Bpp4r_8x16),
            10 => Some(Self::Bpp4_8x16),
            11 => Some(Self::Bpp8_8x16),
            12 => Some(Self::Bpp16_8x16),
            _ => None,
        }
    }

    /// Font height in pixels.
    pub fn font_height(&self) -> (r: i16)
        ensures
            r == self.spec_font_height(),
    {
        match self {
            Self::Bpp1_8x8 | Self::Bpp4r_8x8 | Self::Bpp4_8x8 | Self::Bpp8_8x8 | Self::Bpp16_8x8 => 8,
            _ => 16,
        }
    }

    /// Bytes per character cell in the data array.
    pub fn cell_size(&self) -> (r: usize)
        ensures
            r == self.spec_cell_size(),
    {
        match self {
            Self::Bpp1_8x8 | Self::Bpp1_8x16 => 1,
            Self::Bpp4r_8x8 | Self::Bpp4_8x8 | Self::Bpp4r_8x16 | Self::Bpp4_8x16 => 2,
            Self::Bpp8_8x8 | Self::Bpp8_8x16 => 3,
            Self::Bpp16_8x8 | Self::Bpp16_8x16 => 6,
        }
    }

    /// Bits per pixel, for palette resolution.
    pub fn bpp(&self) -> (r: u32)
        ensures
            r == self.spec_bpp(),
    {
        match self {
            Self::Bpp1_8x8 | Self::Bpp1_8x16 => 1,
            Self::Bpp4r_8x8 | Self::Bpp4_8x8 | Self::Bpp4r_8x16 | Self::Bpp4_8x16 => 4,
            Self::Bpp8_8x8 | Self::Bpp8_8x16 => 8,
            Self::Bpp16_8x8 | Self::Bpp16_8x16 => 16,
        }
    }
}

/// A programmed Mode 1 plane.
#[derive(Debug, Clone, Copy)]
pub struct Mode1Plane {
    pub config: Mode1Config,
    pub format: Mode1Format,
    pub scanline_begin: u16,
    pub scanline_end: u16,
    pub config_ptr: u16,
}

/// The Mode 1 configuration stored at `p`; all zero when the 16-byte
/// structure would cross the end of XRAM.
pub open spec fn mode1_config_at(m: Seq<u8>, p: int) -> Mode1Config {
    if p + 16 > 0x10000 {
        Mode1Config {
            x_wrap: false,
            y_wrap: false,
            x_pos_px: 0,
            y_pos_px: 0,
            width_chars: 0,
            height_chars: 0,
            xram_data_ptr: 0,
            xram_palette_ptr: 0,
            xram_font_ptr: 0,
        }
    } else {
        Mode1Config {
            x_wrap: m[p] != 0,
            y_wrap: m[p + 1] != 0,
            x_pos_px: le_i16(m, p + 2),
            y_pos_px: le_i16(m, p + 4),
            width_chars: le_i16(m, p + 6),
            height_chars: le_i16(m, p + 8),
            xram_data_ptr: le_u16(m, p + 10),
            xram_palette_ptr: le_u16(m, p + 12),
            xram_font_ptr: le_u16(m, p + 14),
        }
    }
}

impl Mode1Config {
    /// Read the configuration from XRAM at `ptr`.
    pub fn from_xram(xram: &[u8], ptr: u16) -> (r: Self)
        requires
            xram@.len() == XRAM_SIZE,
        ensures
            r == mode1_config_at(xram@, ptr as int),
    {
        let p = ptr as usize;
        if p + 16 > XRAM_SIZE {
            return Self {
                x_wrap: false,
                y_wrap: false,
                x_pos_px: 0,
                y_pos_px: 0,
                width_chars: 0,
                height_chars: 0,
                xram_data_ptr: 0,
                xram_palette_ptr: 0,
                xram_font_ptr: 0,
            };
        }
        Self {
            x_wrap: xram[p] != 0,
            y_wrap: xram[p + 1] != 0,
            x_pos_px: read_i16(xram, p + 2),
            y_pos_px: read_i16(xram, p + 4),
            width_chars: read_i16(xram, p + 6),
            height_chars: read_i16(xram, p + 8),
            xram_data_ptr: read_u16(xram, p + 10),
            xram_palette_ptr: read_u16(xram, p + 12),
            xram_font_ptr: read_u16(xram, p + 14),
        }
    }
}

/// Bytes per row of character cells.
pub open spec fn mode1_row_bytes(cfg: Mode1Config, fmt: Mode1Format) -> int {
    cfg.width_chars as int * fmt.spec_cell_size() as int
}

/// Whether the plane is drawn at all: a positive size, and cell data that
/// lies entirely in XRAM.
pub open spec fn mode1_fits(cfg: Mode1Config, fmt: Mode1Format) -> bool {
    cfg.width_chars >= 1 && cfg.height_chars >= 1 && cfg.height_chars as int * mode1_row_bytes(cfg, fmt)
        <= 0x10000 - cfg.xram_data_ptr as int
}

/// Whether the font is read from XRAM: all of it fits below the end.
pub open spec fn xram_font(font_ptr: u16, font_height: int) -> bool {
    font_ptr as int + 256 * font_height <= 0x10000
}

/// Byte `i` (`row * 256 + glyph`) of the font a plane resolves to.
pub open spec fn font_byte(m: Seq<u8>, font_ptr: u16, font_height: int, i: int) -> u8 {
    if xram_font(font_ptr, font_height) {
        m[font_ptr + i]
    } else {
        builtin_glyph_row(font_height, i / 256, i % 256)
    }
}

/// Background and foreground colors of the cell at byte offset `cell`.
pub open spec fn cell_colors(m: Seq<u8>, fmt: Mode1Format, palette_ptr: u16, cell: int) -> (u32, u32) {
    let bpp = fmt.spec_bpp();
    match fmt {
        Mode1Format::Bpp1_8x8 | Mode1Format::Bpp1_8x16 => (
            palette_color(m, bpp, palette_ptr, 0),
            palette_color(m, bpp, palette_ptr, 1),
        ),
        Mode1Format::Bpp4r_8x8 | Mode1Format::Bpp4r_8x16 => (
            palette_color(m, bpp, palette_ptr, m[cell + 1] as int % 16),
            palette_color(m, bpp, palette_ptr, m[cell + 1] as int / 16),
        ),
        Mode1Format::Bpp4_8x8 | Mode1Format::Bpp4_8x16 => (
            palette_color(m, bpp, palette_ptr, m[cell + 1] as int / 16),
            palette_color(m, bpp, palette_ptr, m[cell + 1] as int % 16),
        ),
        Mode1Format::Bpp8_8x8 | Mode1Format::Bpp8_8x16 => (
            palette_color(m, bpp, palette_ptr, m[cell + 2] as int),
            palette_color(m, bpp, palette_ptr, m[cell + 1] as int),
        ),
        Mode1Format::Bpp16_8x8 | Mode1Format::Bpp16_8x16 => (
            rgb565_color(le_u16(m, cell + 4)),
            rgb565_color(le_u16(m, cell + 2)),
        ),
    }
}

/// Color at pixel (`row`, `col`) of the character grid.
pub open spec fn mode1_color(m: Seq<u8>, cfg: Mode1Config, fmt: Mode1Format, row: int, col: int) -> u32 {
    let fh = fmt.spec_font_height() as int;
    let cs = fmt.spec_cell_size() as int;
    let cell = cfg.xram_data_ptr as int + (row / fh) * mode1_row_bytes(cfg, fmt) + (col / 8) * cs;
    let glyph = m[cell];
    let bits = font_byte(m, cfg.xram_font_ptr, fh, (row % fh) * 256 + glyph);
    let colors = cell_colors(m, fmt, cfg.xram_palette_ptr, cell);
    if (bits >> ((7 - col % 8) as u8)) & 1u8 == 1u8 {
        colors.1
    } else {
        colors.0
    }
}

/// The color a Mode 1 plane draws at canvas pixel (`x`, `y`), if any.
pub open spec fn mode1_pixel(plane: Mode1Plane, m: Seq<u8>, canvas_height: u16, x: int, y: int) -> Option<u32> {
    let cfg = plane.config;
    let fh = plane.format.spec_font_height() as int;
    if !mode1_fits(cfg, plane.format) || !in_window(plane.scanline_begin, plane.scanline_end, canvas_height, y) {
        None
    } else {
        match (
            plane_coord(y - cfg.y_pos_px, cfg.height_chars * fh, cfg.y_wrap),
            plane_coord(x - cfg.x_pos_px, cfg.width_chars * 8, cfg.x_wrap),
        ) {
            (Some(row), Some(col)) => opaque(mode1_color(m, cfg, plane.format, row, col)),
            _ => None,
        }
    }
}

/// The font a plane uses: from XRAM when it fits there, else built in.
fn resolve_font(xram: &[u8], font_ptr: u16, font_height: i16) -> (font: Vec<u8>)
    requires
        xram@.len() == XRAM_SIZE,
        font_height == 8 || font_height == 16,
    ensures
        font@.len() == 256 * font_height,
        forall|i: int|
            0 <= i < font@.len() ==> font@[i] == font_byte(xram@, font_ptr, font_height as int, i),
{
    let font_size = 256 * font_height as usize;
    if font_ptr as usize + font_size <= XRAM_SIZE {
        let mut font: Vec<u8> = Vec::new();
        let mut i: usize = 0;
        while i < font_size
            invariant
                xram@.len() == XRAM_SIZE,
                font_size == 256 * font_height,
                font_ptr + font_size <= XRAM_SIZE,
                i <= font_size,
                font@.len() == i,
                forall|j: int| 0 <= j < i ==> font@[j] == xram@[font_ptr + j],
            decreases font_size - i,
        {
            font.push(xram[font_ptr as usize + i]);
            i += 1;
        }
        font
    } else {
        builtin_font(font_height as usize)
    }
}

/// Background and foreground colors of the cell at `cell_offset`.
fn resolve_cell_colors(xram: &[u8], format: Mode1Format, cell_offset: usize, palette: &Vec<u32>, palette_ptr: u16) -> (r: (
    u32,
    u32,
))
    requires
        xram@.len() == XRAM_SIZE,
        cell_offset + format.spec_cell_size() <= XRAM_SIZE,
        format.spec_bpp() != 16 ==> palette_matches(palette@, xram@, format.spec_bpp(), palette_ptr),
    ensures
        r == cell_colors(xram@, format, palette_ptr, cell_offset as int),
{
    match format {
        Mode1Format::Bpp1_8x8 | Mode1Format::Bpp1_8x16 => (palette[0], palette[1]),
        Mode1Format::Bpp4r_8x8 | Mode1Format::Bpp4r_8x16 => {
            let b = xram[cell_offset + 1];
            (palette[(b % 16) as usize], palette[(b / 16) as usize])
        },
        Mode1Format::Bpp4_8x8 | Mode1Format::Bpp4_8x16 => {
            let b = xram[cell_offset + 1];
            (palette[(b / 16) as usize], palette[(b % 16) as usize])
        },
        Mode1Format::Bpp8_8x8 | Mode1Format::Bpp8_8x16 => {
            let fg = xram[cell_offset + 1];
            let bg = xram[cell_offset + 2];
            (palette[bg as usize], palette[fg as usize])
        },
        Mode1Format::Bpp16_8x8 | Mode1Format::Bpp16_8x16 => {
            let fg = read_u16(xram, cell_offset + 2);
            let bg = read_u16(xram, cell_offset + 4);
            (rgb565_to_rgba(bg), rgb565_to_rgba(fg))
        },
    }
}

/// Color at pixel (`row`, `col`) of the grid of a plane that fits.
fn mode1_color_at(
    xram: &[u8],
    cfg: &Mode1Config,
    format: Mode1Format,
    palette: &Vec<u32>,
    font: &Vec<u8>,
    row: usize,
    col: usize,
) -> (c: u32)
    requires
        xram@.len() == XRAM_SIZE,
        mode1_fits(*cfg, format),
        row < cfg.height_chars * format.spec_font_height(),
        col < cfg.width_chars * 8,
        format.spec_bpp() != 16 ==> palette_matches(palette@, xram@, format.spec_bpp(), cfg.xram_palette_ptr),
        font@.len() == 256 * format.spec_font_height(),
        forall|i: int|
            0 <= i < font@.len() ==> font@[i] == font_byte(
                xram@,
                cfg.xram_font_ptr,
                format.spec_font_height() as int,
                i,
            ),
    ensures
        c == mode1_color(xram@, *cfg, format, row as int, col as int),
{
    let fh = format.font_height() as usize;
    let cs = format.cell_size();
    let row_bytes = cfg.width_chars as usize * cs;
    let char_row = row / fh;
    let char_col = col / 8;
    proof {
        vstd::arithmetic::div_mod::lemma_multiply_divide_lt(row as int, fh as int, cfg.height_chars as int);
        lemma_row_offset(char_row as int, cfg.height_chars as int, row_bytes as int);
        lemma_row_offset(char_col as int, cfg.width_chars as int, cs as int);
    }
    let cell = cfg.xram_data_ptr as usize + char_row * row_bytes + char_col * cs;
    let glyph = xram[cell] as usize;
    let bits = font[(row % fh) * 256 + glyph];
    let (bg, fg) = resolve_cell_colors(xram, format, cell, palette, cfg.xram_palette_ptr);
    let shift = (7 - col % 8) as u8;
    if (bits >> shift) & 1 == 1 {
        fg
    } else {
        bg
    }
}

/// Render canvas row `y` of a Mode 1 plane that fits.
fn render_mode1_row(
    plane: &Mode1Plane,
    xram: &[u8],
    palette: &Vec<u32>,
    font: &Vec<u8>,
    framebuffer: &mut Vec<u32>,
    canvas_width: u16,
    canvas_height: u16,
    y: usize,
)
    requires
        xram@.len() == XRAM_SIZE,
        mode1_fits(plane.config, plane.format),
        plane.format.spec_bpp() != 16 ==> palette_matches(
            palette@,
            xram@,
            plane.format.spec_bpp(),
            plane.config.xram_palette_ptr,
        ),
        font@.len() == 256 * plane.format.spec_font_height(),
        forall|i: int|
            0 <= i < font@.len() ==> font@[i] == font_byte(
                xram@,
                plane.config.xram_font_ptr,
                plane.format.spec_font_height() as int,
                i,
            ),
        old(framebuffer)@.len() == canvas_width as int * canvas_height as int,
        y < canvas_height,
    ensures
        final(framebuffer)@.len() == old(framebuffer)@.len(),
        forall|i: int|
            y * canvas_width <= i < y * canvas_width + canvas_width ==> final(framebuffer)@[i]
                == overlay(
                mode1_pixel(*plane, xram@, canvas_height, i % canvas_width as int, i / canvas_width as int),
                old(framebuffer)@[i],
            ),
        forall|i: int|
            0 <= i < old(framebuffer)@.len() && !(y * canvas_width <= i < y * canvas_width
                + canvas_width) ==> final(framebuffer)@[i] == old(framebuffer)@[i],
{
    let cfg = &plane.config;
    let w = canvas_width as usize;
    let h = canvas_height as usize;
    let n = framebuffer.len();
    proof {
        lemma_row_span(y as int, w as int, h as int);
    }
    let fh = plane.format.font_height() as i32;
    let height_px = cfg.height_chars as i32 * fh;
    let width_px = cfg.width_chars as i32 * 8;
    let y_end: usize = if plane.scanline_end == 0 {
        h
    } else {
        plane.scanline_end as usize
    };
    let shown = plane.scanline_begin as usize <= y && y < y_end;
    let row = if shown {
        plane_position(y as i32 - cfg.y_pos_px as i32, height_px, cfg.y_wrap)
    } else {
        None
    };
    let ghost old_fb = framebuffer@;
    let start = y * w;
    let mut x: usize = 0;
    while x < w
        invariant
            xram@.len() == XRAM_SIZE,
            mode1_fits(*cfg, plane.format),
            *cfg == plane.config,
            height_px == cfg.height_chars * plane.format.spec_font_height(),
            width_px == cfg.width_chars * 8,
            shown == in_window(plane.scanline_begin, plane.scanline_end, canvas_height, y as int),
            row matches Some(r) ==> shown && plane_coord(y - cfg.y_pos_px, height_px as int, cfg.y_wrap)
                == Some(r as int),
            row is None ==> !shown || plane_coord(y - cfg.y_pos_px, height_px as int, cfg.y_wrap) is None,
            plane.format.spec_bpp() != 16 ==> palette_matches(
                palette@,
                xram@,
                plane.format.spec_bpp(),
                cfg.xram_palette_ptr,
            ),
            font@.len() == 256 * plane.format.spec_font_height(),
            forall|i: int|
                0 <= i < font@.len() ==> font@[i] == font_byte(
                    xram@,
                    cfg.xram_font_ptr,
                    plane.format.spec_font_height() as int,
                    i,
                ),
            w == canvas_width,
            start == y * w,
            start + w <= n,
            n == old_fb.len(),
            framebuffer@.len() == n,
            x <= w,
            forall|i: int|
                start <= i < start + x ==> framebuffer@[i] == overlay(
                    mode1_pixel(*plane, xram@, canvas_height, i % w as int, i / w as int),
                    old_fb[i],
                ),
            forall|i: int|
                0 <= i < n && !(start <= i < start + x) ==> framebuffer@[i] == old_fb[i],
        decreases w - x,
    {
        let idx = start + x;
        proof {
            lemma_index_split(idx as int, y as int, x as int, w as int);
        }
        if let Some(r) = row {
            if let Some(col) = plane_position(x as i32 - cfg.x_pos_px as i32, width_px, cfg.x_wrap) {
                let c = mode1_color_at(xram, cfg, plane.format, palette, font, r as usize, col as usize);
                if is_opaque(c) {
                    framebuffer.set(idx, c);
                }
            }
        }
        x += 1;
    }
}

/// Render a Mode 1 (character grid) plane into a canvas of RGBA words
/// (`canvas_width` by `canvas_height`, row-major). Each canvas pixel the
/// plane covers takes the glyph's foreground or background color when that
/// color is opaque; every other pixel is kept.
pub fn render_mode1(
    plane: &Mode1Plane,
    xram: &[u8],
    framebuffer: &mut Vec<u32>,
    canvas_width: u16,
    canvas_height: u16,
)
    requires
        xram@.len() == XRAM_SIZE,
        old(framebuffer)@.len() == canvas_width as int * canvas_height as int,
    ensures
        final(framebuffer)@.len() == old(framebuffer)@.len(),
        forall|i: int|
            0 <= i < old(framebuffer)@.len() ==> final(framebuffer)@[i] == overlay(
                mode1_pixel(*plane, xram@, canvas_height, i % canvas_width as int, i / canvas_width as int),
                old(framebuffer)@[i],
            ),
{
    let cfg = &plane.config;
    let format = plane.format;
    let font_height = format.font_height();
    let cell_size = format.cell_size();
    if cfg.width_chars < 1 || cfg.height_chars < 1 {
        assert(!mode1_fits(plane.config, plane.format));
        return;
    }
    let sizeof_row = cfg.width_chars as usize * cell_size;
    if sizeof_row > XRAM_SIZE {
        assert(cfg.height_chars as int * sizeof_row >= sizeof_row) by (nonlinear_arith)
            requires
                cfg.height_chars >= 1,
        ;
        assert(!mode1_fits(plane.config, plane.format));
        return;
    }
    assert(cfg.height_chars as int * sizeof_row <= 0x8000 * 0x10000) by (nonlinear_arith)
        requires
            cfg.height_chars <= 0x7FFF,
            sizeof_row <= 0x10000,
    ;
    let sizeof_data = cfg.height_chars as usize * sizeof_row;
    if sizeof_data > XRAM_SIZE - cfg.xram_data_ptr as usize {
        assert(!mode1_fits(plane.config, plane.format));
        return;
    }
    let font = resolve_font(xram, cfg.xram_font_ptr, font_height);
    let palette = resolve_palette(xram, format.bpp(), cfg.xram_palette_ptr);
    let w = canvas_width as usize;
    let h = canvas_height as usize;
    let ghost old_fb = framebuffer@;
    let mut y: usize = 0;
    while y < h
        invariant
            xram@.len() == XRAM_SIZE,
            mode1_fits(plane.config, plane.format),
            plane.format.spec_bpp() != 16 ==> palette_matches(
                palette@,
                xram@,
                plane.format.spec_bpp(),
                plane.config.xram_palette_ptr,
            ),
            font@.len() == 256 * plane.format.spec_font_height(),
            forall|i: int|
                0 <= i < font@.len() ==> font@[i] == font_byte(
                    xram@,
                    plane.config.xram_font_ptr,
                    plane.format.spec_font_height() as int,
                    i,
                ),
            w == canvas_width,
            h == canvas_height,
            old_fb.len() == w * h,
            framebuffer@.len() == old_fb.len(),
            y <= h,
            forall|i: int|
                0 <= i < y * w ==> framebuffer@[i] == overlay(
                    mode1_pixel(*plane, xram@, canvas_height, i % w as int, i / w as int),
                    old_fb[i],
                ),
            forall|i: int| y * w <= i < old_fb.len() ==> framebuffer@[i] == old_fb[i],
        decreases h - y,
    {
        proof {
            lemma_row_span(y as int, w as int, h as int);
        }
        render_mode1_row(plane, xram, &palette, &font, framebuffer, canvas_width, canvas_height, y);
        y += 1;
    }
    proof {
        vstd::arithmetic::mul::lemma_mul_is_commutative(w as int, h as int);
    }
}

} // verus!
