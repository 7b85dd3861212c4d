use vstd::prelude::*;
use crate::palette::{
    palette_color, palette_len, palette_matches, resolve_palette, rgb565_color, rgb565_to_rgba,
};
use crate::xram::{
    in_window, is_opaque, le_i16, le_u16, opaque, overlay, plane_coord, plane_position, read_i16,
    read_u16, XRAM_SIZE,
};
use crate::layout::{lemma_cell_index, lemma_index_split, lemma_pixel_byte, lemma_row_offset, lemma_row_span};

verus! {

/// Mode 3 configuration, read from XRAM at config_ptr (14 bytes, little-endian):
/// x_wrap, y_wrap (1 byte each), x_pos_px, y_pos_px, width_px, height_px
/// (i16 each), xram_data_ptr, xram_palette_ptr (u16 each).
#[derive(Debug, Clone, Copy, PartialEq, Eq, Structural)]
pub struct Mode3Config {
    pub x_wrap: bool,
    pub y_wrap: bool,
    pub x_pos_px: i16,
    pub y_pos_px: i16,
    pub width_px: i16,
    pub height_px: i16,
    pub xram_data_ptr: u16,
    pub xram_palette_ptr: u16,
}

/// Bit depth and pixel order of a Mode 3 bitmap, selected by the attribute.
#[derive(Debug, Clone, Copy, PartialEq, Eq, Structural)]
pub enum ColorFormat {
    Bpp1Msb,
    Bpp2Msb,
    Bpp4Msb,
    Bpp8,
    Bpp16,
    Bpp1Lsb,
    Bpp2Lsb,
    Bpp4Lsb,
}

/// The format an attribute selects: 0..4 and 8..10.
pub open spec fn color_format_of(attr: u16) -> Option<ColorFormat> {
    if attr == 0 {
        Some(ColorFormat::Bpp1Msb)
    } else if attr == 1 {
        Some(ColorFormat::Bpp2Msb)
    } else if attr == 2 {
        Some(ColorFormat::Bpp4Msb)
    } else if attr == 3 {
        Some(ColorFormat::Bpp8)
    } else if attr == 4 {
        Some(ColorFormat::Bpp16)
    } else if attr == 8 {
        Some(ColorFormat::Bpp1Lsb)
    } else if attr == 9 {
        Some(ColorFormat::Bpp2Lsb)
    } else if attr == 10 {
        Some(ColorFormat::Bpp4Lsb)
    } else {
        None
    }
}

impl ColorFormat {
    pub open spec fn spec_bpp(self) -> u32 {
        match self {
            ColorFormat::Bpp1Msb | ColorFormat::Bpp1Lsb => 1,
            ColorFormat::Bpp2Msb | ColorFormat::Bpp2Lsb => 2,
            ColorFormat::Bpp4Msb | ColorFormat::Bpp4Lsb => 4,
            ColorFormat::Bpp8 => 8,
            ColorFormat::Bpp16 => 16,
        }
    }

    pub fn from_attr(attr: u16) -> (r: Option<Self>)
        ensures
            r == color_format_of(attr),
    {
        match attr {
            0 => Some(Self::Bpp1Msb),
            1 => Some(Self::Bpp2Msb),
            2 => Some(Self::Bpp4Msb),
            3 => Some(Self::Bpp8),
            4 => Some(Self::Bpp16),
            8 => Some(Self::Bpp1Lsb),
            9 => Some(Self::Bpp2Lsb),
            10 => Some(Self::Bpp4Lsb),
            _ => None,
        }
    }

    pub fn bits_per_pixel(&self) -> (r: u32)
        ensures
            r == self.spec_bpp(),
    {
        match self {
            Self::Bpp1Msb | Self::Bpp1Lsb => 1,
            Self::Bpp2Msb | Self::Bpp2Lsb => 2,
            Self::Bpp4Msb | Self::Bpp4Lsb => 4,
            Self::Bpp8 => 8,
            Self::Bpp16 => 16,
        }
    }
}

/// A programmed Mode 3 plane.
#[derive(Debug, Clone, Copy)]
pub struct Mode3Plane {
    pub config: Mode3Config,
    pub format: ColorFormat,
    pub scanline_begin: u16,
    pub scanline_end: u16,
}

/// The Mode 3 configuration stored at `p`; all zero when the 14-byte
/// structure would cross the end of XRAM.
pub open spec fn mode3_config_at(m: Seq<u8>, p: int) -> Mode3Config {
    if p + 14 > 0x10000 {
        Mode3Config {
            x_wrap: false,
            y_wrap: false,
            x_pos_px: 0,
            y_pos_px: 0,
            width_px: 0,
            height_px: 0,
            xram_data_ptr: 0,
            xram_palette_ptr: 0,
        }
    } else {
        Mode3Config {
            x_wrap: m[p] != 0,
            y_wrap: m[p + 1] != 0,
            x_pos_px: le_i16(m, p + 2),
            y_pos_px: le_i16(m, p + 4),
            width_px: le_i16(m, p + 6),
            height_px: le_i16(m, p + 8),
            xram_data_ptr: le_u16(m, p + 10),
            xram_palette_ptr: le_u16(m, p + 12),
        }
    }
}

impl Mode3Config {
    /// Read the configuration from XRAM at `ptr`.
    pub fn from_xram(xram: &[u8], ptr: u16) -> (r: Self)
        requires
            xram@.len() == XRAM_SIZE,
        ensures
            r == mode3_config_at(xram@, ptr as int),
    {
        let p = ptr as usize;
        if p + 14 > XRAM_SIZE {
            return Self {
                x_wrap: false,
                y_wrap: false,
                x_pos_px: 0,
                y_pos_px: 0,
                width_px: 0,
                height_px: 0,
                xram_data_ptr: 0,
                xram_palette_ptr: 0,
            };
        }
        Self {
            x_wrap: xram[p] != 0,
            y_wrap: xram[p + 1] != 0,
            x_pos_px: read_i16(xram, p + 2),
            y_pos_px: read_i16(xram, p + 4),
            width_px: read_i16(xram, p + 6),
            height_px: read_i16(xram, p + 8),
            xram_data_ptr: read_u16(xram, p + 10),
            xram_palette_ptr: read_u16(xram, p + 12),
        }
    }
}

/// Bytes per bitmap row: `ceil(width_px * bpp / 8)`.
pub open spec fn mode3_row_bytes(cfg: Mode3Config, fmt: ColorFormat) -> int {
    (cfg.width_px as int * fmt.spec_bpp() as int + 7) / 8
}

/// Whether the plane is drawn at all: a positive size, and a bitmap that
/// lies entirely in XRAM.
pub open spec fn mode3_fits(cfg: Mode3Config, fmt: ColorFormat) -> bool {
    cfg.width_px >= 1 && cfg.height_px >= 1 && cfg.height_px as int * mode3_row_bytes(cfg, fmt)
        <= 0x10000 - cfg.xram_data_ptr as int
}

/// Palette index of column `col` of the bitmap row starting at `base`.
pub open spec fn pixel_index(fmt: ColorFormat, m: Seq<u8>, base: int, col: int) -> u8 {
    match fmt {
        ColorFormat::Bpp1Msb => (m[base + col / 8] >> ((7 - col % 8) as u8)) & 1u8,
        ColorFormat::Bpp1Lsb => (m[base + col / 8] >> ((col % 8) as u8)) & 1u8,
        ColorFormat::Bpp2Msb => (m[base + col / 4] >> ((6 - 2 * (col % 4)) as u8)) & 3u8,
        ColorFormat::Bpp2Lsb => (m[base + col / 4] >> ((2 * (col % 4)) as u8)) & 3u8,
        ColorFormat::Bpp4Msb => if col % 2 == 0 {
            m[base + col / 2] >> 4u8
        } else {
            m[base + col / 2] & 0xFu8
        },
        ColorFormat::Bpp4Lsb => if col % 2 == 0 {
            m[base + col / 2] & 0xFu8
        } else {
            m[base + col / 2] >> 4u8
        },
        ColorFormat::Bpp8 => m[base + col],
        ColorFormat::Bpp16 => 0,
    }
}

/// Color of bitmap pixel (`row`, `col`).
pub open spec fn mode3_color(m: Seq<u8>, cfg: Mode3Config, fmt: ColorFormat, row: int, col: int) -> u32 {
    let base = cfg.xram_data_ptr as int + row * mode3_row_bytes(cfg, fmt);
    if fmt == ColorFormat::Bpp16 {
        rgb565_color(le_u16(m, base + 2 * col))
    } else {
        palette_color(m, fmt.spec_bpp(), cfg.xram_palette_ptr, pixel_index(fmt, m, base, col) as int)
    }
}

/// The color a Mode 3 plane draws at canvas pixel (`x`, `y`), if any.
pub open spec fn mode3_pixel(plane: Mode3Plane, m: Seq<u8>, canvas_height: u16, x: int, y: int) -> Option<u32> {
    let cfg = plane.config;
    if !mode3_fits(cfg, plane.format) || !in_window(plane.scanline_begin, plane.scanline_end, canvas_height, y) {
        None
    } else {
        match (
            plane_coord(y - cfg.y_pos_px, cfg.height_px as int, cfg.y_wrap),
            plane_coord(x - cfg.x_pos_px, cfg.width_px as int, cfg.x_wrap),
        ) {
            (Some(row), Some(col)) => opaque(mode3_color(m, cfg, plane.format, row, col)),
            _ => None,
        }
    }
}

/// Extract the palette index of column `col` from the row at `base`.
fn get_pixel(xram: &[u8], base: usize, col: usize, format: ColorFormat) -> (r: u8)
    requires
        format != ColorFormat::Bpp16,
        xram@.len() <= XRAM_SIZE,
        base + (col * format.spec_bpp() as int) / 8 < xram@.len(),
    ensures
        r == pixel_index(format, xram@, base as int, col as int),
        (r as int) < palette_len(format.spec_bpp()),
{
    proof {
        lemma_pixel_byte(col as int, format.spec_bpp() as int);
    }
    match format {
        ColorFormat::Bpp8 => xram[base + col],
        ColorFormat::Bpp4Msb => {
            let byte = xram[base + col / 2];
            assert(byte >> 4u8 < 16u8 && byte & 0xFu8 < 16u8) by (bit_vector);
            if col % 2 == 0 {
                byte >> 4u8
            } else {
                byte & 0xF
            }
        },
        ColorFormat::Bpp4Lsb => {
            let byte = xram[base + col / 2];
            assert(byte >> 4u8 < 16u8 && byte & 0xFu8 < 16u8) by (bit_vector);
            if col % 2 == 0 {
                byte & 0xF
            } else {
                byte >> 4u8
            }
        },
        ColorFormat::Bpp2Msb => {
            let byte = xram[base + col / 4];
            let shift = (6 - (col % 4) * 2) as u8;
            assert((byte >> shift) & 3u8 < 4u8) by (bit_vector);
            (byte >> shift) & 3
        },
        ColorFormat::Bpp2Lsb => {
            let byte = xram[base + col / 4];
            let shift = ((col % 4) * 2) as u8;
            assert((byte >> shift) & 3u8 < 4u8) by (bit_vector);
            (byte >> shift) & 3
        },
        ColorFormat::Bpp1Msb => {
            let byte = xram[base + col / 8];
            let shift = (7 - col % 8) as u8;
            assert((byte >> shift) & 1u8 < 2u8) by (bit_vector);
            (byte >> shift) & 1
        },
        ColorFormat::Bpp1Lsb => {
            let byte = xram[base + col / 8];
            let shift = (col % 8) as u8;
            assert((byte >> shift) & 1u8 < 2u8) by (bit_vector);
            (byte >> shift) & 1
        },
        ColorFormat::Bpp16 => 0,
    }
}

/// Color of bitmap pixel (`row`, `col`) of a plane that fits.
fn mode3_color_at(
    xram: &[u8],
    cfg: &Mode3Config,
    format: ColorFormat,
    palette: &Vec<u32>,
    row_bytes: usize,
    row: usize,
    col: usize,
) -> (c: u32)
    requires
        xram@.len() == XRAM_SIZE,
        mode3_fits(*cfg, format),
        row_bytes == mode3_row_bytes(*cfg, format),
        row < cfg.height_px,
        col < cfg.width_px,
        palette_matches(palette@, xram@, format.spec_bpp(), cfg.xram_palette_ptr),
    ensures
        c == mode3_color(xram@, *cfg, format, row as int, col as int),
{
    let bpp = format.bits_per_pixel();
    proof {
        lemma_row_offset(row as int, cfg.height_px as int, row_bytes as int);
        lemma_cell_index(col as int, cfg.width_px as int, bpp as int);
    }
    let base = cfg.xram_data_ptr as usize + row * row_bytes;
    if format == ColorFormat::Bpp16 {
        rgb565_to_rgba(read_u16(xram, base + 2 * col))
    } else {
        let idx = get_pixel(xram, base, col, format);
        palette[idx as usize]
    }
}

/// Render canvas row `y` of a Mode 3 plane that fits.
fn render_mode3_row(
    plane: &Mode3Plane,
    xram: &[u8],
    palette: &Vec<u32>,
    row_bytes: usize,
    framebuffer: &mut Vec<u32>,
    canvas_width: u16,
    canvas_height: u16,
    y: usize,
)
    requires
        xram@.len() == XRAM_SIZE,
        mode3_fits(plane.config, plane.format),
        row_bytes == mode3_row_bytes(plane.config, plane.format),
        palette_matches(palette@, xram@, plane.format.spec_bpp(), plane.config.xram_palette_ptr),
        old(framebuffer)@.len() == canvas_width as int * canvas_height as int,
        y < canvas_height,
    ensures
        final(framebuffer)@.len() == old(framebuffer)@.len(),
        forall|i: int|
            y * canvas_width <= i < y * canvas_width + canvas_width ==> final(framebuffer)@[i]
                == overlay(
                mode3_pixel(*plane, xram@, canvas_height, i % canvas_width as int, i / canvas_width as int),
                old(framebuffer)@[i],
            ),
        forall|i: int|
            0 <= i < old(framebuffer)@.len() && !(y * canvas_width <= i < y * canvas_width
                + canvas_width) ==> final(framebuffer)@[i] == old(framebuffer)@[i],
{
    let cfg = &plane.config;
    let w = canvas_width as usize;
    let h = canvas_height as usize;
    let n = framebuffer.len();
    proof {
        lemma_row_span(y as int, w as int, h as int);
    }
    let y_end: usize = if plane.scanline_end == 0 {
        h
    } else {
        plane.scanline_end as usize
    };
    let shown = plane.scanline_begin as usize <= y && y < y_end;
    let row = if shown {
        plane_position(y as i32 - cfg.y_pos_px as i32, cfg.height_px as i32, cfg.y_wrap)
    } else {
        None
    };
    let ghost old_fb = framebuffer@;
    let start = y * w;
    let mut x: usize = 0;
    while x < w
        invariant
            xram@.len() == XRAM_SIZE,
            mode3_fits(*cfg, plane.format),
            *cfg == plane.config,
            row_bytes == mode3_row_bytes(*cfg, plane.format),
            shown == in_window(plane.scanline_begin, plane.scanline_end, canvas_height, y as int),
            row matches Some(r) ==> shown && plane_coord(y - cfg.y_pos_px, cfg.height_px as int, cfg.y_wrap)
                == Some(r as int),
            row is None ==> !shown || plane_coord(y - cfg.y_pos_px, cfg.height_px as int, cfg.y_wrap) is None,
            palette_matches(palette@, xram@, plane.format.spec_bpp(), cfg.xram_palette_ptr),
            w == canvas_width,
            start == y * w,
            start + w <= n,
            n == old_fb.len(),
            framebuffer@.len() == n,
            x <= w,
            forall|i: int|
                start <= i < start + x ==> framebuffer@[i] == overlay(
                    mode3_pixel(*plane, xram@, canvas_height, i % w as int, i / w as int),
                    old_fb[i],
                ),
            forall|i: int|
                0 <= i < n && !(start <= i < start + x) ==> framebuffer@[i] == old_fb[i],
        decreases w - x,
    {
        let idx = start + x;
        proof {
            lemma_index_split(idx as int, y as int, x as int, w as int);
        }
        if let Some(r) = row {
            if let Some(col) = plane_position(
                x as i32 - cfg.x_pos_px as i32,
                cfg.width_px as i32,
                cfg.x_wrap,
            ) {
                let c = mode3_color_at(xram, cfg, plane.format, palette, row_bytes, r as usize, col as usize);
                if is_opaque(c) {
                    framebuffer.set(idx, c);
                }
            }
        }
        x += 1;
    }
}

/// Render a Mode 3 plane into a canvas of RGBA words (`canvas_width` by
/// `canvas_height`, row-major). Each canvas pixel the plane covers takes the
/// plane's color when that color is opaque; every other pixel is kept.
pub fn render_mode3(
    plane: &Mode3Plane,
    xram: &[u8],
    framebuffer: &mut Vec<u32>,
    canvas_width: u16,
    canvas_height: u16,
)
    requires
        xram@.len() == XRAM_SIZE,
        old(framebuffer)@.len() == canvas_width as int * canvas_height as int,
    ensures
        final(framebuffer)@.len() == old(framebuffer)@.len(),
        forall|i: int|
            0 <= i < old(framebuffer)@.len() ==> final(framebuffer)@[i] == overlay(
                mode3_pixel(*plane, xram@, canvas_height, i % canvas_width as int, i / canvas_width as int),
                old(framebuffer)@[i],
            ),
{
    let cfg = &plane.config;
    let format = plane.format;
    if cfg.width_px < 1 || cfg.height_px < 1 {
        assert(!mode3_fits(plane.config, plane.format));
        return;
    }
    let bpp = format.bits_per_pixel();
    assert(bpp <= 16);
    assert(cfg.width_px as u32 * bpp <= 0x8000 * 16) by (nonlinear_arith)
        requires
            1 <= cfg.width_px <= 0x7FFF,
            bpp <= 16,
    ;
    let row_bytes = ((cfg.width_px as u32 * bpp + 7) / 8) as usize;
    assert(cfg.height_px as int * row_bytes <= 0x8000 * 0x10000) by (nonlinear_arith)
        requires
            cfg.height_px <= 0x7FFF,
            row_bytes <= 0x10000,
    ;
    let sizeof_bitmap = cfg.height_px as usize * row_bytes;
    if sizeof_bitmap > XRAM_SIZE - cfg.xram_data_ptr as usize {
        assert(!mode3_fits(plane.config, plane.format));
        return;
    }
    let palette = resolve_palette(xram, bpp, cfg.xram_palette_ptr);
    let w = canvas_width as usize;
    let h = canvas_height as usize;
    let ghost old_fb = framebuffer@;
    let mut y: usize = 0;
    while y < h
        invariant
            xram@.len() == XRAM_SIZE,
            mode3_fits(plane.config, plane.format),
            row_bytes == mode3_row_bytes(plane.config, plane.format),
            palette_matches(palette@, xram@, plane.format.spec_bpp(), plane.config.xram_palette_ptr),
            w == canvas_width,
            h == canvas_height,
            old_fb.len() == w * h,
            framebuffer@.len() == old_fb.len(),
            y <= h,
            forall|i: int|
                0 <= i < y * w ==> framebuffer@[i] == overlay(
                    mode3_pixel(*plane, xram@, canvas_height, i % w as int, i / w as int),
                    old_fb[i],
                ),
            forall|i: int| y * w <= i < old_fb.len() ==> framebuffer@[i] == old_fb[i],
        decreases h - y,
    {
        proof {
            lemma_row_span(y as int, w as int, h as int);
        }
        render_mode3_row(plane, xram, &palette, row_bytes, framebuffer, canvas_width, canvas_height, y);
        y += 1;
    }
    proof {
        vstd::arithmetic::mul::lemma_mul_is_commutative(w as int, h as int);
    }
}

/// Coverage of a Mode 3 plane whose bitmap fits in XRAM: inside the scanline
/// window, a canvas pixel within `[x_pos, x_pos + width_px)` by
/// `[y_pos, y_pos + height_px)` (on a wrapped axis, any position, taken
/// modulo the extent) is drawn with the bitmap's color there whenever that
/// color is opaque; a pixel outside that rectangle on an unwrapped axis, or
/// outside the window, is left alone.
pub proof fn lemma_mode3_coverage(plane: Mode3Plane, m: Seq<u8>, canvas_height: u16, x: int, y: int)
    requires
        mode3_fits(plane.config, plane.format),
    ensures
        ({
            let cfg = plane.config;
            let dx = x - cfg.x_pos_px;
            let dy = y - cfg.y_pos_px;
            let col = if cfg.x_wrap { dx % (cfg.width_px as int) } else { dx };
            let row = if cfg.y_wrap { dy % (cfg.height_px as int) } else { dy };
            &&& (in_window(plane.scanline_begin, plane.scanline_end, canvas_height, y) && (cfg.x_wrap
                || 0 <= dx < cfg.width_px) && (cfg.y_wrap || 0 <= dy < cfg.height_px))
                ==> mode3_pixel(plane, m, canvas_height, x, y) == opaque(
                mode3_color(m, cfg, plane.format, row, col),
            )
            &&& (!cfg.x_wrap && !(0 <= dx < cfg.width_px)) ==> mode3_pixel(plane, m, canvas_height, x, y) is None
            &&& (!cfg.y_wrap && !(0 <= dy < cfg.height_px)) ==> mode3_pixel(plane, m, canvas_height, x, y) is None
            &&& !in_window(plane.scanline_begin, plane.scanline_end, canvas_height, y)
                ==> mode3_pixel(plane, m, canvas_height, x, y) is None
        }),
{
}

} // verus!
