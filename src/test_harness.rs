//! Bus traces that program the VGA with named test patterns.

use vstd::prelude::*;
use crate::bus::BusTransaction;
use crate::ria_api::{nondecreasing_cycles, vga_mode1_config_t, vga_mode3_config_t, TraceBuilder};

verus! {

/// Test patterns: a canvas size and color depth for a Mode 3 bitmap, or a
/// text, Mandelbrot or two-plane scene.
#[derive(Debug, Clone, Copy, PartialEq, Eq, Structural)]
pub enum TestMode {
    /// 640x480 canvas, 1bpp = 38,400 bytes
    Mono640x480,
    /// 640x360 canvas, 1bpp = 28,800 bytes
    Mono640x360,
    /// 320x240 canvas, 1bpp = 9,600 bytes, 2x pixel doubling
    Mono320x240,
    /// 320x180 canvas, 1bpp = 7,200 bytes, 2x pixel doubling
    Mono320x180,
    /// 640x360 canvas, 2bpp = 57,600 bytes
    Color2bpp640x360,
    /// 320x240 canvas, 2bpp = 19,200 bytes, 2x pixel doubling
    Color2bpp320x240,
    /// 320x180 canvas, 2bpp = 14,400 bytes, 2x pixel doubling
    Color2bpp320x180,
    /// 320x240 canvas, 4bpp = 38,400 bytes, 2x pixel doubling
    Color4bpp320x240,
    /// 320x180 canvas, 4bpp = 28,800 bytes, 2x pixel doubling
    Color4bpp320x180,
    /// 320x180 canvas, 8bpp = 57,600 bytes, 2x pixel doubling
    Color8bpp320x180,
    /// 320x240 canvas (2x), 16bpp partial: 320x102 bitmap
    Color16bpp320,
    /// 320x240 canvas, Mode 1, 1bpp 8x16 font (40x15 chars)
    Text1bpp320x240,
    /// 320x240 canvas, Mode 1, 8bpp 8x8 font (40x30 chars)
    Text8bpp320x240,
    /// 320x240 canvas, Mode 3, 4bpp LSB-first Mandelbrot set
    Mandelbrot,
    /// 320x240 canvas, a Mode 3 1bpp checkerboard under Mode 1 8bpp text on
    /// the right half
    MultiPlane,
}

/// Whether a mode is a plain Mode 3 bitmap pattern.
pub open spec fn is_bitmap_mode(m: TestMode) -> bool {
    !(m == TestMode::Text1bpp320x240 || m == TestMode::Text8bpp320x240 || m == TestMode::Mandelbrot
        || m == TestMode::MultiPlane)
}

/// Whether a trace ends with the exit OP (0xFF written to $FFEF).
pub open spec fn ends_with_exit(trace: Seq<BusTransaction>) -> bool {
    trace.len() > 0 && trace.last().addr == 0xFFEF && trace.last().data == 0xFF && !trace.last().rw
}

/// Byte-wise equality of two slices.
fn bytes_equal(a: &[u8], b: &[u8]) -> (r: bool)
    ensures
        r == (a@ == b@),
{
    if a.len() != b.len() {
        return false;
    }
    let mut i: usize = 0;
    while i < a.len()
        invariant
            a@.len() == b@.len(),
            i <= a@.len(),
            forall|j: int| 0 <= j < i ==> a@[j] == b@[j],
        decreases a@.len() - i,
    {
        if a[i] != b[i] {
            return false;
        }
        i += 1;
    }
    assert(a@ =~= b@);
    true
}

impl TestMode {
    /// All modes, in declaration order.
    pub fn all() -> (modes: Vec<TestMode>)
        ensures
            modes@.len() == 15,
            modes@[0] == TestMode::Mono640x480,
            modes@[14] == TestMode::MultiPlane,
            forall|i: int, j: int| 0 <= i < j < 15 ==> modes@[i] != modes@[j],
    {
        let mut v: Vec<TestMode> = Vec::new();
        v.push(TestMode::Mono640x480);
        v.push(TestMode::Mono640x360);
        v.push(TestMode::Mono320x240);
        v.push(TestMode::Mono320x180);
        v.push(TestMode::Color2bpp640x360);
        v.push(TestMode::Color2bpp320x240);
        v.push(TestMode::Color2bpp320x180);
        v.push(TestMode::Color4bpp320x240);
        v.push(TestMode::Color4bpp320x180);
        v.push(TestMode::Color8bpp320x180);
        v.push(TestMode::Color16bpp320);
        v.push(TestMode::Text1bpp320x240);
        v.push(TestMode::Text8bpp320x240);
        v.push(TestMode::Mandelbrot);
        v.push(TestMode::MultiPlane);
        v
    }

    /// The mode's command-line name.
    pub fn name(&self) -> &'static str {
        match self {
            TestMode::Mono640x480 => "mono640x480",
            TestMode::Mono640x360 => "mono640x360",
            TestMode::Mono320x240 => "mono320x240",
            TestMode::Mono320x180 => "mono320x180",
            TestMode::Color2bpp640x360 => "color2bpp640x360",
            TestMode::Color2bpp320x240 => "color2bpp320x240",
            TestMode::Color2bpp320x180 => "color2bpp320x180",
            TestMode::Color4bpp320x240 => "color4bpp320x240",
            TestMode::Color4bpp320x180 => "color4bpp320x180",
            TestMode::Color8bpp320x180 => "color8bpp320x180",
            TestMode::Color16bpp320 => "color16bpp320",
            TestMode::Text1bpp320x240 => "text1bpp320x240",
            TestMode::Text8bpp320x240 => "text8bpp320x240",
            TestMode::Mandelbrot => "mandelbrot",
            TestMode::MultiPlane => "multi_plane",
        }
    }

    /// The mode whose name is `s`.
    fn from_name(s: &str) -> Option<TestMode> {
        let modes = TestMode::all();
        let mut i: usize = 0;
        while i < modes.len()
            invariant
                i <= modes@.len(),
            decreases modes@.len() - i,
        {
            let m = modes[i];
            if bytes_equal(s.as_bytes(), m.name().as_bytes()) {
                return Some(m);
            }
            i += 1;
        }
        None
    }

    /// Canvas register value (1-4).
    fn canvas_reg(&self) -> (r: u16)
        requires
            is_bitmap_mode(*self),
        ensures
            1 <= r <= 4,
    {
        match self {
            TestMode::Mono320x240 | TestMode::Color2bpp320x240 | TestMode::Color4bpp320x240
            | TestMode::Color16bpp320 => 1,
            TestMode::Mono320x180 | TestMode::Color2bpp320x180 | TestMode::Color4bpp320x180
            | TestMode::Color8bpp320x180 => 2,
            TestMode::Mono640x480 => 3,
            _ => 4,
        }
    }

    /// Canvas pixel dimensions.
    fn canvas_size(&self) -> (r: (i16, i16))
        requires
            is_bitmap_mode(*self),
        ensures
            r.0 == 320 || r.0 == 640,
            r.1 == 180 || r.1 == 240 || r.1 == 360 || r.1 == 480,
    {
        match self.canvas_reg() {
            1 => (320, 240),
            2 => (320, 180),
            3 => (640, 480),
            _ => (640, 360),
        }
    }

    /// Bits per pixel.
    fn bpp(&self) -> (r: u16)
        requires
            is_bitmap_mode(*self),
        ensures
            r == 1 || r == 2 || r == 4 || r == 8 || r == 16,
    {
        match self {
            TestMode::Mono640x480 | TestMode::Mono640x360 | TestMode::Mono320x240
            | TestMode::Mono320x180 => 1,
            TestMode::Color2bpp640x360 | TestMode::Color2bpp320x240 | TestMode::Color2bpp320x180 => 2,
            TestMode::Color4bpp320x240 | TestMode::Color4bpp320x180 => 4,
            TestMode::Color8bpp320x180 => 8,
            _ => 16,
        }
    }

    /// Mode 3 attribute value for the depth (MSB-first formats).
    fn attr(&self) -> (r: u16)
        requires
            is_bitmap_mode(*self),
        ensures
            r <= 4,
    {
        match self.bpp() {
            1 => 0,
            2 => 1,
            4 => 2,
            8 => 3,
            _ => 4,
        }
    }

    /// Bitmap dimensions. At 16 bpp the height is limited by XRAM capacity
    /// above the 256 bytes kept for the configuration.
    fn bitmap_size(&self) -> (r: (i16, i16))
        requires
            is_bitmap_mode(*self),
        ensures
            r.0 == 320 || r.0 == 640,
            1 <= r.1 <= 480,
    {
        let (w, h) = self.canvas_size();
        if self.bpp() == 16 {
            let bytes_per_row = w as u32 * 2;
            let max_rows = (65536u32 - 256) / bytes_per_row;
            assert(max_rows == 102 || max_rows == 51) by {
                assert(bytes_per_row == 640 || bytes_per_row == 1280);
            }
            (w, max_rows as i16)
        } else {
            (w, h)
        }
    }
}

/// Write an 8-bit structure field through portal 0.
fn set_field_u8(tb: &mut TraceBuilder, base: u16, offset: u16, v: u8)
    requires
        old(tb).cycle + 3 <= u64::MAX,
        old(tb).wf(),
    ensures
        final(tb).wf(),
        final(tb).cycle == old(tb).cycle + 3,
{
    let bytes: [u8; 1] = [v];
    let b = bytes.as_slice();
    assert(b@.len() == 1);
    tb.xram0_struct_set(base, offset, b);
}

/// Write a little-endian 16-bit structure field through portal 0.
fn set_field_u16(tb: &mut TraceBuilder, base: u16, offset: u16, v: u16)
    requires
        old(tb).cycle + 4 <= u64::MAX,
        old(tb).wf(),
    ensures
        final(tb).wf(),
        final(tb).cycle == old(tb).cycle + 4,
{
    let bytes: [u8; 2] = [(v % 256) as u8, (v / 256) as u8];
    let b = bytes.as_slice();
    assert(b@.len() == 2);
    tb.xram0_struct_set(base, offset, b);
}

/// Write a little-endian signed 16-bit structure field through portal 0.
fn set_field_i16(tb: &mut TraceBuilder, base: u16, offset: u16, v: i16)
    requires
        old(tb).cycle + 4 <= u64::MAX,
        old(tb).wf(),
    ensures
        final(tb).wf(),
        final(tb).cycle == old(tb).cycle + 4,
{
    set_field_u16(tb, base, offset, v as u16);
}

/// Write a Mode 3 configuration through portal 0 (unwrapped, at the origin).
fn set_mode3_config(tb: &mut TraceBuilder, config_ptr: u16, width: i16, height: i16, data_ptr: u16, palette_ptr: u16)
    requires
        old(tb).cycle + 30 <= u64::MAX,
        old(tb).wf(),
    ensures
        final(tb).wf(),
        final(tb).cycle == old(tb).cycle + 30,
{
    set_field_u8(tb, config_ptr, vga_mode3_config_t::X_WRAP, 0);
    set_field_u8(tb, config_ptr, vga_mode3_config_t::Y_WRAP, 0);
    set_field_i16(tb, config_ptr, vga_mode3_config_t::X_POS_PX, 0);
    set_field_i16(tb, config_ptr, vga_mode3_config_t::Y_POS_PX, 0);
    set_field_i16(tb, config_ptr, vga_mode3_config_t::WIDTH_PX, width);
    set_field_i16(tb, config_ptr, vga_mode3_config_t::HEIGHT_PX, height);
    set_field_u16(tb, config_ptr, vga_mode3_config_t::XRAM_DATA_PTR, data_ptr);
    set_field_u16(tb, config_ptr, vga_mode3_config_t::XRAM_PALETTE_PTR, palette_ptr);
}

/// Write a Mode 1 configuration through portal 0 (unwrapped, built-in
/// palette and font).
fn set_mode1_config(tb: &mut TraceBuilder, config_ptr: u16, x_pos: i16, width_chars: i16, height_chars: i16, data_ptr: u16)
    requires
        old(tb).cycle + 34 <= u64::MAX,
        old(tb).wf(),
    ensures
        final(tb).wf(),
        final(tb).cycle == old(tb).cycle + 34,
{
    set_field_u8(tb, config_ptr, vga_mode1_config_t::X_WRAP, 0);
    set_field_u8(tb, config_ptr, vga_mode1_config_t::Y_WRAP, 0);
    set_field_i16(tb, config_ptr, vga_mode1_config_t::X_POS_PX, x_pos);
    set_field_i16(tb, config_ptr, vga_mode1_config_t::Y_POS_PX, 0);
    set_field_i16(tb, config_ptr, vga_mode1_config_t::WIDTH_CHARS, width_chars);
    set_field_i16(tb, config_ptr, vga_mode1_config_t::HEIGHT_CHARS, height_chars);
    set_field_u16(tb, config_ptr, vga_mode1_config_t::XRAM_DATA_PTR, data_ptr);
    set_field_u16(tb, config_ptr, vga_mode1_config_t::XRAM_PALETTE_PTR, 0xFFFF);
    set_field_u16(tb, config_ptr, vga_mode1_config_t::XRAM_FONT_PTR, 0xFFFF);
}

/// Program one plane: xreg_vga_mode(mode, attr, config_ptr, plane, 0, 0).
fn program_plane(tb: &mut TraceBuilder, mode: u16, attr: u16, config_ptr: u16, plane: u16)
    requires
        old(tb).cycle + 16 <= u64::MAX,
        old(tb).wf(),
    ensures
        final(tb).wf(),
        final(tb).cycle == old(tb).cycle + 16,
{
    let values: [u16; 6] = [mode, attr, config_ptr, plane, 0, 0];
    let v = values.as_slice();
    assert(v@.len() == 6);
    tb.xreg_vga_mode(v);
}

/// Finish a trace: wait one frame, then exit.
fn finish(mut tb: TraceBuilder) -> (trace: Vec<BusTransaction>)
    requires
        tb.cycle + 200_001 <= u64::MAX,
        tb.wf(),
    ensures
        ends_with_exit(trace@),
        nondecreasing_cycles(trace@),
{
    tb.wait_frames(1);
    tb.op_exit();
    tb.trace
}

/// Generate a bus trace that programs Mode 1 with a test pattern: the
/// configuration at 0x0000, character cells at 0x0100, a 320x240 canvas.
fn generate_mode1_test_trace(mode: TestMode) -> (trace: Vec<BusTransaction>)
    requires
        mode == TestMode::Text1bpp320x240 || mode == TestMode::Text8bpp320x240,
    ensures
        ends_with_exit(trace@),
        nondecreasing_cycles(trace@),
{
    let mut tb = TraceBuilder::new();
    let config_ptr: u16 = 0x0000;
    let data_ptr: u16 = 0x0100;
    let (width_chars, height_chars, attr, cell_size): (i16, i16, u16, usize) = if mode
        == TestMode::Text1bpp320x240 {
        (40, 15, 8, 1)
    } else {
        (40, 30, 3, 3)
    };
    set_mode1_config(&mut tb, config_ptr, 0, width_chars, height_chars, data_ptr);
    tb.set_addr0(data_ptr);
    let cells: u32 = width_chars as u32 * height_chars as u32;
    let mut i: u32 = 0;
    while i < cells
        invariant
            cells <= 1200,
            width_chars == 40,
            cell_size <= 3,
            i <= cells,
            tb.cycle <= 36 + 3 * i,
            tb.wf(),
        decreases cells - i,
    {
        let col = i % width_chars as u32;
        let glyph = 0x21 + (i % 94) as u8;
        tb.write(0xFFE4, glyph);
        if cell_size >= 2 {
            let fg = (1 + (col % 15)) as u8;
            let bg = 16u8;
            tb.write(0xFFE4, fg);
            if cell_size >= 3 {
                tb.write(0xFFE4, bg);
            }
        }
        i += 1;
    }
    tb.xreg_vga_canvas(1);
    program_plane(&mut tb, 1, attr, config_ptr, 0);
    finish(tb)
}

/// Fixed-point product `a * b` shifted right by `bits`, rounding toward
/// negative infinity (an arithmetic shift).
fn shift_product(a: i32, b: i32, divisor: u32) -> (r: i32)
    requires
        -8192 <= a <= 8192,
        -8192 <= b <= 8192,
        divisor == 2048 || divisor == 4096,
    ensures
        -32768 <= r <= 32768,
{
    assert(-67108864 <= a * b <= 67108864) by (nonlinear_arith)
        requires
            -8192 <= a <= 8192,
            -8192 <= b <= 8192,
    ;
    let p = a * b;
    if p >= 0 {
        ((p as u32) / divisor) as i32
    } else {
        let n = (-p) as u32;
        -(((n + divisor - 1) / divisor) as i32)
    }
}

/// A coordinate whose fixed-point square stays within the escape radius.
proof fn lemma_inside_radius(x: i32)
    requires
        -40000 <= x <= 40000,
        x * x / 4096 <= 16384,
    ensures
        -8192 <= x <= 8192,
{
    assert(x * x < 67112960);
    if x > 8192 {
        assert(x * x >= 8193 * 8193) by (nonlinear_arith)
            requires
                x >= 8193,
        ;
    }
    if x < -8192 {
        assert(x * x >= 8193 * 8193) by (nonlinear_arith)
            requires
                x <= -8193,
        ;
    }
}

/// Mandelbrot color index (0-15) of pixel (`px`, `py`) of a 320x240 view:
/// 12 fractional bits, at most 16 iterations.
fn mandelbrot_color(px: i32, py: i32) -> (r: u8)
    requires
        0 <= px < 320,
        0 <= py < 240,
    ensures
        r < 16,
{
    let x0 = px * 12288 / 320 - 9216;
    let y0 = py * 9175 / 240 - 4587;
    let mut x: i32 = 0;
    let mut y: i32 = 0;
    let mut iter: i32 = 0;
    while iter < 16
        invariant
            -9216 <= x0 <= 3072,
            -4587 <= y0 <= 4588,
            -40000 <= x <= 40000,
            -40000 <= y <= 40000,
            0 <= iter <= 16,
        decreases 16 - iter,
    {
        assert(0 <= x * x <= 1_600_000_000 && 0 <= y * y <= 1_600_000_000) by (nonlinear_arith)
            requires
                -40000 <= x <= 40000,
                -40000 <= y <= 40000,
        ;
        let xx = ((x * x) as u32 / 4096) as i32;
        let yy = ((y * y) as u32 / 4096) as i32;
        if xx + yy > 16384 {
            break;
        }
        proof {
            lemma_inside_radius(x);
            lemma_inside_radius(y);
        }
        let xtemp = xx - yy + x0;
        y = shift_product(x, y, 2048) + y0;
        x = xtemp;
        iter += 1;
    }
    let r = ((iter - 1) as u8) & 0x0F;
    assert(((iter - 1) as u8) & 0x0Fu8 < 16u8) by (bit_vector);
    r
}

/// Generate a bus trace that renders the Mandelbrot set: Mode 3 at 4 bpp
/// LSB-first (attr 10), configuration at 0xFF00, pixels at 0x0000, the
/// built-in palette, a 320x240 canvas.
fn generate_mandelbrot_test_trace() -> (trace: Vec<BusTransaction>)
    ensures
        ends_with_exit(trace@),
        nondecreasing_cycles(trace@),
{
    let mut tb = TraceBuilder::new();
    let config_ptr: u16 = 0xFF00;
    let data_ptr: u16 = 0x0000;
    set_mode3_config(&mut tb, config_ptr, 320, 240, data_ptr, 0xFFFF);
    let mut pixel_data: Vec<u8> = Vec::new();
    let n: u32 = 160 * 240;
    let mut i: u32 = 0;
    while i < n
        invariant
            n == 160 * 240,
            i <= n,
            pixel_data@.len() == i,
        decreases n - i,
    {
        let py = (i / 160) as i32;
        let px = ((i % 160) * 2) as i32;
        let even = mandelbrot_color(px, py);
        let odd = mandelbrot_color(px + 1, py);
        pixel_data.push(even | (odd << 4u8));
        i += 1;
    }
    tb.xram0_write(data_ptr, pixel_data.as_slice());
    tb.xreg_vga_canvas(1);
    program_plane(&mut tb, 3, 10, config_ptr, 0);
    finish(tb)
}

/// Generate a bus trace with two planes: plane 0 a Mode 3 1-bpp 8x8
/// checkerboard over the whole 320x240 canvas (configuration at 0x0000,
/// pixels at 0x0020), plane 1 Mode 1 8-bpp text, 20x30 cells at x = 160
/// (configuration at 0x2600, cells at 0x2700) with rainbow foregrounds and a
/// transparent background.
fn generate_multi_plane_test_trace() -> (trace: Vec<BusTransaction>)
    ensures
        ends_with_exit(trace@),
        nondecreasing_cycles(trace@),
{
    let mut tb = TraceBuilder::new();
    let m3_config_ptr: u16 = 0x0000;
    let m3_data_ptr: u16 = 0x0020;
    let m1_config_ptr: u16 = 0x2600;
    let m1_data_ptr: u16 = 0x2700;
    set_mode3_config(&mut tb, m3_config_ptr, 320, 240, m3_data_ptr, 0xFFFF);
    let mut checkerboard: Vec<u8> = Vec::new();
    let n: u32 = 40 * 240;
    let mut i: u32 = 0;
    while i < n
        invariant
            n == 40 * 240,
            i <= n,
            checkerboard@.len() == i,
        decreases n - i,
    {
        let block_y = (i / 40) / 8;
        let bx = i % 40;
        checkerboard.push(
            if (bx + block_y) % 2 != 0 {
                0xFF
            } else {
                0x00
            },
        );
        i += 1;
    }
    tb.xram0_write(m3_data_ptr, checkerboard.as_slice());
    let width_chars: i16 = 20;
    let height_chars: i16 = 30;
    set_mode1_config(&mut tb, m1_config_ptr, 160, width_chars, height_chars, m1_data_ptr);
    let rainbow: [u8; 6] = [9, 11, 10, 14, 12, 13];
    let mut char_data: Vec<u8> = Vec::new();
    let cells: u32 = 20 * 30;
    let mut k: u32 = 0;
    while k < cells
        invariant
            cells == 600,
            k <= cells,
            char_data@.len() == 3 * k,
        decreases cells - k,
    {
        let col = k % 20;
        char_data.push(0x21 + (k % 94) as u8);
        char_data.push(rainbow[(col % 6) as usize]);
        char_data.push(0);
        k += 1;
    }
    tb.xram0_write(m1_data_ptr, char_data.as_slice());
    tb.xreg_vga_canvas(1);
    program_plane(&mut tb, 3, 0, m3_config_ptr, 0);
    program_plane(&mut tb, 1, 3, m1_config_ptr, 1);
    finish(tb)
}

/// One byte of test-pattern bitmap data at byte `byte_x` of row `y`, packed
/// MSB first: a checkerboard at 1 bpp, `(px + y) mod 2^bpp` at 2, 4 and 8 bpp,
/// and at 16 bpp an opaque RGB565 word with R = px, G = y, B = px + y (each
/// mod 32), low byte first.
fn pattern_byte(byte_x: u32, y: u32, bpp: u16, width: u32) -> (r: u8)
    requires
        byte_x < 0x10000,
        y < 0x10000,
    ensures
        bpp == 8 ==> r == (byte_x + y) % 256,
{
    if bpp == 1 {
        let base_px = byte_x * 8;
        let mut byte: u8 = 0;
        let mut bit: u32 = 0;
        while bit < 8
            invariant
                base_px < 0x80000,
                y < 0x10000,
                bit <= 8,
            decreases 8 - bit,
        {
            let px = base_px + bit;
            if px < width && (px + y) % 2 == 0 {
                byte = byte | (1u8 << ((7 - bit) as u8));
            }
            bit += 1;
        }
        byte
    } else if bpp == 2 {
        let base_px = byte_x * 4;
        let mut byte: u8 = 0;
        let mut i: u32 = 0;
        while i < 4
            invariant
                base_px < 0x40000,
                y < 0x10000,
                i <= 4,
            decreases 4 - i,
        {
            let px = base_px + i;
            if px < width {
                let color = ((px + y) % 4) as u8;
                byte = byte | (color << ((6 - i * 2) as u8));
            }
            i += 1;
        }
        byte
    } else if bpp == 4 {
        let base_px = byte_x * 2;
        let mut byte: u8 = 0;
        let mut i: u32 = 0;
        while i < 2
            invariant
                base_px < 0x20000,
                y < 0x10000,
                i <= 2,
            decreases 2 - i,
        {
            let px = base_px + i;
            if px < width {
                let color = ((px + y) % 16) as u8;
                if i == 0 {
                    byte = byte | (color << 4u8);
                } else {
                    byte = byte | color;
                }
            }
            i += 1;
        }
        byte
    } else if bpp == 8 {
        ((byte_x + y) % 256) as u8
    } else if bpp == 16 {
        let px = byte_x / 2;
        let r5 = (px % 32) as u16;
        let g5 = (y % 32) as u16;
        let b5 = ((px + y) % 32) as u16;
        let color: u16 = b5 * 2048 + g5 * 64 + 32 + r5;
        if byte_x % 2 == 0 {
            (color % 256) as u8
        } else {
            (color / 256) as u8
        }
    } else {
        0
    }
}

/// Generate the bus trace of a test mode: for a bitmap mode, a Mode 3
/// configuration at 0x0000, the pattern bitmap at 0x0100 (built-in palette),
/// the canvas, the plane, one frame, and exit.
pub fn generate_test_trace(mode: TestMode) -> (trace: Vec<BusTransaction>)
    ensures
        ends_with_exit(trace@),
        nondecreasing_cycles(trace@),
{
    if mode == TestMode::Text1bpp320x240 || mode == TestMode::Text8bpp320x240 {
        return generate_mode1_test_trace(mode);
    }
    if mode == TestMode::Mandelbrot {
        return generate_mandelbrot_test_trace();
    }
    if mode == TestMode::MultiPlane {
        return generate_multi_plane_test_trace();
    }
    let mut tb = TraceBuilder::new();
    let config_ptr: u16 = 0x0000;
    let data_ptr: u16 = 0x0100;
    let (bmp_w, bmp_h) = mode.bitmap_size();
    let bpp = mode.bpp();
    set_mode3_config(&mut tb, config_ptr, bmp_w, bmp_h, data_ptr, 0);
    assert(320 <= bmp_w as u32 * bpp as u32 <= 640 * 16) by (nonlinear_arith)
        requires
            320 <= bmp_w <= 640,
            1 <= bpp <= 16,
    ;
    let bytes_per_row: u32 = (bmp_w as u32 * bpp as u32 + 7) / 8;
    assert(bytes_per_row <= 1280);
    assert(bmp_h as u32 * bytes_per_row <= 480 * 1280) by (nonlinear_arith)
        requires
            1 <= bmp_h <= 480,
            bytes_per_row <= 1280,
    ;
    let n: u32 = bmp_h as u32 * bytes_per_row;
    assert(bytes_per_row >= 40);
    let mut pixel_data: Vec<u8> = Vec::new();
    let mut i: u32 = 0;
    while i < n
        invariant
            n <= 480 * 1280,
            bytes_per_row >= 40,
            bytes_per_row <= 1280,
            i <= n,
            pixel_data@.len() == i,
        decreases n - i,
    {
        proof {
            vstd::arithmetic::div_mod::lemma_div_is_ordered_by_denominator(i as int, 40, bytes_per_row as int);
        }
        pixel_data.push(pattern_byte(i % bytes_per_row, i / bytes_per_row, bpp, bmp_w as u32));
        i += 1;
    }
    tb.xram0_write(data_ptr, pixel_data.as_slice());
    tb.xreg_vga_canvas(mode.canvas_reg());
    program_plane(&mut tb, 3, mode.attr(), config_ptr, 0);
    finish(tb)
}

impl std::str::FromStr for TestMode {
    type Err = String;

    fn from_str(s: &str) -> Result<Self, Self::Err> {
        match TestMode::from_name(s) {
            Some(m) => Ok(m),
            None => Err(
                "unknown mode; valid modes: mono640x480, mono640x360, mono320x240, mono320x180, color2bpp640x360, color2bpp320x240, color2bpp320x180, color4bpp320x240, color4bpp320x180, color8bpp320x180, color16bpp320, text1bpp320x240, text8bpp320x240, mandelbrot, multi_plane".to_owned(),
            ),
        }
    }
}

} // verus!
