use vstd::prelude::*;
use crate::layout::{lemma_index_split, lemma_row_span};
use crate::mode1::{mode1_config_at, mode1_format_of, mode1_pixel, render_mode1, Mode1Config, Mode1Format, Mode1Plane};
use crate::mode2::{mode2_config_at, mode2_format_of, mode2_pixel, render_mode2, Mode2Config, Mode2Format, Mode2Plane};
use crate::mode3::{color_format_of, mode3_config_at, mode3_pixel, render_mode3, ColorFormat, Mode3Config, Mode3Plane};
use crate::palette::{alpha_of, blue_of, green_of, red_of};
use crate::pix::{Backchannel, PixEvent, PixRegWrite};
use crate::xram::{overlay, XRAM_SIZE};

verus! {

/// Display output is always 640x480 RGBA.
pub const DISPLAY_WIDTH: usize = 640;
pub const DISPLAY_HEIGHT: usize = 480;
pub const DISPLAY_BYTES: usize = 640 * 480 * 4;

/// Byte `k` (0 = R, 1 = G, 2 = B, 3 = A) of an RGBA word.
pub open spec fn rgba_byte(c: u32, k: int) -> u8 {
    if k == 0 {
        red_of(c)
    } else if k == 1 {
        green_of(c)
    } else if k == 2 {
        blue_of(c)
    } else {
        alpha_of(c)
    }
}

/// Byte `b` of the 640x480 display showing a `w` by `h` canvas scaled up by
/// the integer factors `640 / w` and `480 / h`, anchored top-left; the
/// display outside the scaled canvas is zero.
pub open spec fn upscaled_byte(canvas: Seq<u32>, w: int, h: int, b: int) -> u8 {
    let p = b / 4;
    let dx = p % 640;
    let dy = p / 640;
    let sx = 640int / w;
    let sy = 480int / (if h > 0 { h } else { 1 });
    if dx < w * sx && dy < h * sy {
        rgba_byte(canvas[(dy / sy) * w + dx / sx], b % 4)
    } else {
        0
    }
}

pub open spec fn upscaled(canvas: Seq<u32>, w: int, h: int) -> Seq<u8> {
    Seq::new(DISPLAY_BYTES as nat, |b: int| upscaled_byte(canvas, w, h, b))
}

/// Upscale a canvas buffer into the 640x480 RGBA display buffer: each canvas
/// pixel becomes a `640 / w` by `480 / h` block; the rest of the display
/// (below a 16:9 canvas) is cleared to zero.
pub fn upscale_canvas(canvas: &[u32], canvas_w: u16, canvas_h: u16, display: &mut Vec<u8>)
    requires
        canvas_w >= 1,
        canvas@.len() == canvas_w as int * canvas_h as int,
        old(display)@.len() == DISPLAY_BYTES,
    ensures
        final(display)@ == upscaled(canvas@, canvas_w as int, canvas_h as int),
{
    let cw = canvas_w as usize;
    let ch = canvas_h as usize;
    let sx = DISPLAY_WIDTH / cw;
    let sy = DISPLAY_HEIGHT / (if ch > 0 { ch } else { 1 });
    proof {
        vstd::arithmetic::div_mod::lemma_fundamental_div_mod(640, cw as int);
        vstd::arithmetic::mul::lemma_mul_is_commutative(cw as int, sx as int);
        vstd::arithmetic::mul::lemma_mul_nonnegative(cw as int, sx as int);
        if ch > 0 {
            vstd::arithmetic::div_mod::lemma_fundamental_div_mod(480, ch as int);
            vstd::arithmetic::mul::lemma_mul_is_commutative(ch as int, sy as int);
        }
        vstd::arithmetic::mul::lemma_mul_nonnegative(ch as int, sy as int);
    }
    let span_x = cw * sx;
    let span_y = ch * sy;
    let n = canvas.len();
    let mut p: usize = 0;
    while p < DISPLAY_WIDTH * DISPLAY_HEIGHT
        invariant
            display@.len() == DISPLAY_BYTES,
            canvas@.len() == cw * ch,
            n == canvas@.len(),
            cw == canvas_w,
            ch == canvas_h,
            cw >= 1,
            sx == 640int / (cw as int),
            sy == 480int / (if ch > 0 { ch as int } else { 1int }),
            span_x == cw * sx,
            span_y == ch * sy,
            span_x == sx * cw,
            span_y == sy * ch,
            span_x <= 640,
            span_y <= 480,
            p <= DISPLAY_WIDTH * DISPLAY_HEIGHT,
            forall|b: int| 0 <= b < 4 * p ==> display@[b] == upscaled_byte(canvas@, cw as int, ch as int, b),
        decreases DISPLAY_WIDTH * DISPLAY_HEIGHT - p,
    {
        let dx = p % DISPLAY_WIDTH;
        let dy = p / DISPLAY_WIDTH;
        let pixel: u32 = if dx < span_x && dy < span_y {
            proof {
                assert(sx > 0 && sy > 0) by (nonlinear_arith)
                    requires
                        cw * sx > 0,
                        ch * sy > 0,
                        sx >= 0,
                        sy >= 0,
                        cw >= 0,
                        ch >= 0,
                ;
                vstd::arithmetic::div_mod::lemma_multiply_divide_lt(dx as int, sx as int, cw as int);
                vstd::arithmetic::div_mod::lemma_multiply_divide_lt(dy as int, sy as int, ch as int);
                lemma_row_span((dy / sy) as int, cw as int, ch as int);
                assert((dy / sy) * cw + dx / sx < n);
            }
            canvas[(dy / sy) * cw + dx / sx]
        } else {
            0
        };
        let base = 4 * p;
        display.set(base, (pixel / 0x100_0000) as u8);
        display.set(base + 1, (pixel / 0x1_0000 % 0x100) as u8);
        display.set(base + 2, (pixel / 0x100 % 0x100) as u8);
        display.set(base + 3, (pixel % 0x100) as u8);
        proof {
            assert forall|b: int| 0 <= b < 4 * (p + 1) implies display@[b] == upscaled_byte(
                canvas@,
                cw as int,
                ch as int,
                b,
            ) by {
                if b >= 4 * p {
                    lemma_index_split(b, p as int, b - 4 * p, 4);
                    assert(b / 4 == p);
                }
            }
        }
        p += 1;
    }
    proof {
        assert(display@ =~= upscaled(canvas@, cw as int, ch as int));
    }
}

/// A programmed display plane.
#[derive(Debug, Clone, Copy)]
pub enum Plane {
    Mode1(Mode1Plane),
    Mode2(Mode2Plane),
    Mode3(Mode3Plane),
}

/// A plane installed in a slot, with the XRAM address of its configuration,
/// which is read again on every frame.
#[derive(Debug, Clone, Copy)]
pub struct PlaneSlot {
    pub plane: Plane,
    pub config_ptr: u16,
}

/// Canvas size selected by a CANVAS register value.
pub open spec fn canvas_size_of(value: u16) -> (u16, u16) {
    if value == 1 {
        (320, 240)
    } else if value == 2 {
        (320, 180)
    } else if value == 4 {
        (640, 360)
    } else {
        (640, 480)
    }
}

pub open spec fn valid_canvas(w: u16, h: u16) -> bool {
    (w == 320 && (h == 240 || h == 180)) || (w == 640 && (h == 480 || h == 360))
}

/// The color a slot's plane draws at canvas pixel (`x`, `y`), with its
/// configuration read afresh from XRAM.
pub open spec fn slot_pixel(slot: PlaneSlot, m: Seq<u8>, h: u16, x: int, y: int) -> Option<u32> {
    match slot.plane {
        Plane::Mode1(p) => mode1_pixel(
            Mode1Plane { config: mode1_config_at(m, slot.config_ptr as int), ..p },
            m,
            h,
            x,
            y,
        ),
        Plane::Mode2(p) => mode2_pixel(
            Mode2Plane { config: mode2_config_at(m, slot.config_ptr as int), ..p },
            m,
            h,
            x,
            y,
        ),
        Plane::Mode3(p) => mode3_pixel(
            Mode3Plane { config: mode3_config_at(m, slot.config_ptr as int), ..p },
            m,
            h,
            x,
            y,
        ),
    }
}

/// Canvas pixel `i` after compositing the first `k` slots, in slot order,
/// over a cleared canvas.
pub open spec fn composite(planes: Seq<Option<PlaneSlot>>, m: Seq<u8>, w: u16, h: u16, k: nat, i: int) -> u32
    decreases k,
{
    if k == 0 {
        0
    } else {
        let below = composite(planes, m, w, h, (k - 1) as nat, i);
        match planes[k - 1] {
            Some(slot) => overlay(slot_pixel(slot, m, h, i % w as int, i / w as int), below),
            None => below,
        }
    }
}

/// The canvas of one frame: all three slots composited.
pub open spec fn frame_canvas(planes: Seq<Option<PlaneSlot>>, m: Seq<u8>, w: u16, h: u16) -> Seq<u32> {
    Seq::new((w * h) as nat, |i: int| composite(planes, m, w, h, 3, i))
}

/// The slot and plane that a MODE command with value `mode` installs from
/// the staged registers, or `None` when the command is malformed: a plane
/// index over 2, an odd configuration pointer, a configuration that would
/// cross the end of XRAM, or an attribute the mode does not know.
pub open spec fn programmed(xregs: Seq<u16>, m: Seq<u8>, mode: u16) -> Option<(int, PlaneSlot)> {
    let attr = xregs[2];
    let ptr = xregs[3];
    let idx = xregs[4] as int;
    let begin = xregs[5];
    let end = xregs[6];
    if idx >= 3 || ptr % 2 != 0 {
        None
    } else if mode == 1 {
        match mode1_format_of(attr) {
            Some(f) if ptr + 16 <= 0x10000 => Some(
                (
                    idx,
                    PlaneSlot {
                        plane: Plane::Mode1(
                            Mode1Plane {
                                config: mode1_config_at(m, ptr as int),
                                format: f,
                                scanline_begin: begin,
                                scanline_end: end,
                                config_ptr: ptr,
                            },
                        ),
                        config_ptr: ptr,
                    },
                ),
            ),
            _ => None,
        }
    } else if mode == 2 {
        match mode2_format_of(attr) {
            Some(f) if ptr + 16 <= 0x10000 => Some(
                (
                    idx,
                    PlaneSlot {
                        plane: Plane::Mode2(
                            Mode2Plane {
                                config: mode2_config_at(m, ptr as int),
                                format: f,
                                scanline_begin: begin,
                                scanline_end: end,
                                config_ptr: ptr,
                            },
                        ),
                        config_ptr: ptr,
                    },
                ),
            ),
            _ => None,
        }
    } else if mode == 3 {
        match color_format_of(attr) {
            Some(f) if ptr + 14 <= 0x10000 => Some(
                (
                    idx,
                    PlaneSlot {
                        plane: Plane::Mode3(
                            Mode3Plane {
                                config: mode3_config_at(m, ptr as int),
                                format: f,
                                scanline_begin: begin,
                                scanline_end: end,
                            },
                        ),
                        config_ptr: ptr,
                    },
                ),
            ),
            _ => None,
        }
    } else {
        None
    }
}

/// VGA state machine: its XRAM mirror, three plane slots, the canvas size,
/// the register staging array, the frame counter, and the last published
/// 640x480 RGBA display.
pub struct Vga {
    pub xram: Vec<u8>,
    pub planes: Vec<Option<PlaneSlot>>,
    pub canvas_width: u16,
    pub canvas_height: u16,
    pub xregs: Vec<u16>,
    pub frame_count: u8,
    pub display: Vec<u8>,
}

fn zeroed_u8(n: usize) -> (v: Vec<u8>)
    ensures
        v@.len() == n,
        forall|i: int| 0 <= i < n ==> v@[i] == 0,
{
    let mut v: Vec<u8> = Vec::new();
    let mut i: usize = 0;
    while i < n
        invariant
            i <= n,
            v@.len() == i,
            forall|j: int| 0 <= j < i ==> v@[j] == 0,
        decreases n - i,
    {
        v.push(0);
        i += 1;
    }
    v
}

fn zeroed_u32(n: usize) -> (v: Vec<u32>)
    ensures
        v@.len() == n,
        forall|i: int| 0 <= i < n ==> v@[i] == 0,
{
    let mut v: Vec<u32> = Vec::new();
    let mut i: usize = 0;
    while i < n
        invariant
            i <= n,
            v@.len() == i,
            forall|j: int| 0 <= j < i ==> v@[j] == 0,
        decreases n - i,
    {
        v.push(0);
        i += 1;
    }
    v
}

fn zeroed_xregs() -> (v: Vec<u16>)
    ensures
        v@ == Seq::new(8, |i: int| 0u16),
{
    let mut v: Vec<u16> = Vec::new();
    let mut i: usize = 0;
    while i < 8
        invariant
            i <= 8,
            v@.len() == i,
            forall|j: int| 0 <= j < i ==> v@[j] == 0,
        decreases 8 - i,
    {
        v.push(0);
        i += 1;
    }
    assert(v@ =~= Seq::new(8, |i: int| 0u16));
    v
}

fn empty_planes() -> (v: Vec<Option<PlaneSlot>>)
    ensures
        v@ == Seq::new(3, |i: int| None::<PlaneSlot>),
{
    let mut v: Vec<Option<PlaneSlot>> = Vec::new();
    v.push(None);
    v.push(None);
    v.push(None);
    assert(v@ =~= Seq::new(3, |i: int| None::<PlaneSlot>));
    v
}

impl Vga {
    pub open spec fn wf(&self) -> bool {
        &&& self.xram@.len() == XRAM_SIZE
        &&& self.planes@.len() == 3
        &&& self.xregs@.len() == 8
        &&& self.display@.len() == DISPLAY_BYTES
        &&& valid_canvas(self.canvas_width, self.canvas_height)
    }

    /// A VGA with zeroed XRAM, no planes, a 640x480 canvas and a blank display.
    pub fn new() -> (v: Self)
        ensures
            v.wf(),
            v.xram@ == Seq::new(XRAM_SIZE as nat, |i: int| 0u8),
            v.planes@ == Seq::new(3, |i: int| None::<PlaneSlot>),
            v.canvas_width == 640,
            v.canvas_height == 480,
            v.xregs@ == Seq::new(8, |i: int| 0u16),
            v.frame_count == 0,
            v.display@ == Seq::new(DISPLAY_BYTES as nat, |i: int| 0u8),
    {
        let xram = zeroed_u8(XRAM_SIZE);
        let display = zeroed_u8(DISPLAY_BYTES);
        assert(xram@ =~= Seq::new(XRAM_SIZE as nat, |i: int| 0u8));
        assert(display@ =~= Seq::new(DISPLAY_BYTES as nat, |i: int| 0u8));
        Vga {
            xram,
            planes: empty_planes(),
            canvas_width: 640,
            canvas_height: 480,
            xregs: zeroed_xregs(),
            frame_count: 0,
            display,
        }
    }

    /// Handle one PIX event. Returns the backchannel message it answers with,
    /// if any.
    pub fn handle_event(&mut self, event: PixEvent) -> (reply: Option<Backchannel>)
        requires
            old(self).wf(),
        ensures
            final(self).wf(),
            match event {
                PixEvent::Xram(w) => {
                    &&& final(self).xram@ == old(self).xram@.update(w.addr as int, w.data)
                    &&& final(self).planes@ == old(self).planes@
                    &&& final(self).canvas_width == old(self).canvas_width
                    &&& final(self).canvas_height == old(self).canvas_height
                    &&& final(self).xregs@ == old(self).xregs@
                    &&& final(self).frame_count == old(self).frame_count
                    &&& final(self).display@ == old(self).display@
                    &&& reply is None
                },
                PixEvent::Reg(r) => Vga::reg_post(*old(self), *final(self), r, reply),
                PixEvent::FrameSync => {
                    &&& final(self).xram@ == old(self).xram@
                    &&& final(self).planes@ == old(self).planes@
                    &&& final(self).canvas_width == old(self).canvas_width
                    &&& final(self).canvas_height == old(self).canvas_height
                    &&& final(self).xregs@ == old(self).xregs@
                    &&& final(self).frame_count == (old(self).frame_count + 1) % 256
                    &&& final(self).display@ == upscaled(
                        frame_canvas(
                            old(self).planes@,
                            old(self).xram@,
                            old(self).canvas_width,
                            old(self).canvas_height,
                        ),
                        old(self).canvas_width as int,
                        old(self).canvas_height as int,
                    )
                    &&& reply == Some(Backchannel::Vsync((0x80 + final(self).frame_count % 16) as u8))
                },
            },
    {
        match event {
            PixEvent::Xram(w) => {
                self.xram.set(w.addr as usize, w.data);
                None
            },
            PixEvent::Reg(r) => self.handle_reg(r),
            PixEvent::FrameSync => {
                self.render_frame();
                self.frame_count = self.frame_count.wrapping_add(1);
                let fc = self.frame_count;
                assert(0x80u8 | (fc & 0x0Fu8) == 0x80u8 + fc % 16) by (bit_vector);
                Some(Backchannel::Vsync(0x80 | (fc & 0x0F)))
            },
        }
    }

    /// What a register write does to the VGA, and its answer.
    pub open spec fn reg_post(old: Vga, new: Vga, r: PixRegWrite, reply: Option<Backchannel>) -> bool {
        let staged = if r.register < 8 {
            old.xregs@.update(r.register as int, r.value)
        } else {
            old.xregs@
        };
        &&& new.xram@ == old.xram@
        &&& new.frame_count == old.frame_count
        &&& new.display@ == old.display@
        &&& if r.channel != 0 {
            &&& new.planes@ == old.planes@
            &&& new.canvas_width == old.canvas_width
            &&& new.canvas_height == old.canvas_height
            &&& new.xregs@ == old.xregs@
            &&& reply is None
        } else if r.register == 0 {
            &&& (new.canvas_width, new.canvas_height) == canvas_size_of(r.value)
            &&& new.planes@ == Seq::new(3, |i: int| None::<PlaneSlot>)
            &&& new.xregs@ == Seq::new(8, |i: int| 0u16)
            &&& reply == Some(Backchannel::Ack)
        } else if r.register == 1 {
            &&& new.canvas_width == old.canvas_width
            &&& new.canvas_height == old.canvas_height
            &&& new.xregs@ == Seq::new(8, |i: int| 0u16)
            &&& match programmed(staged, old.xram@, r.value) {
                Some((idx, slot)) => new.planes@ == old.planes@.update(idx, Some(slot)) && reply
                    == Some(Backchannel::Ack),
                None => new.planes@ == old.planes@ && reply == Some(Backchannel::Nak),
            }
        } else {
            &&& new.planes@ == old.planes@
            &&& new.canvas_width == old.canvas_width
            &&& new.canvas_height == old.canvas_height
            &&& new.xregs@ == staged
            &&& reply is None
        }
    }

    fn handle_reg(&mut self, reg: PixRegWrite) -> (reply: Option<Backchannel>)
        requires
            old(self).wf(),
        ensures
            final(self).wf(),
            Vga::reg_post(*old(self), *final(self), reg, reply),
    {
        if reg.channel != 0 {
            return None;
        }
        if (reg.register as usize) < 8 {
            self.xregs.set(reg.register as usize, reg.value);
        }
        if reg.register == 0 {
            let (w, h): (u16, u16) = match reg.value {
                1 => (320, 240),
                2 => (320, 180),
                4 => (640, 360),
                _ => (640, 480),
            };
            self.canvas_width = w;
            self.canvas_height = h;
            self.planes = empty_planes();
            self.xregs = zeroed_xregs();
            Some(Backchannel::Ack)
        } else if reg.register == 1 {
            let reply = match self.program_plane(reg.value) {
                Some((idx, slot)) => {
                    self.planes.set(idx, Some(slot));
                    Backchannel::Ack
                },
                None => Backchannel::Nak,
            };
            self.xregs = zeroed_xregs();
            Some(reply)
        } else {
            None
        }
    }

    /// The slot a MODE command installs from the staged registers.
    fn program_plane(&self, mode: u16) -> (r: Option<(usize, PlaneSlot)>)
        requires
            self.wf(),
        ensures
            match programmed(self.xregs@, self.xram@, mode) {
                Some((idx, slot)) => r == Some((idx as usize, slot)) && idx < 3,
                None => r is None,
            },
    {
        let attr = self.xregs[2];
        let config_ptr = self.xregs[3];
        let plane_idx = self.xregs[4] as usize;
        let scanline_begin = self.xregs[5];
        let scanline_end = self.xregs[6];
        if plane_idx >= 3 || config_ptr % 2 != 0 {
            return None;
        }
        let xram = self.xram.as_slice();
        if mode == 1 {
            if config_ptr as usize + 16 > XRAM_SIZE {
                return None;
            }
            match Mode1Format::from_attr(attr) {
                Some(format) => {
                    let config = Mode1Config::from_xram(xram, config_ptr);
                    Some(
                        (
                            plane_idx,
                            PlaneSlot {
                                plane: Plane::Mode1(
                                    Mode1Plane { config, format, scanline_begin, scanline_end, config_ptr },
                                ),
                                config_ptr,
                            },
                        ),
                    )
                },
                None => None,
            }
        } else if mode == 2 {
            if config_ptr as usize + 16 > XRAM_SIZE {
                return None;
            }
            match Mode2Format::from_attr(attr) {
                Some(format) => {
                    let config = Mode2Config::from_xram(xram, config_ptr);
                    Some(
                        (
                            plane_idx,
                            PlaneSlot {
                                plane: Plane::Mode2(
                                    Mode2Plane { config, format, scanline_begin, scanline_end, config_ptr },
                                ),
                                config_ptr,
                            },
                        ),
                    )
                },
                None => None,
            }
        } else if mode == 3 {
            if config_ptr as usize + 14 > XRAM_SIZE {
                return None;
            }
            match ColorFormat::from_attr(attr) {
                Some(format) => {
                    let config = Mode3Config::from_xram(xram, config_ptr);
                    Some(
                        (
                            plane_idx,
                            PlaneSlot {
                                plane: Plane::Mode3(Mode3Plane { config, format, scanline_begin, scanline_end }),
                                config_ptr,
                            },
                        ),
                    )
                },
                None => None,
            }
        } else {
            None
        }
    }

    /// Render one slot's plane over the canvas, re-reading its configuration.
    fn render_slot(&self, slot: PlaneSlot, canvas: &mut Vec<u32>)
        requires
            self.wf(),
            old(canvas)@.len() == self.canvas_width as int * self.canvas_height as int,
        ensures
            final(canvas)@.len() == old(canvas)@.len(),
            forall|i: int|
                0 <= i < old(canvas)@.len() ==> final(canvas)@[i] == overlay(
                    slot_pixel(
                        slot,
                        self.xram@,
                        self.canvas_height,
                        i % self.canvas_width as int,
                        i / self.canvas_width as int,
                    ),
                    old(canvas)@[i],
                ),
    {
        let xram = self.xram.as_slice();
        let w = self.canvas_width;
        let h = self.canvas_height;
        match slot.plane {
            Plane::Mode1(p) => {
                let current = Mode1Plane { config: Mode1Config::from_xram(xram, slot.config_ptr), ..p };
                render_mode1(&current, xram, canvas, w, h);
            },
            Plane::Mode2(p) => {
                let current = Mode2Plane { config: Mode2Config::from_xram(xram, slot.config_ptr), ..p };
                render_mode2(&current, xram, canvas, w, h);
            },
            Plane::Mode3(p) => {
                let current = Mode3Plane { config: Mode3Config::from_xram(xram, slot.config_ptr), ..p };
                render_mode3(&current, xram, canvas, w, h);
            },
        }
    }

    /// Composite all planes over a cleared canvas and publish the upscaled
    /// display.
    fn render_frame(&mut self)
        requires
            old(self).wf(),
        ensures
            final(self).wf(),
            final(self).xram@ == old(self).xram@,
            final(self).planes@ == old(self).planes@,
            final(self).canvas_width == old(self).canvas_width,
            final(self).canvas_height == old(self).canvas_height,
            final(self).xregs@ == old(self).xregs@,
            final(self).frame_count == old(self).frame_count,
            final(self).display@ == upscaled(
                frame_canvas(old(self).planes@, old(self).xram@, old(self).canvas_width, old(self).canvas_height),
                old(self).canvas_width as int,
                old(self).canvas_height as int,
            ),
    {
        let w = self.canvas_width;
        let h = self.canvas_height;
        let n = w as usize * h as usize;
        let mut canvas = zeroed_u32(n);
        let mut k: usize = 0;
        while k < 3
            invariant
                self.wf(),
                w == self.canvas_width,
                h == self.canvas_height,
                n == w * h,
                k <= 3,
                canvas@.len() == n,
                forall|i: int|
                    0 <= i < n ==> canvas@[i] == composite(self.planes@, self.xram@, w, h, k as nat, i),
            decreases 3 - k,
        {
            match self.planes[k] {
                Some(slot) => {
                    self.render_slot(slot, &mut canvas);
                },
                None => {},
            }
            k += 1;
        }
        assert(canvas@ =~= frame_canvas(self.planes@, self.xram@, w, h));
        let mut display = zeroed_u8(DISPLAY_BYTES);
        upscale_canvas(canvas.as_slice(), w, h, &mut display);
        self.display = display;
    }
}

} // verus!
