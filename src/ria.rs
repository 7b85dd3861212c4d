use vstd::prelude::*;
use crate::bus::BusTransaction;
use crate::pix::{Backchannel, PixEvent, PixRegWrite, XramWrite};
use crate::xram::{le_u16, XRAM_SIZE};

verus! {

/// Usable bytes of the xstack; one more zero byte follows them.
pub const XSTACK_SIZE: usize = 0x200;

/// Default PHI2 clock in Hz.
pub const PHI2_FREQ: u64 = 8_000_000;

/// The RIA as a mathematical state: register file, XRAM, xstack and its
/// pointer, IRQ state, run flag, and every PIX event emitted so far.
pub struct RiaState {
    pub regs: Seq<u8>,
    pub xram: Seq<u8>,
    pub xstack: Seq<u8>,
    pub sp: int,
    pub irq_enabled: u8,
    pub irq_pin: bool,
    pub running: bool,
    pub pix: Seq<PixEvent>,
}

/// Sizes and the xstack invariant: `0 <= sp <= 512` and a zero sentinel at
/// the end.
pub open spec fn state_ok(s: RiaState) -> bool {
    &&& s.regs.len() == 32
    &&& s.xram.len() == 0x10000
    &&& s.xstack.len() == XSTACK_SIZE + 1
    &&& 0 <= s.sp <= XSTACK_SIZE
    &&& s.xstack[XSTACK_SIZE as int] == 0
}

/// ADDR0: registers 6 (low) and 7 (high).
pub open spec fn reg_addr0(regs: Seq<u8>) -> int {
    regs[6] as int + 256 * regs[7] as int
}

/// ADDR1: registers 10 (low) and 11 (high).
pub open spec fn reg_addr1(regs: Seq<u8>) -> int {
    regs[10] as int + 256 * regs[11] as int
}

/// A STEP byte as a signed value.
pub open spec fn step_value(b: u8) -> int {
    if b < 128 {
        b as int
    } else {
        b as int - 256
    }
}

/// An address moved by a signed step, modulo 2^16.
pub open spec fn advanced(addr: int, step: u8) -> int {
    (addr + step_value(step)) % 0x10000
}

pub open spec fn with_addr0(regs: Seq<u8>, a: int) -> Seq<u8> {
    regs.update(6, (a % 256) as u8).update(7, (a / 256) as u8)
}

pub open spec fn with_addr1(regs: Seq<u8>, a: int) -> Seq<u8> {
    regs.update(10, (a % 256) as u8).update(11, (a / 256) as u8)
}

/// RW0 and RW1 show the XRAM bytes at ADDR0 and ADDR1.
pub open spec fn refreshed(s: RiaState) -> RiaState {
    RiaState {
        regs: s.regs.update(4, s.xram[reg_addr0(s.regs)]).update(8, s.xram[reg_addr1(s.regs)]),
        ..s
    }
}

/// The API return thunk `NOP; BRA +0; LDA #lo; LDX #hi; RTS` in registers
/// 0x10..0x17, and the XSTACK register showing the top of the stack.
pub open spec fn api_return(regs: Seq<u8>, xstack: Seq<u8>, sp: int, val: u16) -> Seq<u8> {
    regs.update(16, 0xEA).update(17, 0x80).update(18, 0).update(19, 0xA9).update(
        20,
        (val % 256) as u8,
    ).update(21, 0xA2).update(22, (val / 256) as u8).update(23, 0x60).update(12, xstack[sp])
}

/// Payload bytes on the xstack above the three header bytes.
pub open spec fn xreg_payload(s: RiaState) -> int {
    XSTACK_SIZE - s.sp - 3
}

/// Whether the xstack holds a well-formed xreg call: an even payload of at
/// least one word, a device below 8 and a channel below 16.
pub open spec fn xreg_ok(s: RiaState) -> bool {
    &&& s.sp < XSTACK_SIZE - 3
    &&& xreg_payload(s) >= 2
    &&& xreg_payload(s) % 2 == 0
    &&& s.xstack[XSTACK_SIZE - 1] < 8
    &&& s.xstack[XSTACK_SIZE - 2] < 16
}

/// The register writes of a well-formed xreg call, highest register first:
/// the word at `sp + 2 * j` (little-endian) goes to register
/// `start + count - 1 - j` (mod 256).
pub open spec fn xreg_events(s: RiaState) -> Seq<PixEvent> {
    let count = xreg_payload(s) / 2;
    Seq::new(
        count as nat,
        |j: int|
            PixEvent::Reg(
                PixRegWrite {
                    channel: s.xstack[XSTACK_SIZE - 2],
                    register: ((s.xstack[XSTACK_SIZE - 3] + count - 1 - j) % 256) as u8,
                    value: le_u16(s.xstack, s.sp + 2 * j),
                },
            ),
    )
}

/// Effect of writing `op` to the OP register.
pub open spec fn op_effect(s: RiaState, op: u8) -> RiaState {
    if op == 0 {
        RiaState { sp: XSTACK_SIZE as int, regs: api_return(s.regs.update(12, 0), s.xstack, XSTACK_SIZE as int, 0), ..s }
    } else if op == 1 {
        if xreg_ok(s) {
            RiaState {
                pix: s.pix + xreg_events(s),
                sp: XSTACK_SIZE as int,
                regs: api_return(s.regs, s.xstack, XSTACK_SIZE as int, 0),
                ..s
            }
        } else {
            RiaState { regs: api_return(s.regs, s.xstack, s.sp, 0xFFFF), ..s }
        }
    } else if op == 0xFF {
        RiaState { running: false, ..s }
    } else {
        RiaState { regs: api_return(s.regs, s.xstack, s.sp, 0xFFFF), ..s }
    }
}

/// Effect of a 6502 write of `data` to register `g`.
pub open spec fn write_effect(s: RiaState, g: int, data: u8) -> RiaState {
    if g == 1 {
        RiaState { regs: s.regs.update(0, s.regs[0] | 0x80u8), ..s }
    } else if g == 4 {
        let a = reg_addr0(s.regs);
        RiaState {
            xram: s.xram.update(a, data),
            pix: s.pix.push(PixEvent::Xram(XramWrite { addr: a as u16, data })),
            regs: with_addr0(s.regs, advanced(a, s.regs[5])),
            ..s
        }
    } else if g == 8 {
        let a = reg_addr1(s.regs);
        RiaState {
            xram: s.xram.update(a, data),
            pix: s.pix.push(PixEvent::Xram(XramWrite { addr: a as u16, data })),
            regs: with_addr1(s.regs, advanced(a, s.regs[9])),
            ..s
        }
    } else if g == 12 {
        let sp = if s.sp > 0 { s.sp - 1 } else { s.sp };
        let xs = if s.sp > 0 { s.xstack.update(s.sp - 1, data) } else { s.xstack };
        RiaState { xstack: xs, sp, regs: s.regs.update(12, xs[sp]), ..s }
    } else if g == 15 {
        op_effect(RiaState { regs: s.regs.update(15, data), ..s }, data)
    } else if g == 16 {
        RiaState { irq_enabled: data, irq_pin: true, regs: s.regs.update(16, data), ..s }
    } else {
        RiaState { regs: s.regs.update(g, data), ..s }
    }
}

/// Effect of a 6502 read of register `g`, and the byte it returns.
pub open spec fn read_effect(s: RiaState, g: int) -> (RiaState, u8) {
    if g == 0 {
        let v = (s.regs[0] | 0x80u8) & 0xBFu8;
        (RiaState { regs: s.regs.update(0, v), ..s }, v)
    } else if g == 2 {
        (RiaState { regs: s.regs.update(0, s.regs[0] & 0xBFu8).update(2, 0), ..s }, 0)
    } else if g == 4 {
        (RiaState { regs: with_addr0(s.regs, advanced(reg_addr0(s.regs), s.regs[5])), ..s }, s.regs[4])
    } else if g == 8 {
        (RiaState { regs: with_addr1(s.regs, advanced(reg_addr1(s.regs), s.regs[9])), ..s }, s.regs[8])
    } else if g == 12 {
        let sp = if s.sp < XSTACK_SIZE { s.sp + 1 } else { s.sp };
        (RiaState { sp, regs: s.regs.update(12, s.xstack[sp]), ..s }, s.regs[12])
    } else if g == 16 {
        (RiaState { irq_pin: true, ..s }, s.regs[16])
    } else {
        (s, s.regs[g])
    }
}

/// One bus transaction: RW0/RW1 are refreshed, then an access inside the
/// register window is dispatched; any other access passes its data through.
pub open spec fn bus_access(s: RiaState, txn: BusTransaction) -> (RiaState, u8) {
    let s1 = refreshed(s);
    if !txn.spec_hits_ria() {
        (s1, txn.data)
    } else if txn.rw {
        read_effect(s1, txn.spec_ria_reg() as int)
    } else {
        (write_effect(s1, txn.spec_ria_reg() as int, txn.data), txn.data)
    }
}

/// Effect of one backchannel message.
pub open spec fn receive_effect(s: RiaState, msg: Backchannel) -> RiaState {
    match msg {
        Backchannel::Vsync(frame) => RiaState {
            regs: s.regs.update(3, frame),
            irq_pin: if s.irq_enabled & 1u8 != 0 { false } else { s.irq_pin },
            ..s
        },
        _ => s,
    }
}

/// Effect of a batch of backchannel messages, in order.
pub open spec fn receive_all(s: RiaState, msgs: Seq<Backchannel>) -> RiaState
    decreases msgs.len(),
{
    if msgs.len() == 0 {
        s
    } else {
        receive_effect(receive_all(s, msgs.drop_last()), msgs.last())
    }
}

/// RIA state machine. PIX events are appended to `pix_out`; the owner drains
/// them and feeds backchannel messages back through `poll_backchannel`.
pub struct Ria {
    /// Register file: $FFE0-$FFFF mapped to indices 0-31.
    pub regs: Vec<u8>,
    /// 64KB extended RAM.
    pub xram: Vec<u8>,
    /// 512-byte stack and one zero byte.
    pub xstack: Vec<u8>,
    /// Stack pointer: 512 when empty, decremented on push.
    pub xstack_ptr: usize,
    /// IRQ enable register (bit 0 enables the VSYNC IRQ).
    pub irq_enabled: u8,
    /// IRQ pin: true = high (inactive), false = low (asserted).
    pub irq_pin: bool,
    /// Cycle of the latest transaction.
    pub cycle_count: u64,
    /// PHI2 frequency in Hz.
    pub phi2_freq: u64,
    /// Cycles per frame (phi2_freq / 60).
    pub cycles_per_frame: u64,
    /// Cycle of the next frame boundary.
    pub next_frame_cycle: u64,
    /// Whether the emulator is running.
    pub running: bool,
    /// PIX events emitted and not yet taken by the owner.
    pub pix_out: Vec<PixEvent>,
}

impl View for Ria {
    type V = RiaState;

    open spec fn view(&self) -> RiaState {
        RiaState {
            regs: self.regs@,
            xram: self.xram@,
            xstack: self.xstack@,
            sp: self.xstack_ptr as int,
            irq_enabled: self.irq_enabled,
            irq_pin: self.irq_pin,
            running: self.running,
            pix: self.pix_out@,
        }
    }
}

impl Ria {
    pub open spec fn wf(&self) -> bool {
        state_ok(self@) && self.cycles_per_frame > 0
    }

    /// Cycle bookkeeping unchanged between `a` and `b`.
    pub open spec fn same_timing(a: Ria, b: Ria) -> bool {
        &&& a.cycle_count == b.cycle_count
        &&& a.phi2_freq == b.phi2_freq
        &&& a.cycles_per_frame == b.cycles_per_frame
        &&& a.next_frame_cycle == b.next_frame_cycle
    }

    /// The reset state of `s`: registers 0..15 cleared except VSYNC (3),
    /// STEP0 = STEP1 = 1, RW0 = RW1 = xram[0], empty xstack, IRQ disabled
    /// and inactive, running.
    pub open spec fn reset_state(s: RiaState) -> RiaState {
        RiaState {
            regs: Seq::new(
                32,
                |i: int|
                    if i == 5 || i == 9 {
                        1u8
                    } else if i == 4 || i == 8 {
                        s.xram[0]
                    } else if i < 16 && i != 3 {
                        0u8
                    } else {
                        s.regs[i]
                    },
            ),
            sp: XSTACK_SIZE as int,
            irq_enabled: 0,
            irq_pin: true,
            running: true,
            ..s
        }
    }
}

fn zeroed(n: usize) -> (v: Vec<u8>)
    ensures
        v@ == Seq::new(n as nat, |i: int| 0u8),
{
    let mut v: Vec<u8> = Vec::new();
    let mut i: usize = 0;
    while i < n
        invariant
            i <= n,
            v@.len() == i,
            forall|j: int| 0 <= j < i ==> v@[j] == 0,
        decreases n - i,
    {
        v.push(0);
        i += 1;
    }
    assert(v@ =~= Seq::new(n as nat, |i: int| 0u8));
    v
}

impl Ria {
    /// A RIA at power-on: zeroed memory, reset registers, 8 MHz clock, and the
    /// first frame boundary one frame in.
    pub fn new() -> (r: Self)
        ensures
            r.wf(),
            r@ == Ria::reset_state(
                RiaState {
                    regs: Seq::new(32, |i: int| 0u8),
                    xram: Seq::new(0x10000, |i: int| 0u8),
                    xstack: Seq::new(XSTACK_SIZE as nat + 1, |i: int| 0u8),
                    sp: XSTACK_SIZE as int,
                    irq_enabled: 0,
                    irq_pin: true,
                    running: true,
                    pix: Seq::empty(),
                },
            ),
            r.cycle_count == 0,
            r.phi2_freq == PHI2_FREQ,
            r.cycles_per_frame == PHI2_FREQ / 60,
            r.next_frame_cycle == PHI2_FREQ / 60,
    {
        let cycles_per_frame = PHI2_FREQ / 60;
        let mut ria = Ria {
            regs: zeroed(32),
            xram: zeroed(XRAM_SIZE),
            xstack: zeroed(XSTACK_SIZE + 1),
            xstack_ptr: XSTACK_SIZE,
            irq_enabled: 0,
            irq_pin: true,
            cycle_count: 0,
            phi2_freq: PHI2_FREQ,
            cycles_per_frame,
            next_frame_cycle: cycles_per_frame,
            running: true,
            pix_out: Vec::new(),
        };
        ria.reset();
        ria
    }

    /// Reset registers to power-on defaults; VSYNC (register 3) is kept.
    pub fn reset(&mut self)
        requires
            old(self).wf(),
        ensures
            final(self).wf(),
            final(self)@ == Ria::reset_state(old(self)@),
            Ria::same_timing(*old(self), *final(self)),
    {
        let mut i: usize = 0;
        while i < 16
            invariant
                self.wf(),
                Ria::same_timing(*old(self), *self),
                self.xram@ == old(self).xram@,
                self.xstack@ == old(self).xstack@,
                self.xstack_ptr == old(self).xstack_ptr,
                self.irq_enabled == old(self).irq_enabled,
                self.irq_pin == old(self).irq_pin,
                self.running == old(self).running,
                self.pix_out@ == old(self).pix_out@,
                i <= 16,
                forall|j: int| 0 <= j < 32 && !(j < i && j != 3) ==> self.regs@[j] == old(self).regs@[j],
                forall|j: int| 0 <= j < i && j != 3 ==> self.regs@[j] == 0,
            decreases 16 - i,
        {
            if i != 3 {
                self.regs.set(i, 0);
            }
            i += 1;
        }
        let first = self.xram[0];
        self.regs.set(0x05, 1);
        self.regs.set(0x04, first);
        self.regs.set(0x09, 1);
        self.regs.set(0x08, first);
        self.xstack_ptr = XSTACK_SIZE;
        self.irq_enabled = 0;
        self.irq_pin = true;
        self.running = true;
        assert(self.regs@ =~= Ria::reset_state(old(self)@).regs);
    }
}

impl Ria {
    pub fn addr0(&self) -> (a: u16)
        requires
            self.wf(),
        ensures
            a == reg_addr0(self.regs@),
    {
        self.regs[0x06] as u16 + (self.regs[0x07] as u16) * 256
    }

    pub fn addr1(&self) -> (a: u16)
        requires
            self.wf(),
        ensures
            a == reg_addr1(self.regs@),
    {
        self.regs[0x0A] as u16 + (self.regs[0x0B] as u16) * 256
    }

    fn set_addr0(&mut self, val: u16)
        requires
            old(self).wf(),
        ensures
            final(self).wf(),
            final(self)@ == (RiaState { regs: with_addr0(old(self)@.regs, val as int), ..old(self)@ }),
            Ria::same_timing(*old(self), *final(self)),
    {
        self.regs.set(0x06, (val % 256) as u8);
        self.regs.set(0x07, (val / 256) as u8);
    }

    fn set_addr1(&mut self, val: u16)
        requires
            old(self).wf(),
        ensures
            final(self).wf(),
            final(self)@ == (RiaState { regs: with_addr1(old(self)@.regs, val as int), ..old(self)@ }),
            Ria::same_timing(*old(self), *final(self)),
    {
        self.regs.set(0x0A, (val % 256) as u8);
        self.regs.set(0x0B, (val / 256) as u8);
    }

    /// Refresh RW0 and RW1 from XRAM.
    fn refresh_rw(&mut self)
        requires
            old(self).wf(),
        ensures
            final(self).wf(),
            final(self)@ == refreshed(old(self)@),
            Ria::same_timing(*old(self), *final(self)),
    {
        let a0 = self.addr0();
        let b0 = self.xram[a0 as usize];
        self.regs.set(0x04, b0);
        let a1 = self.addr1();
        let b1 = self.xram[a1 as usize];
        self.regs.set(0x08, b1);
    }

    /// Write the API return thunk with return value `val`.
    fn api_return_ax(&mut self, val: u16)
        requires
            old(self).wf(),
        ensures
            final(self).wf(),
            final(self)@ == (RiaState {
                regs: api_return(old(self)@.regs, old(self)@.xstack, old(self)@.sp, val),
                ..old(self)@
            }),
            Ria::same_timing(*old(self), *final(self)),
    {
        self.regs.set(0x10, 0xEA);
        self.regs.set(0x11, 0x80);
        self.regs.set(0x12, 0x00);
        self.regs.set(0x13, 0xA9);
        self.regs.set(0x14, (val % 256) as u8);
        self.regs.set(0x15, 0xA2);
        self.regs.set(0x16, (val / 256) as u8);
        self.regs.set(0x17, 0x60);
        let top = self.xstack[self.xstack_ptr];
        self.regs.set(0x0C, top);
    }
}

/// The address after one portal access with step byte `step`.
fn step_address(addr: u16, step: u8) -> (r: u16)
    ensures
        r == advanced(addr as int, step),
{
    if step < 128 {
        ((addr as u32 + step as u32) % 0x10000) as u16
    } else {
        proof {
            vstd::arithmetic::div_mod::lemma_mod_add_multiples_vanish(
                addr as int + step as int - 256,
                0x10000,
            );
        }
        ((addr as u32 + 0x10000 + step as u32 - 256) % 0x10000) as u16
    }
}

impl Ria {
    /// Send the register writes that the xstack holds (OP 0x01).
    fn handle_xreg(&mut self)
        requires
            old(self).wf(),
        ensures
            final(self).wf(),
            final(self)@ == op_effect(old(self)@, 1),
            Ria::same_timing(*old(self), *final(self)),
    {
        if self.xstack_ptr >= XSTACK_SIZE - 3 {
            self.api_return_ax(0xFFFF);
            return;
        }
        let device = self.xstack[XSTACK_SIZE - 1];
        let channel = self.xstack[XSTACK_SIZE - 2];
        let start_addr = self.xstack[XSTACK_SIZE - 3];
        let data_bytes = XSTACK_SIZE - self.xstack_ptr - 3;
        if data_bytes < 2 || data_bytes % 2 != 0 || device > 7 || channel > 15 {
            self.api_return_ax(0xFFFF);
            return;
        }
        let count = data_bytes / 2;
        let ghost s0 = self@;
        let mut j: usize = 0;
        while j < count
            invariant
                self.wf(),
                Ria::same_timing(*old(self), *self),
                s0 == old(self)@,
                xreg_ok(s0),
                count == xreg_payload(s0) / 2,
                channel == s0.xstack[XSTACK_SIZE - 2],
                start_addr == s0.xstack[XSTACK_SIZE - 3],
                self@ == (RiaState { pix: s0.pix + xreg_events(s0).take(j as int), ..s0 }),
                j <= count,
            decreases count - j,
        {
            let offset = self.xstack_ptr + 2 * j;
            let value = self.xstack[offset] as u16 + (self.xstack[offset + 1] as u16) * 256;
            let register = ((start_addr as usize + count - 1 - j) % 256) as u8;
            self.pix_out.push(PixEvent::Reg(PixRegWrite { channel, register, value }));
            proof {
                assert(xreg_events(s0).take(j + 1) =~= xreg_events(s0).take(j as int).push(
                    xreg_events(s0)[j as int],
                ));
                assert(self.pix_out@ =~= s0.pix + xreg_events(s0).take(j + 1));
            }
            j += 1;
        }
        assert(xreg_events(s0).take(count as int) =~= xreg_events(s0));
        self.xstack_ptr = XSTACK_SIZE;
        self.api_return_ax(0);
    }

    /// Execute an OS operation written to OP.
    fn handle_op(&mut self, op: u8)
        requires
            old(self).wf(),
        ensures
            final(self).wf(),
            final(self)@ == op_effect(old(self)@, op),
            Ria::same_timing(*old(self), *final(self)),
    {
        if op == 0x00 {
            self.regs.set(0x0C, 0);
            self.xstack_ptr = XSTACK_SIZE;
            self.api_return_ax(0);
        } else if op == 0x01 {
            self.handle_xreg();
        } else if op == 0xFF {
            self.running = false;
        } else {
            self.api_return_ax(0xFFFF);
        }
    }

    /// A 6502 write of `data` to register `reg`.
    fn handle_write(&mut self, reg: u8, data: u8)
        requires
            old(self).wf(),
            reg < 32,
        ensures
            final(self).wf(),
            final(self)@ == write_effect(old(self)@, reg as int, data),
            Ria::same_timing(*old(self), *final(self)),
    {
        if reg == 0x01 {
            let status = self.regs[0x00] | 0x80;
            self.regs.set(0x00, status);
        } else if reg == 0x04 {
            let addr = self.addr0();
            self.xram.set(addr as usize, data);
            self.pix_out.push(PixEvent::Xram(XramWrite { addr, data }));
            let next = step_address(addr, self.regs[0x05]);
            self.set_addr0(next);
        } else if reg == 0x08 {
            let addr = self.addr1();
            self.xram.set(addr as usize, data);
            self.pix_out.push(PixEvent::Xram(XramWrite { addr, data }));
            let next = step_address(addr, self.regs[0x09]);
            self.set_addr1(next);
        } else if reg == 0x0C {
            if self.xstack_ptr > 0 {
                self.xstack_ptr -= 1;
                self.xstack.set(self.xstack_ptr, data);
            }
            let top = self.xstack[self.xstack_ptr];
            self.regs.set(0x0C, top);
        } else if reg == 0x0F {
            self.regs.set(0x0F, data);
            self.handle_op(data);
        } else if reg == 0x10 {
            self.irq_enabled = data;
            self.irq_pin = true;
            self.regs.set(0x10, data);
        } else {
            self.regs.set(reg as usize, data);
        }
    }

    /// A 6502 read of register `reg`; returns the byte placed on the bus.
    fn handle_read(&mut self, reg: u8) -> (r: u8)
        requires
            old(self).wf(),
            reg < 32,
        ensures
            final(self).wf(),
            (final(self)@, r) == read_effect(old(self)@, reg as int),
            Ria::same_timing(*old(self), *final(self)),
    {
        if reg == 0x00 {
            let status = (self.regs[0x00] | 0x80) & 0xBF;
            self.regs.set(0x00, status);
            status
        } else if reg == 0x02 {
            let status = self.regs[0x00] & 0xBF;
            self.regs.set(0x00, status);
            self.regs.set(0x02, 0);
            0
        } else if reg == 0x04 {
            let val = self.regs[0x04];
            let addr = self.addr0();
            let next = step_address(addr, self.regs[0x05]);
            self.set_addr0(next);
            val
        } else if reg == 0x08 {
            let val = self.regs[0x08];
            let addr = self.addr1();
            let next = step_address(addr, self.regs[0x09]);
            self.set_addr1(next);
            val
        } else if reg == 0x0C {
            let val = self.regs[0x0C];
            if self.xstack_ptr < XSTACK_SIZE {
                self.xstack_ptr += 1;
            }
            let top = self.xstack[self.xstack_ptr];
            self.regs.set(0x0C, top);
            val
        } else if reg == 0x10 {
            self.irq_pin = true;
            self.regs[0x10]
        } else {
            self.regs[reg as usize]
        }
    }

    /// Apply one bus transaction after its frame bookkeeping: refresh RW0 and
    /// RW1, then dispatch a register access. Returns the data byte on the bus.
    pub fn apply(&mut self, txn: &BusTransaction) -> (r: u8)
        requires
            old(self).wf(),
        ensures
            final(self).wf(),
            (final(self)@, r) == bus_access(old(self)@, *txn),
            Ria::same_timing(*old(self), *final(self)),
    {
        self.refresh_rw();
        if !txn.hits_ria() {
            return txn.data;
        }
        if txn.rw {
            self.handle_read(txn.ria_reg())
        } else {
            self.handle_write(txn.ria_reg(), txn.data);
            txn.data
        }
    }

    /// Record the cycle of a transaction. When it reaches the next frame
    /// boundary, the boundary moves on by one frame, a `FrameSync` is
    /// emitted, and true is returned: the owner then drains the backchannel.
    pub fn advance_cycle(&mut self, cycle: u64) -> (crossed: bool)
        requires
            old(self).wf(),
        ensures
            final(self).wf(),
            final(self).cycle_count == cycle,
            final(self).phi2_freq == old(self).phi2_freq,
            final(self).cycles_per_frame == old(self).cycles_per_frame,
            crossed == (cycle >= old(self).next_frame_cycle),
            crossed ==> final(self).next_frame_cycle == if old(self).next_frame_cycle as int
                + old(self).cycles_per_frame <= u64::MAX {
                (old(self).next_frame_cycle + old(self).cycles_per_frame) as u64
            } else {
                u64::MAX
            },
            crossed ==> final(self)@ == (RiaState { pix: old(self)@.pix.push(PixEvent::FrameSync), ..old(self)@ }),
            !crossed ==> final(self)@ == old(self)@ && final(self).next_frame_cycle == old(self).next_frame_cycle,
    {
        self.cycle_count = cycle;
        if cycle >= self.next_frame_cycle {
            self.next_frame_cycle = if self.next_frame_cycle <= u64::MAX - self.cycles_per_frame {
                self.next_frame_cycle + self.cycles_per_frame
            } else {
                u64::MAX
            };
            self.pix_out.push(PixEvent::FrameSync);
            true
        } else {
            false
        }
    }

    /// Process one bus transaction where no backchannel is attached: frame
    /// bookkeeping, then the access itself.
    pub fn process(&mut self, txn: &BusTransaction) -> (r: u8)
        requires
            old(self).wf(),
        ensures
            final(self).wf(),
            final(self).cycle_count == txn.cycle,
            txn.cycle >= old(self).next_frame_cycle ==> (final(self)@, r) == bus_access(
                RiaState { pix: old(self)@.pix.push(PixEvent::FrameSync), ..old(self)@ },
                *txn,
            ),
            txn.cycle < old(self).next_frame_cycle ==> (final(self)@, r) == bus_access(old(self)@, *txn),
    {
        self.advance_cycle(txn.cycle);
        self.apply(txn)
    }

    /// Handle one backchannel message: a VSYNC stores its frame byte in the
    /// VSYNC register and asserts the IRQ line when the VSYNC IRQ is enabled.
    pub fn receive_backchannel(&mut self, msg: Backchannel)
        requires
            old(self).wf(),
        ensures
            final(self).wf(),
            final(self)@ == receive_effect(old(self)@, msg),
            Ria::same_timing(*old(self), *final(self)),
    {
        match msg {
            Backchannel::Vsync(frame) => {
                self.regs.set(0x03, frame);
                if self.irq_enabled & 0x01 != 0 {
                    self.irq_pin = false;
                }
            },
            Backchannel::Ack | Backchannel::Nak => {},
        }
    }

    /// Handle the messages drained from the backchannel, in order; a closed
    /// backchannel stops the RIA.
    pub fn poll_backchannel(&mut self, messages: &[Backchannel], disconnected: bool)
        requires
            old(self).wf(),
        ensures
            final(self).wf(),
            final(self)@ == (RiaState {
                running: if disconnected { false } else { receive_all(old(self)@, messages@).running },
                ..receive_all(old(self)@, messages@)
            }),
            Ria::same_timing(*old(self), *final(self)),
    {
        let mut i: usize = 0;
        while i < messages.len()
            invariant
                self.wf(),
                Ria::same_timing(*old(self), *self),
                i <= messages@.len(),
                self@ == receive_all(old(self)@, messages@.take(i as int)),
            decreases messages@.len() - i,
        {
            proof {
                assert(messages@.take(i + 1).drop_last() =~= messages@.take(i as int));
            }
            self.receive_backchannel(messages[i]);
            i += 1;
        }
        assert(messages@.take(messages@.len() as int) =~= messages@);
        if disconnected {
            self.running = false;
        }
    }

    /// Hand over the PIX events emitted so far, in order.
    pub fn take_pix_events(&mut self) -> (events: Vec<PixEvent>)
        requires
            old(self).wf(),
        ensures
            final(self).wf(),
            events@ == old(self)@.pix,
            final(self)@ == (RiaState { pix: Seq::empty(), ..old(self)@ }),
            Ria::same_timing(*old(self), *final(self)),
    {
        let mut events: Vec<PixEvent> = Vec::new();
        std::mem::swap(&mut events, &mut self.pix_out);
        events
    }
}


/// The state after a sequence of bus transactions (frame bookkeeping aside).
pub open spec fn run_bus(s: RiaState, trace: Seq<BusTransaction>) -> RiaState
    decreases trace.len(),
{
    if trace.len() == 0 {
        s
    } else {
        bus_access(run_bus(s, trace.drop_last()), trace.last()).0
    }
}

/// The XRAM writes among a sequence of PIX events, in order.
pub open spec fn xram_writes(events: Seq<PixEvent>) -> Seq<XramWrite>
    decreases events.len(),
{
    if events.len() == 0 {
        Seq::empty()
    } else {
        xram_writes(events.drop_last()) + match events.last() {
            PixEvent::Xram(w) => seq![w],
            _ => Seq::empty(),
        }
    }
}

/// Whether a transaction is a 6502 write to RW0 or RW1.
pub open spec fn portal_write(t: BusTransaction) -> bool {
    !t.rw && t.spec_hits_ria() && (t.spec_ria_reg() == 4 || t.spec_ria_reg() == 8)
}

/// The writes a trace makes through the two portals, each with the address
/// its portal held just before the write.
pub open spec fn portal_writes(s: RiaState, trace: Seq<BusTransaction>) -> Seq<XramWrite>
    decreases trace.len(),
{
    if trace.len() == 0 {
        Seq::empty()
    } else {
        let before = run_bus(s, trace.drop_last());
        let t = trace.last();
        portal_writes(s, trace.drop_last()) + if portal_write(t) {
            seq![
                XramWrite {
                    addr: (if t.spec_ria_reg() == 4 {
                        reg_addr0(before.regs)
                    } else {
                        reg_addr1(before.regs)
                    }) as u16,
                    data: t.data,
                },
            ]
        } else {
            Seq::empty()
        }
    }
}

proof fn lemma_xram_writes_append(a: Seq<PixEvent>, b: Seq<PixEvent>)
    ensures
        xram_writes(a + b) == xram_writes(a) + xram_writes(b),
    decreases b.len(),
{
    if b.len() == 0 {
        assert(a + b =~= a);
        assert(xram_writes(a) + xram_writes(b) =~= xram_writes(a));
    } else {
        assert((a + b).drop_last() =~= a + b.drop_last());
        lemma_xram_writes_append(a, b.drop_last());
        assert(xram_writes(a) + xram_writes(b.drop_last()) + match b.last() {
            PixEvent::Xram(w) => seq![w],
            _ => Seq::<XramWrite>::empty(),
        } =~= xram_writes(a) + (xram_writes(b.drop_last()) + match b.last() {
            PixEvent::Xram(w) => seq![w],
            _ => Seq::<XramWrite>::empty(),
        }));
    }
}

proof fn lemma_xreg_events_not_xram(s: RiaState, n: int)
    requires
        0 <= n <= xreg_events(s).len(),
    ensures
        xram_writes(xreg_events(s).take(n)) == Seq::<XramWrite>::empty(),
    decreases n,
{
    if n > 0 {
        assert(xreg_events(s).take(n).drop_last() =~= xreg_events(s).take(n - 1));
        lemma_xreg_events_not_xram(s, n - 1);
    }
}

proof fn lemma_step_xram_writes(st: RiaState, t: BusTransaction)
    requires
        state_ok(st),
    ensures
        state_ok(bus_access(st, t).0),
        xram_writes(bus_access(st, t).0.pix) == xram_writes(st.pix) + if portal_write(t) {
            seq![
                XramWrite {
                    addr: (if t.spec_ria_reg() == 4 {
                        reg_addr0(st.regs)
                    } else {
                        reg_addr1(st.regs)
                    }) as u16,
                    data: t.data,
                },
            ]
        } else {
            Seq::empty()
        },
{
    let s1 = refreshed(st);
    let g = t.spec_ria_reg() as int;
    let next = bus_access(st, t).0;
    if portal_write(t) {
        assert(next.pix.drop_last() =~= st.pix);
    } else if t.spec_hits_ria() && !t.rw && g == 15 && t.data == 1 && xreg_ok(RiaState { regs: s1.regs.update(15, t.data), ..s1 }) {
        let s2 = RiaState { regs: s1.regs.update(15, t.data), ..s1 };
        lemma_xram_writes_append(st.pix, xreg_events(s2));
        lemma_xreg_events_not_xram(s2, xreg_events(s2).len() as int);
        assert(xreg_events(s2).take(xreg_events(s2).len() as int) =~= xreg_events(s2));
        assert(xram_writes(st.pix) + Seq::<XramWrite>::empty() =~= xram_writes(st.pix));
    } else {
        assert(next.pix == st.pix);
        assert(xram_writes(st.pix) + Seq::<XramWrite>::empty() =~= xram_writes(st.pix));
    }
}

/// Every PIX `Xram` event comes from a portal write, in trace order, with
/// the portal's address from just before the write (pre-increment): over any
/// trace, the XRAM writes among the emitted events are exactly the trace's
/// RW0/RW1 writes.
pub proof fn lemma_xram_events_follow_portal_writes(s: RiaState, trace: Seq<BusTransaction>)
    requires
        state_ok(s),
    ensures
        state_ok(run_bus(s, trace)),
        xram_writes(run_bus(s, trace).pix) == xram_writes(s.pix) + portal_writes(s, trace),
    decreases trace.len(),
{
    if trace.len() == 0 {
        assert(xram_writes(s.pix) + Seq::<XramWrite>::empty() =~= xram_writes(s.pix));
    } else {
        let p = trace.drop_last();
        lemma_xram_events_follow_portal_writes(s, p);
        lemma_step_xram_writes(run_bus(s, p), trace.last());
        let tail = if portal_write(trace.last()) {
            seq![
                XramWrite {
                    addr: (if trace.last().spec_ria_reg() == 4 {
                        reg_addr0(run_bus(s, p).regs)
                    } else {
                        reg_addr1(run_bus(s, p).regs)
                    }) as u16,
                    data: trace.last().data,
                },
            ]
        } else {
            Seq::empty()
        };
        assert(xram_writes(s.pix) + portal_writes(s, p) + tail =~= xram_writes(s.pix) + (
        portal_writes(s, p) + tail));
    }
}

/// Whether a transaction writes `data` to RW0 ($FFE4).
pub open spec fn rw0_write(t: BusTransaction) -> bool {
    !t.rw && t.addr == 0xFFE4
}

/// The address of the `i`-th portal-0 write when ADDR0 starts at `a` and the
/// signed step is `step`.
pub open spec fn portal_address(a: int, step: int, i: int) -> int {
    (a + i * step) % 0x10000
}

/// Writes through RW0: after `N` writes of `v_0 .. v_{N-1}` starting from
/// ADDR0 = `A` with signed step `s`, XRAM holds `v_i` at `(A + i * s) mod 2^16`
/// (for write addresses that are pairwise distinct), every other XRAM byte is
/// unchanged, and ADDR0 ends at `(A + N * s) mod 2^16`.
pub proof fn lemma_portal0_writes(s: RiaState, trace: Seq<BusTransaction>)
    requires
        state_ok(s),
        forall|i: int| 0 <= i < trace.len() ==> rw0_write(#[trigger] trace[i]),
        forall|i: int, j: int|
            0 <= i < j < trace.len() ==> portal_address(reg_addr0(s.regs), step_value(s.regs[5]), i)
                != portal_address(reg_addr0(s.regs), step_value(s.regs[5]), j),
    ensures
        ({
            let a = reg_addr0(s.regs);
            let step = step_value(s.regs[5]);
            let e = run_bus(s, trace);
            &&& state_ok(e)
            &&& e.regs[5] == s.regs[5]
            &&& reg_addr0(e.regs) == portal_address(a, step, trace.len() as int)
            &&& forall|i: int| 0 <= i < trace.len() ==> e.xram[portal_address(a, step, i)] == #[trigger] trace[i].data
            &&& forall|b: int|
                0 <= b < 0x10000 && (forall|i: int| 0 <= i < trace.len() ==> b != portal_address(a, step, i))
                    ==> e.xram[b] == s.xram[b]
        }),
    decreases trace.len(),
{
    let a = reg_addr0(s.regs);
    let step = step_value(s.regs[5]);
    if trace.len() == 0 {
        vstd::arithmetic::div_mod::lemma_small_mod(a as nat, 0x10000);
    } else {
        let n = trace.len() - 1;
        let p = trace.drop_last();
        assert forall|i: int| 0 <= i < p.len() implies rw0_write(#[trigger] p[i]) by {
            assert(p[i] == trace[i]);
        }
        lemma_portal0_writes(s, p);
        let mid = run_bus(s, p);
        let t = trace.last();
        assert(rw0_write(trace[n]));
        let s1 = refreshed(mid);
        assert(reg_addr0(s1.regs) == reg_addr0(mid.regs));
        let cur = reg_addr0(mid.regs);
        assert(cur == portal_address(a, step, n));
        let nxt = advanced(cur, mid.regs[5]);
        assert(mid.regs[5] == s.regs[5]);
        vstd::arithmetic::div_mod::lemma_add_mod_noop_right(step, a + n * step, 0x10000);
        assert(a + n * step + step == a + (n + 1) * step) by (nonlinear_arith);
        assert(nxt == portal_address(a, step, n + 1));
        let e = run_bus(s, trace);
        assert(e == write_effect(s1, 4, t.data));
        assert(e.xram == mid.xram.update(cur, t.data));
        assert(reg_addr0(e.regs) == nxt);
        assert forall|i: int| 0 <= i < trace.len() implies e.xram[portal_address(a, step, i)]
            == #[trigger] trace[i].data by {
            if i < n {
                assert(p[i] == trace[i]);
            }
        }
    }
}

/// A trace that ends with the exit OP (0xFF written to $FFEF) leaves the RIA
/// stopped, whatever came before.
pub proof fn lemma_exit_stops(s: RiaState, trace: Seq<BusTransaction>)
    requires
        trace.len() > 0,
        !trace.last().rw,
        trace.last().addr == 0xFFEF,
        trace.last().data == 0xFF,
    ensures
        !run_bus(s, trace).running,
{
}

} // verus!
