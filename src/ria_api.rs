//! Building bus traces the way a 6502 program drives the RIA.

pub mod vga_mode1_config_t;
pub mod vga_mode2_config_t;
pub mod vga_mode3_config_t;

use vstd::prelude::*;
use crate::bus::BusTransaction;

verus! {

/// A bus write at `cycle`.
pub open spec fn bus_write(cycle: int, addr: u16, data: u8) -> BusTransaction {
    BusTransaction { cycle: cycle as u64, addr, data, rw: false }
}

/// Writes of `(address, byte)` pairs on consecutive cycles from `cycle`.
pub open spec fn writes_from(cycle: int, items: Seq<(u16, u8)>) -> Seq<BusTransaction> {
    Seq::new(items.len(), |i: int| bus_write(cycle + i, items[i].0, items[i].1))
}

/// The two writes that set a 16-bit portal address: low byte to `reg`,
/// high byte to `reg + 1`.
pub open spec fn address_items(reg: u16, a: u16) -> Seq<(u16, u8)> {
    seq![(reg, (a % 256) as u8), ((reg + 1) as u16, (a / 256) as u8)]
}

/// Each byte written to the same address.
pub open spec fn byte_items(addr: u16, data: Seq<u8>) -> Seq<(u16, u8)> {
    Seq::new(data.len(), |i: int| (addr, data[i]))
}

/// The xstack pushes of 16-bit values: high byte first, then low byte.
pub open spec fn value_items(values: Seq<u16>) -> Seq<(u16, u8)> {
    Seq::new(
        2 * values.len(),
        |i: int|
            (
                0xFFECu16,
                if i % 2 == 0 {
                    (values[i / 2] / 256) as u8
                } else {
                    (values[i / 2] % 256) as u8
                },
            ),
    )
}

/// The writes of an xreg call: device, channel and start register pushed on
/// the xstack, then each value, then OP 0x01.
pub open spec fn xreg_items(device: u8, channel: u8, addr: u8, values: Seq<u16>) -> Seq<(u16, u8)> {
    seq![(0xFFECu16, device), (0xFFECu16, channel), (0xFFECu16, addr)] + value_items(values) + seq![
        (0xFFEFu16, 1u8),
    ]
}

pub proof fn lemma_writes_concat(cycle: int, a: Seq<(u16, u8)>, b: Seq<(u16, u8)>)
    ensures
        writes_from(cycle, a) + writes_from(cycle + a.len(), b) == writes_from(cycle, a + b),
{
    assert(writes_from(cycle, a) + writes_from(cycle + a.len(), b) =~= writes_from(cycle, a + b));
}

/// Cycles never decrease along a trace.
pub open spec fn nondecreasing_cycles(trace: Seq<BusTransaction>) -> bool {
    forall|i: int, j: int| 0 <= i <= j < trace.len() ==> trace[i].cycle <= trace[j].cycle
}

/// A bus trace under construction, and the cycle of its next transaction.
pub struct TraceBuilder {
    pub trace: Vec<BusTransaction>,
    pub cycle: u64,
}

impl TraceBuilder {
    /// The trace's cycles never decrease, and none is after the next cycle.
    pub open spec fn wf(&self) -> bool {
        &&& nondecreasing_cycles(self.trace@)
        &&& forall|i: int| 0 <= i < self.trace@.len() ==> self.trace@[i].cycle <= self.cycle
    }

    pub fn new() -> (tb: Self)
        ensures
            tb.trace@ == Seq::<BusTransaction>::empty(),
            tb.cycle == 0,
            tb.wf(),
    {
        Self { trace: Vec::new(), cycle: 0 }
    }

    /// Single bus write, then the next cycle.
    pub fn write(&mut self, addr: u16, data: u8)
        requires
            old(self).cycle < u64::MAX,
        ensures
            final(self).trace@ == old(self).trace@ + writes_from(old(self).cycle as int, seq![(addr, data)]),
            final(self).cycle == old(self).cycle + 1,
            old(self).wf() ==> final(self).wf(),
    {
        self.trace.push(BusTransaction::write(self.cycle, addr, data));
        self.cycle += 1;
        assert(final(self).trace@ =~= old(self).trace@ + writes_from(old(self).cycle as int, seq![(addr, data)]));
    }

    /// Write each byte of `data` to `addr`.
    fn write_bytes(&mut self, addr: u16, data: &[u8])
        requires
            old(self).cycle + data@.len() <= u64::MAX,
        ensures
            final(self).trace@ == old(self).trace@ + writes_from(old(self).cycle as int, byte_items(addr, data@)),
            final(self).cycle == old(self).cycle + data@.len(),
            old(self).wf() ==> final(self).wf(),
    {
        let mut i: usize = 0;
        while i < data.len()
            invariant
                old(self).cycle + data@.len() <= u64::MAX,
                old(self).wf() ==> self.wf(),
                i <= data@.len(),
                self.cycle == old(self).cycle + i,
                self.trace@ == old(self).trace@ + writes_from(
                    old(self).cycle as int,
                    byte_items(addr, data@).take(i as int),
                ),
            decreases data@.len() - i,
        {
            proof {
                lemma_writes_concat(
                    old(self).cycle as int,
                    byte_items(addr, data@).take(i as int),
                    seq![(addr, data@[i as int])],
                );
                assert(byte_items(addr, data@).take(i as int) + seq![(addr, data@[i as int])] =~= byte_items(
                    addr,
                    data@,
                ).take(i + 1));
            }
            self.write(addr, data[i]);
            i += 1;
        }
        assert(byte_items(addr, data@).take(data@.len() as int) =~= byte_items(addr, data@));
    }

    /// Set XRAM portal 0 address (ADDR0, low byte first).
    pub fn set_addr0(&mut self, addr: u16)
        requires
            old(self).cycle + 2 <= u64::MAX,
        ensures
            final(self).trace@ == old(self).trace@ + writes_from(old(self).cycle as int, address_items(0xFFE6, addr)),
            final(self).cycle == old(self).cycle + 2,
            old(self).wf() ==> final(self).wf(),
    {
        self.write(0xFFE6, (addr % 256) as u8);
        self.write(0xFFE7, (addr / 256) as u8);
        assert(final(self).trace@ =~= old(self).trace@ + writes_from(old(self).cycle as int, address_items(0xFFE6, addr)));
    }

    /// Set XRAM portal 0 step (STEP0, as a signed byte).
    pub fn set_step0(&mut self, step: i8)
        requires
            old(self).cycle < u64::MAX,
        ensures
            final(self).trace@ == old(self).trace@ + writes_from(old(self).cycle as int, seq![(0xFFE5u16, step as u8)]),
            final(self).cycle == old(self).cycle + 1,
            old(self).wf() ==> final(self).wf(),
    {
        self.write(0xFFE5, step as u8);
    }

    /// Set XRAM portal 1 address (ADDR1, low byte first).
    pub fn set_addr1(&mut self, addr: u16)
        requires
            old(self).cycle + 2 <= u64::MAX,
        ensures
            final(self).trace@ == old(self).trace@ + writes_from(old(self).cycle as int, address_items(0xFFEA, addr)),
            final(self).cycle == old(self).cycle + 2,
            old(self).wf() ==> final(self).wf(),
    {
        self.write(0xFFEA, (addr % 256) as u8);
        self.write(0xFFEB, (addr / 256) as u8);
        assert(final(self).trace@ =~= old(self).trace@ + writes_from(old(self).cycle as int, address_items(0xFFEA, addr)));
    }

    /// Set XRAM portal 1 step (STEP1, as a signed byte).
    pub fn set_step1(&mut self, step: i8)
        requires
            old(self).cycle < u64::MAX,
        ensures
            final(self).trace@ == old(self).trace@ + writes_from(old(self).cycle as int, seq![(0xFFE9u16, step as u8)]),
            final(self).cycle == old(self).cycle + 1,
            old(self).wf() ==> final(self).wf(),
    {
        self.write(0xFFE9, step as u8);
    }

    /// Write bytes to XRAM through portal 0: set ADDR0, then stream the bytes
    /// through RW0.
    pub fn xram0_write(&mut self, addr: u16, data: &[u8])
        requires
            old(self).cycle + 2 + data@.len() <= u64::MAX,
        ensures
            final(self).trace@ == old(self).trace@ + writes_from(
                old(self).cycle as int,
                address_items(0xFFE6, addr) + byte_items(0xFFE4, data@),
            ),
            final(self).cycle == old(self).cycle + 2 + data@.len(),
            old(self).wf() ==> final(self).wf(),
    {
        self.set_addr0(addr);
        self.write_bytes(0xFFE4, data);
        proof {
            lemma_writes_concat(old(self).cycle as int, address_items(0xFFE6, addr), byte_items(0xFFE4, data@));
            assert(final(self).trace@ =~= old(self).trace@ + writes_from(
                old(self).cycle as int,
                address_items(0xFFE6, addr) + byte_items(0xFFE4, data@),
            ));
        }
    }

    /// Write a structure field to XRAM through portal 0: ADDR0 = base +
    /// offset (mod 2^16), then the field's bytes.
    pub fn xram0_struct_set(&mut self, base: u16, offset: u16, val: &[u8])
        requires
            old(self).cycle + 2 + val@.len() <= u64::MAX,
        ensures
            final(self).trace@ == old(self).trace@ + writes_from(
                old(self).cycle as int,
                address_items(0xFFE6, ((base + offset) % 0x10000) as u16) + byte_items(0xFFE4, val@),
            ),
            final(self).cycle == old(self).cycle + 2 + val@.len(),
            old(self).wf() ==> final(self).wf(),
    {
        self.xram0_write(base.wrapping_add(offset), val);
    }

    /// Trigger exit: OP = 0xFF.
    pub fn op_exit(&mut self)
        requires
            old(self).cycle < u64::MAX,
        ensures
            final(self).trace@ == old(self).trace@ + writes_from(old(self).cycle as int, seq![(0xFFEFu16, 0xFFu8)]),
            final(self).cycle == old(self).cycle + 1,
            old(self).wf() ==> final(self).wf(),
    {
        self.write(0xFFEF, 0xFF);
    }

    /// Let `n` frames' worth of cycles (200,000 each) pass without a transaction.
    pub fn wait_frames(&mut self, n: u32)
        requires
            old(self).cycle + n * 200_000 <= u64::MAX,
        ensures
            final(self).trace@ == old(self).trace@,
            final(self).cycle == old(self).cycle + n * 200_000,
            old(self).wf() ==> final(self).wf(),
    {
        self.cycle += n as u64 * 200_000;
    }

    /// Send an xreg call: push device, channel and start register, then each
    /// value (high byte first), then trigger OP 0x01.
    pub fn xreg(&mut self, device: u8, channel: u8, addr: u8, values: &[u16])
        requires
            old(self).cycle + 4 + 2 * values@.len() <= u64::MAX,
        ensures
            final(self).trace@ == old(self).trace@ + writes_from(
                old(self).cycle as int,
                xreg_items(device, channel, addr, values@),
            ),
            final(self).cycle == old(self).cycle + 4 + 2 * values@.len(),
            old(self).wf() ==> final(self).wf(),
    {
        let ghost c0 = self.cycle as int;
        let ghost head = seq![(0xFFECu16, device), (0xFFECu16, channel), (0xFFECu16, addr)];
        self.write(0xFFEC, device);
        self.write(0xFFEC, channel);
        self.write(0xFFEC, addr);
        assert(self.trace@ =~= old(self).trace@ + writes_from(c0, head));
        let mut i: usize = 0;
        while i < values.len()
            invariant
                old(self).cycle + 4 + 2 * values@.len() <= u64::MAX,
                old(self).wf() ==> self.wf(),
                c0 == old(self).cycle,
                head == seq![(0xFFECu16, device), (0xFFECu16, channel), (0xFFECu16, addr)],
                i <= values@.len(),
                self.cycle == c0 + 3 + 2 * i,
                self.trace@ == old(self).trace@ + writes_from(c0, head + value_items(values@).take(2 * i)),
            decreases values@.len() - i,
        {
            let val = values[i];
            let ghost before = head + value_items(values@).take(2 * i);
            self.write(0xFFEC, (val / 256) as u8);
            self.write(0xFFEC, (val % 256) as u8);
            proof {
                let pair = seq![(0xFFECu16, (val / 256) as u8), (0xFFECu16, (val % 256) as u8)];
                assert(writes_from(c0 + before.len(), seq![(0xFFECu16, (val / 256) as u8)]) + writes_from(
                    c0 + before.len() + 1,
                    seq![(0xFFECu16, (val % 256) as u8)],
                ) =~= writes_from(c0 + before.len(), pair));
                lemma_writes_concat(c0, before, pair);
                assert(head + value_items(values@).take(2 * i + 2) =~= before + pair);
                assert(self.trace@ =~= old(self).trace@ + writes_from(c0, before) + writes_from(
                    c0 + before.len(),
                    pair,
                ));
            }
            i += 1;
        }
        let ghost body = head + value_items(values@);
        assert(value_items(values@).take(2 * values@.len() as int) =~= value_items(values@));
        self.write(0xFFEF, 0x01);
        proof {
            lemma_writes_concat(c0, body, seq![(0xFFEFu16, 1u8)]);
            assert(xreg_items(device, channel, addr, values@) =~= body + seq![(0xFFEFu16, 1u8)]);
        }
    }

    /// Set the VGA canvas: xreg(1, 0, 0, value).
    pub fn xreg_vga_canvas(&mut self, value: u16)
        requires
            old(self).cycle + 6 <= u64::MAX,
        ensures
            final(self).trace@ == old(self).trace@ + writes_from(
                old(self).cycle as int,
                xreg_items(1, 0, 0, seq![value]),
            ),
            final(self).cycle == old(self).cycle + 6,
            old(self).wf() ==> final(self).wf(),
    {
        let values: [u16; 1] = [value];
        let vs = values.as_slice();
        assert(vs@ =~= seq![value]);
        self.xreg(1, 0, 0, vs);
    }

    /// Program a VGA mode: xreg(1, 0, 1, values).
    pub fn xreg_vga_mode(&mut self, values: &[u16])
        requires
            old(self).cycle + 4 + 2 * values@.len() <= u64::MAX,
        ensures
            final(self).trace@ == old(self).trace@ + writes_from(
                old(self).cycle as int,
                xreg_items(1, 0, 1, values@),
            ),
            final(self).cycle == old(self).cycle + 4 + 2 * values@.len(),
            old(self).wf() ==> final(self).wf(),
    {
        self.xreg(1, 0, 1, values);
    }
}

} // verus!
