use vstd::prelude::*;

verus! {

/// Lowest address of the 32-byte RIA register window.
pub const RIA_BASE: u16 = 0xFFE0;

/// A single 6502 bus transaction.
#[derive(Debug, Clone, Copy, PartialEq, Eq, Structural)]
pub struct BusTransaction {
    pub cycle: u64,
    pub addr: u16,
    pub data: u8,
    /// true = read (6502 reading from bus), false = write (6502 writing to bus)
    pub rw: bool,
}

impl BusTransaction {
    pub open spec fn spec_hits_ria(&self) -> bool {
        self.addr >= RIA_BASE
    }

    pub open spec fn spec_ria_reg(&self) -> u8 {
        (self.addr % 32) as u8
    }

    pub fn write(cycle: u64, addr: u16, data: u8) -> (r: Self)
        ensures
            r == (BusTransaction { cycle, addr, data, rw: false }),
    {
        Self { cycle, addr, data, rw: false }
    }

    pub fn read(cycle: u64, addr: u16, data: u8) -> (r: Self)
        ensures
            r == (BusTransaction { cycle, addr, data, rw: true }),
    {
        Self { cycle, addr, data, rw: true }
    }

    /// Returns true if this transaction targets the RIA register space ($FFE0-$FFFF).
    pub fn hits_ria(&self) -> (r: bool)
        ensures
            r == self.spec_hits_ria(),
    {
        self.addr >= RIA_BASE
    }

    /// Returns the RIA register index (0-31) for this address.
    pub fn ria_reg(&self) -> (r: u8)
        ensures
            r == self.spec_ria_reg(),
            r < 32,
    {
        (self.addr % 32) as u8
    }
}

} // verus!
