use vstd::prelude::*;

verus! {

/// XRAM broadcast (device 0, channel 0).
#[derive(Debug, Clone, Copy, PartialEq, Eq, Structural)]
pub struct XramWrite {
    pub addr: u16,
    pub data: u8,
}

/// Register write to a PIX device.
#[derive(Debug, Clone, Copy, PartialEq, Eq, Structural)]
pub struct PixRegWrite {
    pub channel: u8,
    pub register: u8,
    pub value: u16,
}

/// Events sent from RIA to VGA over the PIX channel.
#[derive(Debug, Clone, Copy, PartialEq, Eq, Structural)]
pub enum PixEvent {
    Xram(XramWrite),
    Reg(PixRegWrite),
    FrameSync,
}

/// Backchannel messages from VGA to RIA.
#[derive(Debug, Clone, Copy, PartialEq, Eq, Structural)]
pub enum Backchannel {
    Vsync(u8),
    Ack,
    Nak,
}

/// Bit 28 of every PIX word: the framing bit.
pub const PIX_FRAMING: u32 = 0x1000_0000;

/// The 32-bit PIX word: [31:29] device, [28] framing, [27:24] channel,
/// [23:16] register, [15:0] value.
pub open spec fn pix_word(device: u8, channel: u8, register: u8, value: u16) -> u32 {
    0x1000_0000u32 | ((device as u32) << 29u32) | ((channel as u32) << 24u32) | ((
    register as u32) << 16u32) | (value as u32)
}

/// The fields of a PIX word, or `None` when the framing bit is clear.
pub open spec fn pix_fields(raw: u32) -> Option<(u8, u8, u8, u16)> {
    if raw & 0x1000_0000u32 == 0 {
        None
    } else {
        Some(
            (
                ((raw >> 29u32) & 0x7u32) as u8,
                ((raw >> 24u32) & 0xFu32) as u8,
                ((raw >> 16u32) & 0xFFu32) as u8,
                (raw & 0xFFFFu32) as u16,
            ),
        )
    }
}

/// Pack a PIX message into the 32-bit hardware format.
pub fn pix_pack(device: u8, channel: u8, register: u8, value: u16) -> (r: u32)
    requires
        device < 8,
        channel < 16,
    ensures
        r == pix_word(device, channel, register, value),
{
    PIX_FRAMING | ((device as u32) << 29u32) | ((channel as u32) << 24u32) | ((register as u32)
        << 16u32) | (value as u32)
}

/// Unpack a 32-bit PIX message. Returns None if the framing bit is not set.
pub fn pix_unpack(raw: u32) -> (r: Option<(u8, u8, u8, u16)>)
    ensures
        r == pix_fields(raw),
{
    if raw & PIX_FRAMING == 0 {
        return None;
    }
    let device = ((raw >> 29u32) & 0x7) as u8;
    let channel = ((raw >> 24u32) & 0xF) as u8;
    let register = ((raw >> 16u32) & 0xFF) as u8;
    let value = (raw & 0xFFFF) as u16;
    Some((device, channel, register, value))
}

/// Pack an XRAM write into PIX format: the data byte travels in the register
/// field and the address in the value field.
pub fn pix_pack_xram(addr: u16, data: u8) -> (r: u32)
    ensures
        r == pix_word(0, 0, data, addr),
{
    pix_pack(0, 0, data, addr)
}

/// Unpacking a packed word gives back the packed fields, and the framing bit
/// of every packed word is set.
pub proof fn lemma_pix_round_trip(device: u8, channel: u8, register: u8, value: u16)
    requires
        device < 8,
        channel < 16,
    ensures
        pix_fields(pix_word(device, channel, register, value)) == Some(
            (device, channel, register, value),
        ),
        pix_word(device, channel, register, value) & 0x1000_0000u32 != 0,
{
    let d = device as u32;
    let c = channel as u32;
    let g = register as u32;
    let v = value as u32;
    let w = pix_word(device, channel, register, value);
    assert(w == 0x1000_0000u32 | (d << 29u32) | (c << 24u32) | (g << 16u32) | v);
    assert(w & 0x1000_0000u32 != 0 && (w >> 29u32) & 0x7u32 == d && (w >> 24u32) & 0xFu32 == c
        && (w >> 16u32) & 0xFFu32 == g && w & 0xFFFFu32 == v) by (bit_vector)
        requires
            d < 8,
            c < 16,
            g < 256,
            v < 65536,
            w == 0x1000_0000u32 | (d << 29u32) | (c << 24u32) | (g << 16u32) | v,
    ;
}

} // verus!
