use rp6502_emu::pix::{pix_pack, pix_pack_xram, pix_unpack};

#[test]
fn test_pix_pack_roundtrip() {
    let raw = pix_pack(1, 0, 0x42, 0x1234);
    let (dev, ch, reg, val) = pix_unpack(raw).unwrap();
    assert_eq!(dev, 1);
    assert_eq!(ch, 0);
    assert_eq!(reg, 0x42);
    assert_eq!(val, 0x1234);
}

#[test]
fn test_pix_pack_vga_canvas() {
    let raw = pix_pack(1, 0, 0, 3);
    assert_eq!(raw, 0x3000_0003);
}

#[test]
fn test_pix_pack_xram() {
    let raw = pix_pack_xram(0x1234, 0xAB);
    assert_eq!(raw, 0x10AB_1234);
}

#[test]
fn test_pix_unpack_invalid_framing() {
    assert_eq!(pix_unpack(0x0000_0000), None);
}

#[test]
fn test_pix_pack_idle() {
    let raw = pix_pack(7, 0, 0, 0);
    assert_eq!(raw, 0xF000_0000);
}

#[test]
fn pack_unpack_round_trip_on_extremes() {
    for &(d, c, r, v) in &[(0u8, 0u8, 0u8, 0u16), (7, 15, 255, 0xFFFF), (3, 9, 0x80, 0x8001)] {
        let raw = pix_pack(d, c, r, v);
        assert_ne!(raw & 0x1000_0000, 0);
        assert_eq!(pix_unpack(raw), Some((d, c, r, v)));
    }
}

#[test]
fn unpack_reads_fields_of_any_framed_word() {
    assert_eq!(pix_unpack(0xFFFF_FFFF), Some((7, 15, 255, 0xFFFF)));
    assert_eq!(pix_unpack(0xEFFF_FFFF), None);
}
