use rp6502_emu::palette::{palette_2, palette_256, rgb565_to_rgba, rgba, rgba_transparent};

#[test]
fn test_palette_256_ansi_colors() {
    assert_eq!(palette_256(0) & 0xFF, 0x00);
    assert_eq!(palette_256(1), rgba(205, 0, 0));
    assert_eq!(palette_256(16), rgba(0, 0, 0));
    assert_eq!(palette_256(15), rgba(255, 255, 255));
}

#[test]
fn test_palette_256_rgb_cube() {
    assert_eq!(palette_256(21), rgba(0, 0, 255));
    assert_eq!(palette_256(196), rgba(255, 0, 0));
}

#[test]
fn test_palette_256_greyscale() {
    assert_eq!(palette_256(232), rgba(8, 8, 8));
    assert_eq!(palette_256(255), rgba(238, 238, 238));
}

#[test]
fn test_rgb565_to_rgba_white() {
    let rgba_val = rgb565_to_rgba(0xFFFF);
    assert_eq!(rgba_val & 0xFF, 0xFF);
    assert_eq!((rgba_val >> 24) & 0xFF, 0xFF);
    assert_eq!((rgba_val >> 16) & 0xFF, 0xFF);
    assert_eq!((rgba_val >> 8) & 0xFF, 0xFF);
}

#[test]
fn test_rgb565_to_rgba_transparent() {
    let rgba_val = rgb565_to_rgba(0xFFDF);
    assert_eq!(rgba_val & 0xFF, 0x00);
}

#[test]
fn test_rgb565_to_rgba_red_only() {
    let raw: u16 = 0x003F;
    let rgba_val = rgb565_to_rgba(raw);
    assert_eq!(rgba_val & 0xFF, 0xFF);
    assert_eq!((rgba_val >> 24) & 0xFF, 0xFF);
    assert_eq!((rgba_val >> 16) & 0xFF, 0x00);
    assert_eq!((rgba_val >> 8) & 0xFF, 0x00);
}

#[test]
fn test_palette_2() {
    assert_eq!(palette_2(0) & 0xFF, 0x00);
    assert_eq!(palette_2(1) & 0xFF, 0xFF);
}

#[test]
fn palette_entries_exact_values() {
    assert_eq!(palette_2(1), 0xC0C0_C0FF);
    assert_eq!(palette_256(9), 0xFF00_00FF);
    assert_eq!(palette_256(12), 0x5C5C_FFFF);
    assert_eq!(palette_256(17), 0x0000_5FFF);
    assert_eq!(palette_256(231), 0xFFFF_FFFF);
    assert_eq!(palette_256(244), 0x8080_80FF);
    assert_eq!(rgba_transparent(1, 2, 3), 0x0102_0300);
}

#[test]
fn rgb565_channels_expand_exactly() {
    // R5 = 1, G5 = 2, B5 = 3, alpha set.
    let raw: u16 = (3 << 11) | (2 << 6) | (1 << 5) | 1;
    assert_eq!(rgb565_to_rgba(raw), 0x0810_18FF);
}

fn top5_back_to_rgb565(c: u32) -> u16 {
    let r5 = ((c >> 24) & 0xFF) as u16 >> 3;
    let g5 = ((c >> 16) & 0xFF) as u16 >> 3;
    let b5 = ((c >> 8) & 0xFF) as u16 >> 3;
    let a = if c & 0xFF != 0 { 1u16 << 5 } else { 0 };
    (b5 << 11) | (g5 << 6) | a | r5
}

#[test]
fn rgb565_round_trip_keeps_all_bits() {
    for raw in [0u16, 0x0020, 0x001F, 0x07C0, 0xF800, 0x1234, 0xABCD, 0xFFDF, 0xFFFF] {
        assert_eq!(top5_back_to_rgb565(rgb565_to_rgba(raw)), raw);
    }
}
