use rp6502_emu::mode1::{render_mode1, Mode1Config, Mode1Format, Mode1Plane};
use rp6502_emu::palette::palette_256;

fn make_mode1_xram(config_ptr: u16, data_ptr: u16, width_chars: i16, height_chars: i16) -> Vec<u8> {
    let mut xram = vec![0u8; 65536];
    let p = config_ptr as usize;
    xram[p] = 0;
    xram[p + 1] = 0;
    xram[p + 2..p + 4].copy_from_slice(&0i16.to_le_bytes());
    xram[p + 4..p + 6].copy_from_slice(&0i16.to_le_bytes());
    xram[p + 6..p + 8].copy_from_slice(&width_chars.to_le_bytes());
    xram[p + 8..p + 10].copy_from_slice(&height_chars.to_le_bytes());
    xram[p + 10..p + 12].copy_from_slice(&data_ptr.to_le_bytes());
    xram[p + 12..p + 14].copy_from_slice(&0xFFFFu16.to_le_bytes());
    xram[p + 14..p + 16].copy_from_slice(&0xFFFFu16.to_le_bytes());
    xram
}

#[test]
fn test_mode1_1bpp_single_char() {
    let config_ptr = 0x0000u16;
    let data_ptr = 0x0100u16;
    let xram = make_mode1_xram(config_ptr, data_ptr, 1, 1);
    let mut xram = xram;
    xram[data_ptr as usize] = 0xDB;

    let plane = Mode1Plane {
        config: Mode1Config::from_xram(&xram, config_ptr),
        format: Mode1Format::Bpp1_8x8,
        scanline_begin: 0,
        scanline_end: 8,
        config_ptr,
    };

    let mut fb = vec![0u32; 8 * 8];
    render_mode1(&plane, &xram, &mut fb, 8, 8);

    for y in 0..8 {
        for x in 0..8 {
            let px = fb[y * 8 + x];
            assert_ne!(px & 0xFF, 0, "pixel ({x},{y}) should be opaque");
        }
    }
}

#[test]
fn test_mode1_1bpp_space_is_transparent() {
    let config_ptr = 0x0000u16;
    let data_ptr = 0x0100u16;
    let xram = make_mode1_xram(config_ptr, data_ptr, 1, 1);
    let mut xram = xram;
    xram[data_ptr as usize] = 0x20;

    let plane = Mode1Plane {
        config: Mode1Config::from_xram(&xram, config_ptr),
        format: Mode1Format::Bpp1_8x8,
        scanline_begin: 0,
        scanline_end: 8,
        config_ptr,
    };

    let mut fb = vec![0u32; 8 * 8];
    render_mode1(&plane, &xram, &mut fb, 8, 8);

    for y in 0..8 {
        for x in 0..8 {
            assert_eq!(fb[y * 8 + x], 0, "pixel ({x},{y}) should be transparent");
        }
    }
}

#[test]
fn test_mode1_8bpp_fg_bg_colors() {
    let config_ptr = 0x0000u16;
    let data_ptr = 0x0100u16;
    let mut xram = make_mode1_xram(config_ptr, data_ptr, 1, 1);
    xram[data_ptr as usize] = 0xDB;
    xram[data_ptr as usize + 1] = 9;
    xram[data_ptr as usize + 2] = 12;

    let plane = Mode1Plane {
        config: Mode1Config::from_xram(&xram, config_ptr),
        format: Mode1Format::Bpp8_8x8,
        scanline_begin: 0,
        scanline_end: 8,
        config_ptr,
    };

    let mut fb = vec![0u32; 8 * 8];
    render_mode1(&plane, &xram, &mut fb, 8, 8);

    for y in 0..8 {
        for x in 0..8 {
            assert_eq!(fb[y * 8 + x], palette_256(9), "pixel ({x},{y}) should be bright red");
        }
    }
}

#[test]
fn test_mode1_config_from_xram() {
    let mut xram = vec![0u8; 65536];
    let p = 0x100usize;
    xram[p] = 1;
    xram[p + 1] = 0;
    xram[p + 2..p + 4].copy_from_slice(&10i16.to_le_bytes());
    xram[p + 4..p + 6].copy_from_slice(&20i16.to_le_bytes());
    xram[p + 6..p + 8].copy_from_slice(&40i16.to_le_bytes());
    xram[p + 8..p + 10].copy_from_slice(&30i16.to_le_bytes());
    xram[p + 10..p + 12].copy_from_slice(&0x2000u16.to_le_bytes());
    xram[p + 12..p + 14].copy_from_slice(&0x4000u16.to_le_bytes());
    xram[p + 14..p + 16].copy_from_slice(&0xFFFFu16.to_le_bytes());

    let cfg = Mode1Config::from_xram(&xram, 0x100);
    assert!(cfg.x_wrap);
    assert!(!cfg.y_wrap);
    assert_eq!(cfg.x_pos_px, 10);
    assert_eq!(cfg.y_pos_px, 20);
    assert_eq!(cfg.width_chars, 40);
    assert_eq!(cfg.height_chars, 30);
    assert_eq!(cfg.xram_data_ptr, 0x2000);
    assert_eq!(cfg.xram_palette_ptr, 0x4000);
    assert_eq!(cfg.xram_font_ptr, 0xFFFF);
}

#[test]
fn test_mode1_format_from_attr() {
    assert_eq!(Mode1Format::from_attr(0), Some(Mode1Format::Bpp1_8x8));
    assert_eq!(Mode1Format::from_attr(1), Some(Mode1Format::Bpp4r_8x8));
    assert_eq!(Mode1Format::from_attr(2), Some(Mode1Format::Bpp4_8x8));
    assert_eq!(Mode1Format::from_attr(3), Some(Mode1Format::Bpp8_8x8));
    assert_eq!(Mode1Format::from_attr(4), Some(Mode1Format::Bpp16_8x8));
    assert_eq!(Mode1Format::from_attr(8), Some(Mode1Format::Bpp1_8x16));
    assert_eq!(Mode1Format::from_attr(12), Some(Mode1Format::Bpp16_8x16));
    assert_eq!(Mode1Format::from_attr(5), None);
    assert_eq!(Mode1Format::from_attr(7), None);
}

#[test]
fn test_mode1_y_wrap() {
    let config_ptr = 0x0000u16;
    let data_ptr = 0x0100u16;
    let mut xram = make_mode1_xram(config_ptr, data_ptr, 1, 1);
    xram[config_ptr as usize] = 0;
    xram[config_ptr as usize + 1] = 1;
    xram[data_ptr as usize] = 0xDB;

    let plane = Mode1Plane {
        config: Mode1Config::from_xram(&xram, config_ptr),
        format: Mode1Format::Bpp1_8x8,
        scanline_begin: 0,
        scanline_end: 16,
        config_ptr,
    };

    let mut fb = vec![0u32; 8 * 16];
    render_mode1(&plane, &xram, &mut fb, 8, 16);

    assert_ne!(fb[0] & 0xFF, 0, "row 0 should have content");
    assert_ne!(fb[8 * 8] & 0xFF, 0, "row 8 should wrap and have content");
}

#[test]
fn format_sizes() {
    assert_eq!(Mode1Format::Bpp16_8x16.font_height(), 16);
    assert_eq!(Mode1Format::Bpp4r_8x8.font_height(), 8);
    assert_eq!(Mode1Format::Bpp1_8x8.cell_size(), 1);
    assert_eq!(Mode1Format::Bpp4_8x16.cell_size(), 2);
    assert_eq!(Mode1Format::Bpp8_8x8.cell_size(), 3);
    assert_eq!(Mode1Format::Bpp16_8x8.cell_size(), 6);
    assert_eq!(Mode1Format::Bpp4r_8x16.bpp(), 4);
}

#[test]
fn xram_font_and_4bpp_nibble_orders() {
    let data_ptr = 0x0100u16;
    let mut xram = make_mode1_xram(0, data_ptr, 1, 1);
    // Font at 0x1000: glyph 1 has its left half lit on every row.
    xram[14..16].copy_from_slice(&0x1000u16.to_le_bytes());
    for row in 0..8 {
        xram[0x1000 + row * 256 + 1] = 0xF0;
    }
    xram[data_ptr as usize] = 1;
    xram[data_ptr as usize + 1] = 0x9C; // high nibble 9, low nibble 12
    let plane = Mode1Plane {
        config: Mode1Config::from_xram(&xram, 0),
        format: Mode1Format::Bpp4r_8x8,
        scanline_begin: 0,
        scanline_end: 0,
        config_ptr: 0,
    };
    let mut fb = vec![0u32; 64];
    render_mode1(&plane, &xram, &mut fb, 8, 8);
    // Reversed order: foreground is the high nibble.
    assert_eq!(fb[0], palette_256(9));
    assert_eq!(fb[7], palette_256(12));

    let plane = Mode1Plane { format: Mode1Format::Bpp4_8x8, ..plane };
    let mut fb = vec![0u32; 64];
    render_mode1(&plane, &xram, &mut fb, 8, 8);
    assert_eq!(fb[0], palette_256(12));
    assert_eq!(fb[7], palette_256(9));
}

#[test]
fn direct_color_cells() {
    let data_ptr = 0x0100u16;
    let mut xram = make_mode1_xram(0, data_ptr, 1, 1);
    let d = data_ptr as usize;
    xram[d] = 0x20; // blank glyph: every pixel takes the background
    xram[d + 2..d + 4].copy_from_slice(&0x003Fu16.to_le_bytes());
    xram[d + 4..d + 6].copy_from_slice(&0x07E0u16.to_le_bytes());
    let plane = Mode1Plane {
        config: Mode1Config::from_xram(&xram, 0),
        format: Mode1Format::Bpp16_8x8,
        scanline_begin: 0,
        scanline_end: 0,
        config_ptr: 0,
    };
    let mut fb = vec![0u32; 64];
    render_mode1(&plane, &xram, &mut fb, 8, 8);
    assert!(fb.iter().all(|&c| c == 0x00FF_00FF));
}
