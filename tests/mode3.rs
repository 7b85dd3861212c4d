use rp6502_emu::mode3::{render_mode3, ColorFormat, Mode3Config, Mode3Plane};
use rp6502_emu::palette::palette_256;

fn make_xram_with_config(config_ptr: u16, data_ptr: u16, width: i16, height: i16) -> Vec<u8> {
    let mut xram = vec![0u8; 65536];
    let p = config_ptr as usize;
    xram[p] = 0;
    xram[p + 1] = 0;
    xram[p + 2..p + 4].copy_from_slice(&0i16.to_le_bytes());
    xram[p + 4..p + 6].copy_from_slice(&0i16.to_le_bytes());
    xram[p + 6..p + 8].copy_from_slice(&width.to_le_bytes());
    xram[p + 8..p + 10].copy_from_slice(&height.to_le_bytes());
    xram[p + 10..p + 12].copy_from_slice(&data_ptr.to_le_bytes());
    xram[p + 12..p + 14].copy_from_slice(&0u16.to_le_bytes());
    xram
}

#[test]
fn test_mode3_8bpp_single_pixel() {
    let config_ptr = 0x0000u16;
    let data_ptr = 0x0100u16;
    let mut xram = make_xram_with_config(config_ptr, data_ptr, 4, 4);
    xram[data_ptr as usize] = 9;

    let plane = Mode3Plane {
        config: Mode3Config::from_xram(&xram, config_ptr),
        format: ColorFormat::Bpp8,
        scanline_begin: 0,
        scanline_end: 4,
    };

    let mut fb = vec![0u32; 4 * 4];
    render_mode3(&plane, &xram, &mut fb, 4, 4);
    assert_eq!(fb[0], palette_256(9));
}

#[test]
fn test_mode3_1bpp_msb() {
    let config_ptr = 0x0000u16;
    let data_ptr = 0x0100u16;
    let mut xram = make_xram_with_config(config_ptr, data_ptr, 8, 1);
    xram[data_ptr as usize] = 0b10100101;

    let plane = Mode3Plane {
        config: Mode3Config::from_xram(&xram, config_ptr),
        format: ColorFormat::Bpp1Msb,
        scanline_begin: 0,
        scanline_end: 1,
    };

    let mut fb = vec![0u32; 8];
    render_mode3(&plane, &xram, &mut fb, 8, 1);
    assert_ne!(fb[0], 0);
    assert_eq!(fb[1], 0);
    assert_ne!(fb[2], 0);
    assert_eq!(fb[3], 0);
}

#[test]
fn test_mode3_y_wrap() {
    let config_ptr = 0x0000u16;
    let data_ptr = 0x0100u16;
    let mut xram = make_xram_with_config(config_ptr, data_ptr, 1, 2);
    xram[config_ptr as usize + 1] = 1;
    xram[data_ptr as usize] = 1;
    xram[data_ptr as usize + 1] = 2;

    let plane = Mode3Plane {
        config: Mode3Config::from_xram(&xram, config_ptr),
        format: ColorFormat::Bpp8,
        scanline_begin: 0,
        scanline_end: 4,
    };

    let mut fb = vec![0u32; 4];
    render_mode3(&plane, &xram, &mut fb, 1, 4);
    assert_eq!(fb[0], palette_256(1));
    assert_eq!(fb[1], palette_256(2));
    assert_eq!(fb[2], palette_256(1));
    assert_eq!(fb[3], palette_256(2));
}

#[test]
fn color_format_from_attr_and_depth() {
    assert_eq!(ColorFormat::from_attr(4), Some(ColorFormat::Bpp16));
    assert_eq!(ColorFormat::from_attr(10), Some(ColorFormat::Bpp4Lsb));
    assert_eq!(ColorFormat::from_attr(5), None);
    assert_eq!(ColorFormat::from_attr(11), None);
    assert_eq!(ColorFormat::Bpp2Lsb.bits_per_pixel(), 2);
    assert_eq!(ColorFormat::Bpp16.bits_per_pixel(), 16);
}

#[test]
fn packing_orders_lsb_and_2bpp() {
    let data_ptr = 0x0100u16;
    let mut xram = make_xram_with_config(0, data_ptr, 4, 1);
    // 2 bpp MSB: pixels 3, 2, 1, 0 from 0b11_10_01_00.
    xram[data_ptr as usize] = 0b1110_0100;
    let plane = Mode3Plane {
        config: Mode3Config::from_xram(&xram, 0),
        format: ColorFormat::Bpp2Msb,
        scanline_begin: 0,
        scanline_end: 0,
    };
    let mut fb = vec![0u32; 4];
    render_mode3(&plane, &xram, &mut fb, 4, 1);
    assert_eq!(fb, vec![palette_256(3), palette_256(2), palette_256(1), 0]);

    let plane = Mode3Plane { format: ColorFormat::Bpp2Lsb, ..plane };
    let mut fb = vec![0u32; 4];
    render_mode3(&plane, &xram, &mut fb, 4, 1);
    assert_eq!(fb, vec![0, palette_256(1), palette_256(2), palette_256(3)]);

    xram[data_ptr as usize] = 0x5A;
    let plane = Mode3Plane { format: ColorFormat::Bpp4Lsb, ..plane };
    let mut fb = vec![0u32; 4];
    render_mode3(&plane, &xram, &mut fb, 4, 1);
    assert_eq!(&fb[..2], &[palette_256(0xA), palette_256(0x5)]);
}

#[test]
fn direct_color_and_custom_palette() {
    let data_ptr = 0x0100u16;
    let mut xram = make_xram_with_config(0, data_ptr, 1, 1);
    xram[data_ptr as usize..data_ptr as usize + 2].copy_from_slice(&0x003Fu16.to_le_bytes());
    let plane = Mode3Plane {
        config: Mode3Config::from_xram(&xram, 0),
        format: ColorFormat::Bpp16,
        scanline_begin: 0,
        scanline_end: 0,
    };
    let mut fb = vec![0u32; 1];
    render_mode3(&plane, &xram, &mut fb, 1, 1);
    assert_eq!(fb[0], 0xFF00_00FF);

    // Custom 1-bpp palette at 0x0200: entry 1 = opaque blue.
    xram[12..14].copy_from_slice(&0x0200u16.to_le_bytes());
    xram[0x0202..0x0204].copy_from_slice(&(0xF800u16 | 0x20).to_le_bytes());
    xram[data_ptr as usize] = 0x80;
    let plane = Mode3Plane {
        config: Mode3Config::from_xram(&xram, 0),
        format: ColorFormat::Bpp1Msb,
        scanline_begin: 0,
        scanline_end: 0,
    };
    let mut fb = vec![0u32; 1];
    render_mode3(&plane, &xram, &mut fb, 1, 1);
    assert_eq!(fb[0], 0x0000_FFFF);
}

#[test]
fn plane_covers_its_rectangle_only() {
    let data_ptr = 0x0100u16;
    let mut xram = make_xram_with_config(0, data_ptr, 2, 2);
    xram[2..4].copy_from_slice(&1i16.to_le_bytes());
    xram[4..6].copy_from_slice(&1i16.to_le_bytes());
    for i in 0..4 {
        xram[data_ptr as usize + i] = 9;
    }
    let plane = Mode3Plane {
        config: Mode3Config::from_xram(&xram, 0),
        format: ColorFormat::Bpp8,
        scanline_begin: 0,
        scanline_end: 0,
    };
    let mut fb = vec![0x1111_1111u32; 16];
    render_mode3(&plane, &xram, &mut fb, 4, 4);
    for y in 0..4 {
        for x in 0..4 {
            let inside = (1..3).contains(&x) && (1..3).contains(&y);
            let expected = if inside { palette_256(9) } else { 0x1111_1111 };
            assert_eq!(fb[y * 4 + x], expected);
        }
    }
}

#[test]
fn x_wrap_repeats_and_oversized_bitmap_is_skipped() {
    let data_ptr = 0x0100u16;
    let mut xram = make_xram_with_config(0, data_ptr, 2, 1);
    xram[0] = 1;
    xram[2..4].copy_from_slice(&(-1i16).to_le_bytes());
    xram[data_ptr as usize] = 1;
    xram[data_ptr as usize + 1] = 2;
    let plane = Mode3Plane {
        config: Mode3Config::from_xram(&xram, 0),
        format: ColorFormat::Bpp8,
        scanline_begin: 0,
        scanline_end: 0,
    };
    let mut fb = vec![0u32; 4];
    render_mode3(&plane, &xram, &mut fb, 4, 1);
    assert_eq!(fb, vec![palette_256(2), palette_256(1), palette_256(2), palette_256(1)]);

    // 320 x 240 at 8 bpp does not fit above 0x0100.
    xram[6..8].copy_from_slice(&320i16.to_le_bytes());
    xram[8..10].copy_from_slice(&240i16.to_le_bytes());
    let plane = Mode3Plane { config: Mode3Config::from_xram(&xram, 0), ..plane };
    let mut fb = vec![0u32; 4];
    render_mode3(&plane, &xram, &mut fb, 4, 1);
    assert_eq!(fb, vec![0, 0, 0, 0]);
}

#[test]
fn config_near_end_of_xram_reads_as_zero() {
    let xram = vec![0xFFu8; 65536];
    let cfg = Mode3Config::from_xram(&xram, 0xFFF4);
    assert!(!cfg.x_wrap);
    assert_eq!(cfg.width_px, 0);
    let cfg = Mode3Config::from_xram(&xram, 0xFFF2);
    assert!(cfg.x_wrap);
    assert_eq!(cfg.width_px, -1);
    assert_eq!(cfg.xram_palette_ptr, 0xFFFF);
}
