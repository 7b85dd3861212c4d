use rp6502_emu::pix::{Backchannel, PixEvent, PixRegWrite, XramWrite};
use rp6502_emu::vga::{upscale_canvas, Plane, Vga};

#[test]
fn test_upscale_1x() {
    let mut canvas = vec![0u32; 640 * 480];
    canvas[0] = 0xFF0000FF;
    canvas[639 + 479 * 640] = 0x00FF00FF;

    let mut display = vec![0u8; 640 * 480 * 4];
    upscale_canvas(&canvas, 640, 480, &mut display);

    assert_eq!(display[0], 0xFF);
    assert_eq!(display[1], 0x00);
    assert_eq!(display[2], 0x00);
    assert_eq!(display[3], 0xFF);

    let idx = (639 + 479 * 640) * 4;
    assert_eq!(display[idx], 0x00);
    assert_eq!(display[idx + 1], 0xFF);
    assert_eq!(display[idx + 2], 0x00);
    assert_eq!(display[idx + 3], 0xFF);
}

#[test]
fn test_upscale_2x() {
    let mut canvas = vec![0u32; 320 * 240];
    canvas[0] = 0x0000FFFF;
    canvas[1] = 0xFF0000FF;

    let mut display = vec![0u8; 640 * 480 * 4];
    upscale_canvas(&canvas, 320, 240, &mut display);

    for (dx, dy) in [(0usize, 0usize), (1, 0), (0, 1), (1, 1)] {
        let idx = (dx + dy * 640) * 4;
        assert_eq!(display[idx], 0x00, "R at ({dx},{dy})");
        assert_eq!(display[idx + 1], 0x00, "G at ({dx},{dy})");
        assert_eq!(display[idx + 2], 0xFF, "B at ({dx},{dy})");
        assert_eq!(display[idx + 3], 0xFF, "A at ({dx},{dy})");
    }

    for (dx, dy) in [(2usize, 0usize), (3, 0), (2, 1), (3, 1)] {
        let idx = (dx + dy * 640) * 4;
        assert_eq!(display[idx], 0xFF, "R at ({dx},{dy})");
        assert_eq!(display[idx + 1], 0x00, "G at ({dx},{dy})");
        assert_eq!(display[idx + 2], 0x00, "B at ({dx},{dy})");
        assert_eq!(display[idx + 3], 0xFF, "A at ({dx},{dy})");
    }
}

#[test]
fn test_upscale_2x_16_9_black_below() {
    let mut canvas = vec![0u32; 320 * 180];
    canvas[0] = 0xFF0000FF;

    let mut display = vec![0u8; 640 * 480 * 4];
    upscale_canvas(&canvas, 320, 180, &mut display);

    assert_eq!(display[0], 0xFF);
    assert_eq!(display[3], 0xFF);

    let idx = 360 * 640 * 4;
    assert_eq!(display[idx], 0x00);
    assert_eq!(display[idx + 1], 0x00);
    assert_eq!(display[idx + 2], 0x00);
    assert_eq!(display[idx + 3], 0x00);
}

#[test]
fn upscale_clears_stale_display() {
    let canvas = vec![0u32; 640 * 360];
    let mut display = vec![0xAAu8; 640 * 480 * 4];
    upscale_canvas(&canvas, 640, 360, &mut display);
    assert!(display.iter().all(|&b| b == 0));
}

fn reg(register: u8, value: u16) -> PixEvent {
    PixEvent::Reg(PixRegWrite { channel: 0, register, value })
}

#[test]
fn canvas_register_selects_size_and_acks() {
    let mut vga = Vga::new();
    assert_eq!(vga.handle_event(reg(0, 2)), Some(Backchannel::Ack));
    assert_eq!((vga.canvas_width, vga.canvas_height), (320, 180));
    assert_eq!(vga.handle_event(reg(0, 4)), Some(Backchannel::Ack));
    assert_eq!((vga.canvas_width, vga.canvas_height), (640, 360));
    assert_eq!(vga.handle_event(reg(0, 9)), Some(Backchannel::Ack));
    assert_eq!((vga.canvas_width, vga.canvas_height), (640, 480));
}

#[test]
fn mode_with_bad_attribute_naks() {
    let mut vga = Vga::new();
    assert_eq!(vga.handle_event(reg(2, 5)), None);
    assert_eq!(vga.handle_event(reg(3, 0)), None);
    assert_eq!(vga.handle_event(reg(1, 3)), Some(Backchannel::Nak));
    assert!(vga.planes.iter().all(|p| p.is_none()));
    assert!(vga.xregs.iter().all(|&x| x == 0));
}

#[test]
fn mode_with_odd_pointer_or_bad_plane_naks() {
    let mut vga = Vga::new();
    vga.handle_event(reg(3, 1));
    assert_eq!(vga.handle_event(reg(1, 3)), Some(Backchannel::Nak));
    vga.handle_event(reg(4, 3));
    assert_eq!(vga.handle_event(reg(1, 3)), Some(Backchannel::Nak));
    vga.handle_event(reg(3, 0xFFF4));
    assert_eq!(vga.handle_event(reg(1, 1)), Some(Backchannel::Nak));
    assert_eq!(vga.handle_event(reg(1, 7)), Some(Backchannel::Nak));
}

#[test]
fn mode_installs_plane_and_other_channels_are_ignored() {
    let mut vga = Vga::new();
    vga.handle_event(reg(2, 3));
    vga.handle_event(reg(4, 2));
    assert_eq!(vga.handle_event(reg(1, 3)), Some(Backchannel::Ack));
    assert!(matches!(vga.planes[2], Some(slot) if matches!(slot.plane, Plane::Mode3(_))));
    let other = PixEvent::Reg(PixRegWrite { channel: 15, register: 0, value: 1 });
    assert_eq!(vga.handle_event(other), None);
    assert_eq!(vga.canvas_width, 640);
}

#[test]
fn xram_event_updates_mirror_and_frames_count() {
    let mut vga = Vga::new();
    assert_eq!(vga.handle_event(PixEvent::Xram(XramWrite { addr: 0xFFFF, data: 7 })), None);
    assert_eq!(vga.xram[0xFFFF], 7);
    assert_eq!(vga.handle_event(PixEvent::FrameSync), Some(Backchannel::Vsync(0x81)));
    for _ in 0..15 {
        vga.handle_event(PixEvent::FrameSync);
    }
    assert_eq!(vga.frame_count, 16);
    assert_eq!(vga.handle_event(PixEvent::FrameSync), Some(Backchannel::Vsync(0x81)));
}
