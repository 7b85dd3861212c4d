use rp6502_emu::bus::BusTransaction;
use rp6502_emu::pix::{Backchannel, PixEvent, PixRegWrite, XramWrite};
use rp6502_emu::ria::{Ria, XSTACK_SIZE};

#[test]
fn test_reset_defaults() {
    let ria = Ria::new();
    assert_eq!(ria.regs[0x05], 1);
    assert_eq!(ria.regs[0x09], 1);
    assert_eq!(ria.xstack_ptr, XSTACK_SIZE);
}

#[test]
fn test_xram_write_portal0() {
    let mut ria = Ria::new();
    ria.process(&BusTransaction::write(1, 0xFFE6, 0x00));
    ria.process(&BusTransaction::write(2, 0xFFE7, 0x01));
    ria.process(&BusTransaction::write(3, 0xFFE4, 0x42));

    assert_eq!(ria.xram[0x0100], 0x42);
    assert_eq!(ria.addr0(), 0x0101);

    let events = ria.take_pix_events();
    assert_eq!(events[0], PixEvent::Xram(XramWrite { addr: 0x0100, data: 0x42 }));
}

#[test]
fn test_xram_read_portal0_auto_increment() {
    let mut ria = Ria::new();
    ria.xram[0x0050] = 0xAB;
    ria.process(&BusTransaction::write(1, 0xFFE6, 0x50));
    ria.process(&BusTransaction::write(2, 0xFFE7, 0x00));
    let val = ria.process(&BusTransaction::read(3, 0xFFE4, 0));
    assert_eq!(val, 0xAB);
    assert_eq!(ria.addr0(), 0x0051);
}

#[test]
fn test_xram_step_negative() {
    let mut ria = Ria::new();
    ria.process(&BusTransaction::write(1, 0xFFE5, 0xFF));
    ria.process(&BusTransaction::write(2, 0xFFE6, 0x10));
    ria.process(&BusTransaction::write(3, 0xFFE7, 0x00));
    ria.process(&BusTransaction::write(4, 0xFFE4, 0x01));
    assert_eq!(ria.addr0(), 0x000F);
}

#[test]
fn test_xstack_push_pop() {
    let mut ria = Ria::new();
    ria.process(&BusTransaction::write(1, 0xFFEC, 0x42));
    assert_eq!(ria.xstack_ptr, XSTACK_SIZE - 1);
    assert_eq!(ria.regs[0x0C], 0x42);

    ria.process(&BusTransaction::write(2, 0xFFEC, 0x43));
    assert_eq!(ria.xstack_ptr, XSTACK_SIZE - 2);
    assert_eq!(ria.regs[0x0C], 0x43);

    let val = ria.process(&BusTransaction::read(3, 0xFFEC, 0));
    assert_eq!(val, 0x43);
    assert_eq!(ria.xstack_ptr, XSTACK_SIZE - 1);
    assert_eq!(ria.regs[0x0C], 0x42);

    let val2 = ria.process(&BusTransaction::read(4, 0xFFEC, 0));
    assert_eq!(val2, 0x42);
    assert_eq!(ria.xstack_ptr, XSTACK_SIZE);
    assert_eq!(ria.regs[0x0C], 0);
}

#[test]
fn test_op_zxstack() {
    let mut ria = Ria::new();
    ria.process(&BusTransaction::write(1, 0xFFEC, 0x42));
    ria.process(&BusTransaction::write(2, 0xFFEC, 0x43));
    ria.process(&BusTransaction::write(3, 0xFFEF, 0x00));
    assert_eq!(ria.xstack_ptr, XSTACK_SIZE);
    assert_eq!(ria.regs[0x0C], 0);
}

#[test]
fn ria_test_op_exit() {
    let mut ria = Ria::new();
    ria.process(&BusTransaction::write(1, 0xFFEF, 0xFF));
    assert!(!ria.running);
}

#[test]
fn test_irq_enable_and_ack() {
    let mut ria = Ria::new();
    ria.process(&BusTransaction::write(1, 0xFFF0, 0x01));
    assert_eq!(ria.irq_enabled, 0x01);
    assert!(ria.irq_pin);

    ria.poll_backchannel(&[Backchannel::Vsync(0x81)], false);
    assert!(!ria.irq_pin);

    ria.process(&BusTransaction::read(2, 0xFFF0, 0));
    assert!(ria.irq_pin);
}

#[test]
fn test_vsync_preserved_across_reset() {
    let mut ria = Ria::new();
    ria.regs[0x03] = 0x42;
    ria.reset();
    assert_eq!(ria.regs[0x03], 0x42);
}

fn push_all(ria: &mut Ria, bytes: &[u8]) {
    for (i, &b) in bytes.iter().enumerate() {
        ria.process(&BusTransaction::write(10 + i as u64, 0xFFEC, b));
    }
}

#[test]
fn scenario_one_pixel_write_read_back() {
    let mut ria = Ria::new();
    ria.process(&BusTransaction::write(1, 0xFFE6, 0x00));
    ria.process(&BusTransaction::write(2, 0xFFE7, 0x01));
    ria.process(&BusTransaction::write(3, 0xFFE4, 0x42));
    assert_eq!(ria.addr0(), 0x0101);
    let events = ria.take_pix_events();
    assert_eq!(events, vec![PixEvent::Xram(XramWrite { addr: 0x0100, data: 0x42 })]);
    assert!(ria.pix_out.is_empty());
}

#[test]
fn scenario_stack_push_pop_interleave() {
    let mut ria = Ria::new();
    ria.process(&BusTransaction::write(1, 0xFFEC, 0x42));
    ria.process(&BusTransaction::write(2, 0xFFEC, 0x43));
    let a = ria.process(&BusTransaction::read(3, 0xFFEC, 0));
    let b = ria.process(&BusTransaction::read(4, 0xFFEC, 0));
    let c = ria.process(&BusTransaction::read(5, 0xFFEC, 0));
    assert_eq!((a, b, c), (0x43, 0x42, 0x00));
    assert_eq!(ria.xstack_ptr, 512);
    assert_eq!(ria.regs[0x0C], 0);
}

#[test]
fn scenario_canvas_only_xreg() {
    let mut ria = Ria::new();
    push_all(&mut ria, &[1, 0, 0, 0x00, 0x03]);
    ria.process(&BusTransaction::write(20, 0xFFEF, 0x01));
    let events = ria.take_pix_events();
    assert_eq!(events, vec![PixEvent::Reg(PixRegWrite { channel: 0, register: 0, value: 3 })]);
    assert_eq!(ria.xstack_ptr, 512);
    assert_eq!(ria.regs[0x14], 0);
    assert_eq!(ria.regs[0x16], 0);
}

#[test]
fn xreg_emits_highest_register_first() {
    let mut ria = Ria::new();
    // xreg(1, 0, 1, [3, 0x0102]): values pushed high byte first.
    push_all(&mut ria, &[1, 0, 1, 0x00, 0x03, 0x01, 0x02]);
    ria.process(&BusTransaction::write(30, 0xFFEF, 0x01));
    let events = ria.take_pix_events();
    assert_eq!(
        events,
        vec![
            PixEvent::Reg(PixRegWrite { channel: 0, register: 2, value: 0x0102 }),
            PixEvent::Reg(PixRegWrite { channel: 0, register: 1, value: 3 }),
        ]
    );
}

#[test]
fn malformed_xreg_returns_minus_one_and_keeps_stack() {
    let mut ria = Ria::new();
    // Odd payload: device, channel, start, and one byte.
    push_all(&mut ria, &[1, 0, 0, 0x07]);
    ria.process(&BusTransaction::write(30, 0xFFEF, 0x01));
    assert!(ria.take_pix_events().is_empty());
    assert_eq!(ria.regs[0x14], 0xFF);
    assert_eq!(ria.regs[0x16], 0xFF);
    assert_eq!(ria.xstack_ptr, 508);
    assert_eq!(ria.regs[0x0C], 0x07);
}

#[test]
fn xreg_with_bad_device_fails() {
    let mut ria = Ria::new();
    push_all(&mut ria, &[8, 0, 0, 0x00, 0x03]);
    ria.process(&BusTransaction::write(30, 0xFFEF, 0x01));
    assert!(ria.take_pix_events().is_empty());
    assert_eq!(ria.regs[0x14], 0xFF);
}

#[test]
fn unknown_op_returns_enosys_thunk() {
    let mut ria = Ria::new();
    ria.process(&BusTransaction::write(1, 0xFFEF, 0x42));
    assert_eq!(ria.regs[0x0F], 0x42);
    assert_eq!(&ria.regs[0x10..0x18], &[0xEA, 0x80, 0x00, 0xA9, 0xFF, 0xA2, 0xFF, 0x60]);
}

#[test]
fn push_on_full_stack_is_dropped() {
    let mut ria = Ria::new();
    for i in 0..512u64 {
        ria.process(&BusTransaction::write(i + 1, 0xFFEC, (i % 251) as u8));
    }
    assert_eq!(ria.xstack_ptr, 0);
    ria.process(&BusTransaction::write(600, 0xFFEC, 0x99));
    assert_eq!(ria.xstack_ptr, 0);
    assert_eq!(ria.regs[0x0C], (511 % 251) as u8);
    assert_eq!(ria.xstack[512], 0);
}

#[test]
fn portal1_write_and_positive_step() {
    let mut ria = Ria::new();
    ria.process(&BusTransaction::write(1, 0xFFE9, 3));
    ria.process(&BusTransaction::write(2, 0xFFEA, 0xFE));
    ria.process(&BusTransaction::write(3, 0xFFEB, 0xFF));
    ria.process(&BusTransaction::write(4, 0xFFE8, 0x11));
    ria.process(&BusTransaction::write(5, 0xFFE8, 0x22));
    assert_eq!(ria.xram[0xFFFE], 0x11);
    assert_eq!(ria.xram[0x0001], 0x22);
    assert_eq!(ria.addr1(), 0x0004);
}

#[test]
fn portal0_sequence_lands_at_stepped_addresses() {
    let mut ria = Ria::new();
    ria.process(&BusTransaction::write(1, 0xFFE5, 0xFE)); // step -2
    ria.process(&BusTransaction::write(2, 0xFFE6, 0x02));
    ria.process(&BusTransaction::write(3, 0xFFE7, 0x00));
    let values = [0xA0u8, 0xA1, 0xA2, 0xA3];
    for (i, &v) in values.iter().enumerate() {
        ria.process(&BusTransaction::write(10 + i as u64, 0xFFE4, v));
    }
    assert_eq!(ria.xram[0x0002], 0xA0);
    assert_eq!(ria.xram[0x0000], 0xA1);
    assert_eq!(ria.xram[0xFFFE], 0xA2);
    assert_eq!(ria.xram[0xFFFC], 0xA3);
    assert_eq!(ria.addr0(), 0xFFFA);
    let writes: Vec<XramWrite> = ria
        .take_pix_events()
        .into_iter()
        .filter_map(|e| match e {
            PixEvent::Xram(w) => Some(w),
            _ => None,
        })
        .collect();
    let addrs: Vec<u16> = writes.iter().map(|w| w.addr).collect();
    assert_eq!(addrs, vec![0x0002, 0x0000, 0xFFFE, 0xFFFC]);
}

#[test]
fn frame_boundary_emits_frame_sync() {
    let mut ria = Ria::new();
    assert!(!ria.advance_cycle(10));
    assert!(ria.advance_cycle(133_333));
    assert_eq!(ria.take_pix_events(), vec![PixEvent::FrameSync]);
    assert_eq!(ria.next_frame_cycle, 2 * 133_333);
}

#[test]
fn closed_backchannel_stops_ria() {
    let mut ria = Ria::new();
    ria.poll_backchannel(&[Backchannel::Ack, Backchannel::Vsync(0x83)], true);
    assert_eq!(ria.regs[0x03], 0x83);
    assert!(ria.irq_pin);
    assert!(!ria.running);
}

#[test]
fn status_read_sets_tx_ready() {
    let mut ria = Ria::new();
    let v = ria.process(&BusTransaction::read(1, 0xFFE0, 0));
    assert_eq!(v, 0x80);
    assert_eq!(ria.process(&BusTransaction::read(2, 0xFFE2, 0)), 0);
    assert_eq!(ria.process(&BusTransaction::read(3, 0x1234, 0x77)), 0x77);
}
