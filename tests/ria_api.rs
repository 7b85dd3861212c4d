use rp6502_emu::bus::BusTransaction;
use rp6502_emu::ria_api::TraceBuilder;

#[test]
fn test_write_appends_transaction() {
    let mut tb = TraceBuilder { trace: Vec::new(), cycle: 0 };
    tb.write(0xFFE4, 0x42);
    assert_eq!(tb.trace.len(), 1);
    assert_eq!(tb.trace[0], BusTransaction::write(0, 0xFFE4, 0x42));
    assert_eq!(tb.cycle, 1);
}

#[test]
fn test_set_addr0() {
    let mut tb = TraceBuilder::new();
    tb.set_addr0(0x1234);
    assert_eq!(tb.trace.len(), 2);
    assert_eq!(tb.trace[0], BusTransaction::write(0, 0xFFE6, 0x34));
    assert_eq!(tb.trace[1], BusTransaction::write(1, 0xFFE7, 0x12));
}

#[test]
fn test_set_step0() {
    let mut tb = TraceBuilder::new();
    tb.set_step0(-1);
    assert_eq!(tb.trace.len(), 1);
    assert_eq!(tb.trace[0], BusTransaction::write(0, 0xFFE5, 0xFF));
}

#[test]
fn test_set_addr1() {
    let mut tb = TraceBuilder::new();
    tb.set_addr1(0xABCD);
    assert_eq!(tb.trace.len(), 2);
    assert_eq!(tb.trace[0], BusTransaction::write(0, 0xFFEA, 0xCD));
    assert_eq!(tb.trace[1], BusTransaction::write(1, 0xFFEB, 0xAB));
}

#[test]
fn test_set_step1() {
    let mut tb = TraceBuilder::new();
    tb.set_step1(2);
    assert_eq!(tb.trace.len(), 1);
    assert_eq!(tb.trace[0], BusTransaction::write(0, 0xFFE9, 2));
}

#[test]
fn test_xram0_write() {
    let mut tb = TraceBuilder::new();
    tb.xram0_write(0x0100, &[0xAA, 0xBB, 0xCC]);
    assert_eq!(tb.trace.len(), 5);
    assert_eq!(tb.trace[0], BusTransaction::write(0, 0xFFE6, 0x00));
    assert_eq!(tb.trace[1], BusTransaction::write(1, 0xFFE7, 0x01));
    assert_eq!(tb.trace[2], BusTransaction::write(2, 0xFFE4, 0xAA));
    assert_eq!(tb.trace[3], BusTransaction::write(3, 0xFFE4, 0xBB));
    assert_eq!(tb.trace[4], BusTransaction::write(4, 0xFFE4, 0xCC));
}

#[test]
fn test_xram0_struct_set() {
    let mut tb = TraceBuilder::new();
    tb.xram0_struct_set(0xFF00, 6, &42i16.to_le_bytes());
    assert_eq!(tb.trace.len(), 4);
    assert_eq!(tb.trace[0], BusTransaction::write(0, 0xFFE6, 0x06));
    assert_eq!(tb.trace[1], BusTransaction::write(1, 0xFFE7, 0xFF));
    assert_eq!(tb.trace[2], BusTransaction::write(2, 0xFFE4, 42));
    assert_eq!(tb.trace[3], BusTransaction::write(3, 0xFFE4, 0));
}

#[test]
fn ria_api_test_op_exit() {
    let mut tb = TraceBuilder::new();
    tb.op_exit();
    assert_eq!(tb.trace.len(), 1);
    assert_eq!(tb.trace[0], BusTransaction::write(0, 0xFFEF, 0xFF));
}

#[test]
fn test_wait_frames() {
    let mut tb = TraceBuilder::new();
    tb.write(0xFFE4, 0x00);
    tb.wait_frames(2);
    assert_eq!(tb.cycle, 1 + 400_000);
    tb.write(0xFFE4, 0x01);
    assert_eq!(tb.trace.last().unwrap().cycle, 1 + 400_000);
}

#[test]
fn test_xreg_single_value() {
    let mut tb = TraceBuilder::new();
    tb.xreg(1, 0, 0, &[3]);
    assert_eq!(tb.trace.len(), 6);
    assert_eq!(tb.trace[0], BusTransaction::write(0, 0xFFEC, 1));
    assert_eq!(tb.trace[1], BusTransaction::write(1, 0xFFEC, 0));
    assert_eq!(tb.trace[2], BusTransaction::write(2, 0xFFEC, 0));
    assert_eq!(tb.trace[3], BusTransaction::write(3, 0xFFEC, 0));
    assert_eq!(tb.trace[4], BusTransaction::write(4, 0xFFEC, 3));
    assert_eq!(tb.trace[5], BusTransaction::write(5, 0xFFEF, 0x01));
}

#[test]
fn test_xreg_multiple_values() {
    let mut tb = TraceBuilder::new();
    tb.xreg(1, 0, 1, &[1, 3, 0xFF00]);
    assert_eq!(tb.trace.len(), 10);
    assert_eq!(tb.trace[3], BusTransaction::write(3, 0xFFEC, 0));
    assert_eq!(tb.trace[4], BusTransaction::write(4, 0xFFEC, 1));
    assert_eq!(tb.trace[5], BusTransaction::write(5, 0xFFEC, 0));
    assert_eq!(tb.trace[6], BusTransaction::write(6, 0xFFEC, 3));
    assert_eq!(tb.trace[7], BusTransaction::write(7, 0xFFEC, 0xFF));
    assert_eq!(tb.trace[8], BusTransaction::write(8, 0xFFEC, 0x00));
    assert_eq!(tb.trace[9], BusTransaction::write(9, 0xFFEF, 0x01));
}

#[test]
fn test_xreg_vga_canvas() {
    let mut tb = TraceBuilder::new();
    tb.xreg_vga_canvas(3);
    assert_eq!(tb.trace.len(), 6);
    assert_eq!(tb.trace[0].data, 1);
    assert_eq!(tb.trace[1].data, 0);
    assert_eq!(tb.trace[2].data, 0);
}

#[test]
fn test_xreg_vga_mode() {
    let mut tb = TraceBuilder::new();
    tb.xreg_vga_mode(&[3, 0, 0x0000, 0, 0, 0]);
    assert_eq!(tb.trace.len(), 16);
    assert_eq!(tb.trace[2].data, 1);
}

#[test]
fn struct_set_wraps_address() {
    let mut tb = TraceBuilder::new();
    tb.xram0_struct_set(0xFFFE, 4, &[7]);
    assert_eq!(tb.trace[0], BusTransaction::write(0, 0xFFE6, 0x02));
    assert_eq!(tb.trace[1], BusTransaction::write(1, 0xFFE7, 0x00));
    assert_eq!(tb.trace[2], BusTransaction::write(2, 0xFFE4, 7));
}
