use rp6502_emu::bus::BusTransaction;

#[test]
fn test_hits_ria() {
    assert!(BusTransaction::write(0, 0xFFE4, 0x42).hits_ria());
    assert!(!BusTransaction::write(0, 0x1000, 0x42).hits_ria());
}

#[test]
fn test_ria_reg() {
    assert_eq!(BusTransaction::write(0, 0xFFE4, 0).ria_reg(), 0x04);
    assert_eq!(BusTransaction::write(0, 0xFFFF, 0).ria_reg(), 0x1F);
    assert_eq!(BusTransaction::write(0, 0xFFE0, 0).ria_reg(), 0x00);
}

#[test]
fn read_and_write_constructors_set_direction() {
    let r = BusTransaction::read(7, 0xFFEC, 0);
    assert!(r.rw);
    assert_eq!(r.cycle, 7);
    let w = BusTransaction::write(8, 0x1234, 0x56);
    assert!(!w.rw);
    assert_eq!(w.data, 0x56);
    assert!(!BusTransaction::write(0, 0xFFDF, 0).hits_ria());
}
