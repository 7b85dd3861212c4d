use rp6502_emu::test_harness::{generate_test_trace, TestMode};

#[test]
fn test_all_modes_produce_traces() {
    for mode in TestMode::all().iter() {
        let trace = generate_test_trace(*mode);
        assert!(trace.len() > 100, "Mode {:?} produced too few transactions", mode);
    }
}

#[test]
fn test_trace_ends_with_exit() {
    for mode in TestMode::all().iter() {
        let trace = generate_test_trace(*mode);
        let last = trace.last().unwrap();
        assert_eq!(last.addr, 0xFFEF, "Mode {:?} missing exit", mode);
        assert_eq!(last.data, 0xFF, "Mode {:?} wrong exit opcode", mode);
    }
}

#[test]
fn test_mono320x240_pixel_count() {
    let trace = generate_test_trace(TestMode::Mono320x240);
    let rw0_writes = trace.iter().filter(|t| t.addr == 0xFFE4).count();
    assert_eq!(rw0_writes, 14 + 9600);
}

#[test]
fn test_mono640x480_pixel_count() {
    let trace = generate_test_trace(TestMode::Mono640x480);
    let rw0_writes = trace.iter().filter(|t| t.addr == 0xFFE4).count();
    assert_eq!(rw0_writes, 14 + 38400);
}

#[test]
fn test_mode_from_str() {
    assert!(matches!("mono640x480".parse::<TestMode>(), Ok(TestMode::Mono640x480)));
    assert!(matches!("color8bpp320x180".parse::<TestMode>(), Ok(TestMode::Color8bpp320x180)));
    assert!(matches!("color16bpp320".parse::<TestMode>(), Ok(TestMode::Color16bpp320)));
    assert!("invalid".parse::<TestMode>().is_err());
}

#[test]
fn test_color16bpp_partial_height() {
    let trace = generate_test_trace(TestMode::Color16bpp320);
    let rw0_writes = trace.iter().filter(|t| t.addr == 0xFFE4).count();
    assert_eq!(rw0_writes, 14 + 102 * 640);
}

#[test]
fn mode_names_round_trip() {
    for mode in TestMode::all().iter() {
        assert_eq!(mode.name().parse::<TestMode>(), Ok(*mode));
    }
    assert_eq!(TestMode::all().len(), 15);
}

#[test]
fn traces_have_non_decreasing_cycles() {
    for mode in TestMode::all().iter() {
        let trace = generate_test_trace(*mode);
        assert!(trace.windows(2).all(|w| w[0].cycle <= w[1].cycle));
    }
}
