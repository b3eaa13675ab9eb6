use registers::bsrr::{replay, BsrrMock};
use registers::regmap::GPIOE_BSRR;

#[test]
fn set_then_clear_each_bit() {
    for b in 0..16u32 {
        let mut m = BsrrMock::new(GPIOE_BSRR, 0x1234);
        m.set_bits(GPIOE_BSRR, 1 << b);
        m.clear_bits(GPIOE_BSRR, 1 << b);
        let v = m.read_value();
        assert_eq!(v & (1 << b), 0);
        assert_eq!(v & !(1 << b), 0x1234 & !(1 << b));
    }
}

#[test]
fn store_log_records_each_store() {
    let mut m = BsrrMock::new(GPIOE_BSRR, 0);
    m.set_bits(GPIOE_BSRR, 1 << 9);
    m.clear_bits(GPIOE_BSRR, 1 << 25);
    m.set_bits(GPIOE_BSRR, 1 << 11);
    let log = m.store_log();
    assert_eq!(log.len(), 3);
    assert_eq!(log[0], 1 << 9);
    assert_eq!(log[1], 1 << 25);
    assert_eq!(log[2], 1 << 11);
}

#[test]
fn set_twice_is_idempotent() {
    let mut m = BsrrMock::new(GPIOE_BSRR, 0);
    m.set_bits(GPIOE_BSRR, 0x00F3);
    m.set_bits(GPIOE_BSRR, 0x00F3);
    assert_eq!(m.read_value(), 0x00F3);

    let mut once = BsrrMock::new(GPIOE_BSRR, 0x0400);
    once.set_bits(GPIOE_BSRR, 0x00F3);
    let mut twice = BsrrMock::new(GPIOE_BSRR, 0x0400);
    twice.set_bits(GPIOE_BSRR, 0x00F3);
    twice.set_bits(GPIOE_BSRR, 0x00F3);
    assert_eq!(once.read_value(), twice.read_value());
}

#[test]
fn set_then_clear_round_trip() {
    let mut m = BsrrMock::new(GPIOE_BSRR, 0);
    m.set_bits(GPIOE_BSRR, 1 << 9);
    m.clear_bits(GPIOE_BSRR, 1 << (9 + 16));
    assert_eq!(m.read_value(), 0x0000_0000);
}

#[test]
fn north_and_east_led_scenario() {
    let mut m = BsrrMock::new(GPIOE_BSRR, 0x0000_0000);
    m.set_bits(GPIOE_BSRR, (1 << 9) | (1 << 11));
    assert_eq!(m.read_value(), 0x0000_0A00);
    m.clear_bits(GPIOE_BSRR, (1 << 25) | (1 << 27));
    assert_eq!(m.read_value(), 0x0000_0000);
}

#[test]
fn set_wins_over_clear_in_one_store() {
    let mut m = BsrrMock::new(GPIOE_BSRR, 0);
    m.store(GPIOE_BSRR, (1 << 3) | (1 << 19));
    assert_eq!(m.read_value(), 1 << 3);
}

#[test]
fn writing_zero_changes_nothing() {
    let mut m = BsrrMock::new(GPIOE_BSRR, 0x00A5);
    m.store(GPIOE_BSRR, 0);
    assert_eq!(m.read_value(), 0x00A5);
    assert_eq!(m.store_log().len(), 1);
}

#[test]
fn replay_recomputes_the_state() {
    let mut m = BsrrMock::new(GPIOE_BSRR, 0x0003);
    m.set_bits(GPIOE_BSRR, 1 << 14);
    m.clear_bits(GPIOE_BSRR, 1 << 1);
    m.store(GPIOE_BSRR, (1 << 5) | (1 << 16));
    assert_eq!(replay(m.initial_value(), m.store_log()), m.read_value());
    assert_eq!(m.read_value(), (0x0003 | (1 << 14) | (1 << 5)) & !(1 << 1) & !1);
}

#[test]
fn fresh_region_reads_its_initial_state() {
    let m = BsrrMock::new(GPIOE_BSRR, 0x0042);
    assert_eq!(m.address(), 0x4800_1018);
    assert_eq!(m.initial_value(), 0x0042);
    assert_eq!(m.read_value(), 0x0042);
    assert!(m.store_log().is_empty());
}
