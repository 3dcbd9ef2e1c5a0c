use blinky::startup::{startup, Board};

#[test]
fn delay_cycles_at_8_mhz() {
    let mut board = Board::new();
    let mut sys = startup(&mut board).unwrap();
    // 8 MHz means 8,000 cycles per millisecond; a 20 ms wait spans
    // 8,000 x 20 = 160,000 cycles, and the call returns to the caller.
    assert_eq!(sys.delay.cycles_per_ms(), 8_000);
    let cycles = sys.delay.delay_ms(20);
    assert_eq!(cycles, 160_000);
    assert_eq!(sys.delay.request_count(), 1);
    assert_eq!(sys.delay.request_at(0), 20);
}

#[test]
fn delay_requests_are_recorded_in_order() {
    let mut board = Board::new();
    let mut sys = startup(&mut board).unwrap();
    sys.delay.delay_ms(20);
    sys.delay.delay_ms(5);
    sys.delay.delay_ms(0);
    assert_eq!(sys.delay.request_count(), 3);
    assert_eq!(sys.delay.request_at(0), 20);
    assert_eq!(sys.delay.request_at(1), 5);
    assert_eq!(sys.delay.request_at(2), 0);
}

#[test]
fn zero_milliseconds_is_zero_cycles() {
    let mut board = Board::new();
    let mut sys = startup(&mut board).unwrap();
    assert_eq!(sys.delay.delay_ms(0), 0);
}
