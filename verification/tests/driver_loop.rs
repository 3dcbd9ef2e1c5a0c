use blinky::driver::{Driver, DELAY_MS};
use blinky::pins::Level;
use blinky::startup::{startup, Board};

#[test]
fn selection_cycles_through_all_four() {
    let mut board = Board::new();
    let mut sys = startup(&mut board).unwrap();
    let mut driver = Driver::new();
    let mut seen = [false; 4];
    for k in 0..4 {
        let i = driver.selected();
        assert_eq!(i, k);
        seen[i] = true;
        driver.step(&mut sys.leds, &mut sys.delay);
    }
    assert_eq!(seen, [true, true, true, true]);
    // The next four iterations select the same positions again.
    for k in 0..4 {
        assert_eq!(driver.selected(), k);
        driver.step(&mut sys.leds, &mut sys.delay);
    }
}

#[test]
fn selection_cycles_from_any_start() {
    let mut board = Board::new();
    let mut sys = startup(&mut board).unwrap();
    let mut driver = Driver::with_counter(6);
    let expected = [2, 3, 0, 1];
    for k in 0..4 {
        assert_eq!(driver.selected(), expected[k]);
        driver.step(&mut sys.leds, &mut sys.delay);
    }
}

#[test]
fn first_iteration_toggles_orange() {
    let mut board = Board::new();
    let mut sys = startup(&mut board).unwrap();
    let mut driver = Driver::new();
    let cycles = driver.step(&mut sys.leds, &mut sys.delay);
    assert_eq!(sys.leds.level_at(0), Level::High);
    assert_eq!(sys.leds.level_at(1), Level::Low);
    assert_eq!(sys.leds.level_at(2), Level::Low);
    assert_eq!(sys.leds.level_at(3), Level::Low);
    assert_eq!(driver.counter(), 1);
    assert_eq!(sys.delay.request_count(), 1);
    assert_eq!(sys.delay.request_at(0), DELAY_MS);
    assert_eq!(DELAY_MS, 20);
    assert_eq!(cycles, 160_000);
}

#[test]
fn eight_iterations_toggle_every_led_twice() {
    let mut board = Board::new();
    let mut sys = startup(&mut board).unwrap();
    let mut driver = Driver::new();
    driver.run(&mut sys.leds, &mut sys.delay, 8);
    for i in 0..4 {
        assert_eq!(sys.leds.level_at(i), Level::Low);
    }
    assert_eq!(driver.counter(), 8);
    assert_eq!(sys.delay.request_count(), 8);
    for r in 0..8 {
        assert_eq!(sys.delay.request_at(r), 20);
    }
}

#[test]
fn four_iterations_toggle_every_led_once() {
    let mut board = Board::new();
    let mut sys = startup(&mut board).unwrap();
    let mut driver = Driver::new();
    driver.run(&mut sys.leds, &mut sys.delay, 4);
    for i in 0..4 {
        assert_eq!(sys.leds.level_at(i), Level::High);
    }
    assert_eq!(driver.counter(), 4);
}

#[test]
fn counter_wraps_and_selection_stays_cyclic() {
    let mut board = Board::new();
    let mut sys = startup(&mut board).unwrap();
    let mut driver = Driver::with_counter(u64::MAX);
    assert_eq!(driver.selected(), 3);
    driver.step(&mut sys.leds, &mut sys.delay);
    assert_eq!(driver.counter(), 0);
    assert_eq!(driver.selected(), 0);
    assert_eq!(sys.leds.level_at(3), Level::High);
}

#[test]
fn toggle_twice_restores_level() {
    let mut board = Board::new();
    let mut sys = startup(&mut board).unwrap();
    assert_eq!(sys.leds.level_at(2), Level::Low);
    sys.leds.toggle_at(2).unwrap();
    assert_eq!(sys.leds.level_at(2), Level::High);
    sys.leds.toggle_at(2).unwrap();
    assert_eq!(sys.leds.level_at(2), Level::Low);
    // Identity is untouched by toggling.
    assert_eq!(sys.leds.id_at(2).pin, 6);
}
