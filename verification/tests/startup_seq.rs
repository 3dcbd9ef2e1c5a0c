use blinky::gpio::GpioPort;
use blinky::pins::{Level, PinMode, PortName};
use blinky::startup::{startup, Board, InitError, BLUE_PIN, GREEN_PIN, ORANGE_PIN, RED_PIN};

#[test]
fn startup_produces_initial_system() {
    let mut board = Board::new();
    let sys = startup(&mut board).unwrap();
    assert_eq!(sys.clocks.sysclk_hz(), 8_000_000);
    assert_eq!(sys.delay.cycles_per_ms(), 8_000);
    assert_eq!(sys.delay.request_count(), 0);
    assert!(!sys.ints.masked());
    for i in 0..4 {
        let id = sys.leds.id_at(i);
        assert_eq!(id.port, PortName::C);
        assert_eq!(sys.leds.level_at(i), Level::Low);
    }
    assert_eq!(sys.leds.id_at(0).pin, ORANGE_PIN);
    assert_eq!(sys.leds.id_at(1).pin, GREEN_PIN);
    assert_eq!(sys.leds.id_at(2).pin, RED_PIN);
    assert_eq!(sys.leds.id_at(3).pin, BLUE_PIN);
}

#[test]
fn configured_pins_are_push_pull_others_untouched() {
    let mut board = Board::new();
    let sys = startup(&mut board).unwrap();
    for pin in 0..16 {
        let mode = sys.port.observe(pin, &sys.ints);
        if pin == ORANGE_PIN || pin == GREEN_PIN || pin == RED_PIN || pin == BLUE_PIN {
            assert_eq!(mode, PinMode::PushPullOutput);
        } else {
            assert_eq!(mode, PinMode::Input);
        }
    }
}

#[test]
fn second_device_take_fails() {
    let mut board = Board::new();
    assert!(board.take_device().is_ok());
    let again = board.take_device();
    assert!(matches!(again, Err(InitError::AlreadyTaken)));
}

#[test]
fn second_core_take_fails() {
    let mut board = Board::new();
    assert!(board.take_core().is_ok());
    let again = board.take_core();
    assert!(matches!(again, Err(InitError::AlreadyTaken)));
}

#[test]
fn second_startup_fails() {
    let mut board = Board::new();
    assert!(startup(&mut board).is_ok());
    match startup(&mut board) {
        Err(InitError::AlreadyTaken) => {}
        Ok(_) => panic!("startup succeeded twice"),
    }
}

#[test]
fn pin_mode_transition_inside_critical_section() {
    // A simulated interrupt controller: interrupts are unmasked when the
    // core peripherals come out, the mode transition happens only while they
    // are masked, and the interrupt-visible view of the port afterwards
    // shows the completed transition and nothing else changed.
    let mut board = Board::new();
    let parts = board.take_device().unwrap();
    let core = board.take_core().unwrap();
    let clocks = parts.rcc.configure().sysclk_mhz(8).freeze();
    let mut port: GpioPort = parts.gpioc.split(&clocks);
    let mut ints = core.ints;
    assert!(!ints.masked());

    ints.mask();
    assert!(ints.masked());
    let line = port.configure_push_pull(RED_PIN, &ints);
    ints.unmask();
    assert!(!ints.masked());

    assert_eq!(line.level(), Level::Low);
    assert_eq!(line.id().pin, RED_PIN);
    assert_eq!(port.observe(RED_PIN, &ints), PinMode::PushPullOutput);
    for pin in 0..16 {
        if pin != RED_PIN {
            assert_eq!(port.observe(pin, &ints), PinMode::Input);
        }
    }
}
