use ringlight::animation::FRAME_LEN;
use ringlight::bootstrap::{bootstrap, BootError, LedPair, BUS_WINDOW};
use ringlight::color::{Color, Palette};
use ringlight::encoder::BYTES_PER_COLOR;
use ringlight::scheduler::{TaskState, IDLE_PRIORITY};

#[test]
fn boot_succeeds_with_all_peripherals() {
    let palette = Palette::stock();
    let board = bootstrap(true, true, &palette).unwrap();
    assert_eq!(board.scheduler.running(), TaskState::Idle);
    assert_eq!(board.scheduler.current_priority(), IDLE_PRIORITY);
    assert_eq!(board.engine.frame().len(), FRAME_LEN);
    assert_eq!(board.engine.frame().as_colors()[0], Color::new(0x60, 0, 0));
    assert_eq!(board.bus.queued_len(), 0);
    assert_eq!(board.bus.window(), BUS_WINDOW);
    assert_eq!(BUS_WINDOW, FRAME_LEN * BYTES_PER_COLOR);
    assert!(!board.leds.is_on());
}

#[test]
fn boot_halts_without_device_peripherals() {
    let palette = Palette::stock();
    match bootstrap(false, true, &palette) {
        Err(BootError::PeripheralsUnavailable) => {}
        Ok(_) => panic!("boot must fail without the device peripherals"),
    }
}

#[test]
fn boot_halts_without_core_peripherals() {
    let palette = Palette::stock();
    assert!(matches!(
        bootstrap(true, false, &palette),
        Err(BootError::PeripheralsUnavailable)
    ));
    assert!(matches!(
        bootstrap(false, false, &palette),
        Err(BootError::PeripheralsUnavailable)
    ));
}

#[test]
fn led_pair_toggles_in_lockstep() {
    let mut leds = LedPair::new();
    assert!(!leds.is_on());
    leds.toggle();
    assert!(leds.is_on());
    leds.toggle();
    assert!(!leds.is_on());
}
