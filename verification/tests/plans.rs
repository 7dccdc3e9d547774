use sn3193::{
    BreathingHoldHighTime, BreathingHoldLowTime, BreathingIntroTime, BreathingRampDownTime,
    BreathingRampUpTime, BusWrite, CurrentSettings, LEDId, LEDModeSettings, SN3193Driver,
    SN3193Error, Transaction,
};

/// Performs a transaction on a bus that takes every write, and returns the
/// writes in the order they were handed out.
fn drain(mut t: Transaction) -> Vec<BusWrite> {
    let mut seen = Vec::new();
    while let Some(write) = t.current() {
        seen.push(write);
        t.report::<()>(Ok(())).unwrap();
    }
    assert!(t.is_complete());
    assert!(!t.is_aborted());
    seen
}

fn write(settle_ms: u32, address: u8, register: u8, value: u8) -> BusWrite {
    BusWrite { settle_ms, address, register, value: Some(value) }
}

#[test]
fn test_init_plan() {
    let writes = drain(SN3193Driver::new().init());
    assert_eq!(
        writes,
        vec![
            BusWrite { settle_ms: 50, address: 0x68, register: 0x2F, value: None },
            write(50, 0x68, 0x00, 0x21),
            write(1, 0x68, 0x02, 0x00),
            write(1, 0x68, 0x03, 0x10),
            write(1, 0x68, 0x1D, 0x07),
            write(1, 0x68, 0x07, 0xFF),
        ]
    );
}

#[test]
fn test_set_led_mode_plan() {
    assert_eq!(
        drain(SN3193Driver::new().set_led_mode(LEDModeSettings::Breathing)),
        vec![write(1, 0x68, 0x02, 0x20)]
    );
    assert_eq!(
        drain(SN3193Driver::new().set_led_mode(LEDModeSettings::PWM)),
        vec![write(1, 0x68, 0x02, 0x00)]
    );
}

#[test]
fn test_set_current_plan() {
    assert_eq!(
        drain(SN3193Driver::new().set_current(CurrentSettings::Current30mA)),
        vec![write(1, 0x68, 0x03, 0x0C)]
    );
}

#[test]
fn test_enable_leds_plan() {
    assert_eq!(
        drain(SN3193Driver::new().enable_leds(false, true, false)),
        vec![write(1, 0x68, 0x1D, 0b010), write(1, 0x68, 0x07, 0xFF)]
    );
    assert_eq!(
        drain(SN3193Driver::new().enable_leds(false, false, false)),
        vec![write(1, 0x68, 0x1D, 0b000), write(1, 0x68, 0x07, 0xFF)]
    );
}

#[test]
fn test_set_pwm_levels_plan_extremes() {
    assert_eq!(
        drain(SN3193Driver::new().set_pwm_levels(0, 255, 0)),
        vec![
            write(1, 0x68, 0x04, 0),
            write(1, 0x68, 0x05, 255),
            write(1, 0x68, 0x06, 0),
            write(1, 0x68, 0x07, 0xFF),
        ]
    );
    assert_eq!(
        drain(SN3193Driver::new().set_pwm_levels(255, 0, 255)),
        vec![
            write(1, 0x68, 0x04, 255),
            write(1, 0x68, 0x05, 0),
            write(1, 0x68, 0x06, 255),
            write(1, 0x68, 0x07, 0xFF),
        ]
    );
}

#[test]
fn test_breathing_plan_all_channels() {
    let writes = drain(SN3193Driver::new().set_breathing_times_for_led(
        LEDId::ALL,
        BreathingIntroTime::Time1p04s,
        BreathingRampUpTime::Time4p16s,
        BreathingHoldHighTime::Time1p04s,
        BreathingRampDownTime::Time4p16s,
        BreathingHoldLowTime::Time2p08s,
    ));
    assert_eq!(
        writes,
        vec![
            write(1, 0x68, 0x0A, 0x40),
            write(1, 0x68, 0x10, 0xA8),
            write(1, 0x68, 0x16, 0xAA),
            write(1, 0x68, 0x0B, 0x40),
            write(1, 0x68, 0x11, 0xA8),
            write(1, 0x68, 0x17, 0xAA),
            write(1, 0x68, 0x0C, 0x40),
            write(1, 0x68, 0x12, 0xA8),
            write(1, 0x68, 0x18, 0xAA),
            write(1, 0x68, 0x1C, 0xFF),
        ]
    );
}

#[test]
fn test_breathing_plan_single_channels() {
    let driver = SN3193Driver::new_with_address(0x69);
    let first = drain(driver.set_breathing_times_for_led(
        LEDId::LED1,
        BreathingIntroTime::Time0s,
        BreathingRampUpTime::Time0p13s,
        BreathingHoldHighTime::Time0s,
        BreathingRampDownTime::Time0p13s,
        BreathingHoldLowTime::Time0s,
    ));
    assert_eq!(
        first,
        vec![
            write(1, 0x69, 0x0A, 0x00),
            write(1, 0x69, 0x10, 0x00),
            write(1, 0x69, 0x16, 0x00),
            write(1, 0x69, 0x1C, 0xFF),
        ]
    );
    let second = drain(driver.set_breathing_times_for_led(
        LEDId::LED2,
        BreathingIntroTime::Time66p56s,
        BreathingRampUpTime::Time16p64s,
        BreathingHoldHighTime::Time16p64s,
        BreathingRampDownTime::Time16p64s,
        BreathingHoldLowTime::Time66p56s,
    ));
    assert_eq!(
        second,
        vec![
            write(1, 0x69, 0x0B, 0xA0),
            write(1, 0x69, 0x11, 0xF0),
            write(1, 0x69, 0x17, 0xF4),
            write(1, 0x69, 0x1C, 0xFF),
        ]
    );
    let third = drain(driver.set_breathing_times_for_led(
        LEDId::LED3,
        BreathingIntroTime::Time0p13s,
        BreathingRampUpTime::Time0p26s,
        BreathingHoldHighTime::Time0p13s,
        BreathingRampDownTime::Time0p52s,
        BreathingHoldLowTime::Time0p26s,
    ));
    assert_eq!(
        third,
        vec![
            write(1, 0x69, 0x0C, 0x10),
            write(1, 0x69, 0x12, 0x22),
            write(1, 0x69, 0x18, 0x44),
            write(1, 0x69, 0x1C, 0xFF),
        ]
    );
}

#[test]
fn test_every_write_goes_to_the_chosen_address() {
    let driver = SN3193Driver::new_with_address(0x6B);
    let mut all = drain(driver.init());
    all.extend(drain(driver.set_led_mode(LEDModeSettings::Breathing)));
    all.extend(drain(driver.set_current(CurrentSettings::Current5mA)));
    all.extend(drain(driver.enable_leds(true, false, true)));
    all.extend(drain(driver.set_pwm_levels(1, 2, 3)));
    all.extend(drain(driver.set_breathing_times_for_led(
        LEDId::ALL,
        BreathingIntroTime::Time0s,
        BreathingRampUpTime::Time1p04s,
        BreathingHoldHighTime::Time0s,
        BreathingRampDownTime::Time1p04s,
        BreathingHoldLowTime::Time0s,
    )));
    assert_eq!(all.len(), 6 + 1 + 1 + 2 + 4 + 10);
    for write in all {
        assert_eq!(write.address, 0x6B);
        assert_ne!(write.address, 0x68);
    }
}

#[test]
fn test_transaction_steps_through_its_writes() {
    let first = write(1, 0x68, 0x04, 9);
    let second = write(1, 0x68, 0x07, 0xFF);
    let mut t = Transaction::new(vec![first, second]);
    assert_eq!(t.current(), Some(first));
    assert!(!t.is_complete());
    assert!(t.report::<u8>(Ok(())).is_ok());
    assert_eq!(t.current(), Some(second));
    assert!(!t.is_complete());
    assert!(t.report::<u8>(Ok(())).is_ok());
    assert_eq!(t.current(), None);
    assert!(t.is_complete());
    assert!(!t.is_aborted());
    assert!(t.report::<u8>(Ok(())).is_ok());
    assert_eq!(t.current(), None);
    assert!(t.is_complete());
}

#[test]
fn test_transaction_stops_at_the_first_failure() {
    let mut t = SN3193Driver::new().set_pwm_levels(10, 20, 30);
    assert_eq!(t.current(), Some(write(1, 0x68, 0x04, 10)));
    assert!(t.report::<u8>(Ok(())).is_ok());
    assert_eq!(t.current(), Some(write(1, 0x68, 0x05, 20)));
    let failed = t.report(Err(7u8));
    assert!(matches!(failed, Err(SN3193Error::I2CError(7u8))));
    assert_eq!(t.current(), None);
    assert!(t.is_aborted());
    assert!(!t.is_complete());
    assert!(t.report::<u8>(Ok(())).is_ok());
    assert_eq!(t.current(), None);
    assert!(t.is_aborted());
    assert!(!t.is_complete());
}

#[test]
fn test_transaction_failure_at_the_first_write() {
    let mut t = SN3193Driver::new().init();
    let failed = t.report(Err("nack"));
    assert!(matches!(failed, Err(SN3193Error::I2CError("nack"))));
    assert_eq!(t.current(), None);
    assert!(t.is_aborted());
}

#[test]
fn test_empty_transaction_is_complete() {
    let mut t = Transaction::new(Vec::new());
    assert_eq!(t.current(), None);
    assert!(t.is_complete());
    let passed_on = t.report(Err(3u8));
    assert!(matches!(passed_on, Err(SN3193Error::I2CError(3u8))));
    assert!(t.is_complete());
    assert!(!t.is_aborted());
}
