use sn3193::registers::{
    SHUTDOWN_CHANNEL_ENABLE, SHUTDOWN_WAKE, SOFTWARE_SHUTDOWN_NORMAL,
};
use sn3193::settings::{enable_mask, pack_times};
use sn3193::{
    BreathingHoldHighTime, BreathingHoldLowTime, BreathingIntroTime, BreathingRampDownTime,
    BreathingRampUpTime, BusWrite, CurrentSettings, LEDId, LEDModeSettings, SN3193Driver,
};

#[test]
fn test_current_settings_into() {
    assert_eq!(CurrentSettings::Current42mA.bits(), 0b000_000_00);
    assert_eq!(CurrentSettings::Current10mA.bits(), 0b000_001_00);
    assert_eq!(CurrentSettings::Current5mA.bits(), 0b000_010_00);
    assert_eq!(CurrentSettings::Current30mA.bits(), 0b000_011_00);
    assert_eq!(CurrentSettings::Current17p5mA.bits(), 0b000_100_00);
}

#[test]
fn test_led_mode_settings_into() {
    assert_eq!(LEDModeSettings::PWM.bits(), 0b00_0_00000);
    assert_eq!(LEDModeSettings::Breathing.bits(), 0b00_1_00000);
}

#[test]
fn test_current_settings_as_hex() {
    assert_eq!(CurrentSettings::Current42mA.bits(), 0x00);
    assert_eq!(CurrentSettings::Current10mA.bits(), 0x04);
    assert_eq!(CurrentSettings::Current5mA.bits(), 0x08);
    assert_eq!(CurrentSettings::Current30mA.bits(), 0x0C);
    assert_eq!(CurrentSettings::Current17p5mA.bits(), 0x10);
    assert_eq!(LEDModeSettings::Breathing.bits(), 0x20);
}

#[test]
fn test_breathing_intro_time_bits() {
    assert_eq!(BreathingIntroTime::Time0s.bits(), 0b0000_0000);
    assert_eq!(BreathingIntroTime::Time0p13s.bits(), 0b0001_0000);
    assert_eq!(BreathingIntroTime::Time0p26s.bits(), 0b0010_0000);
    assert_eq!(BreathingIntroTime::Time0p52s.bits(), 0b0011_0000);
    assert_eq!(BreathingIntroTime::Time1p04s.bits(), 0b0100_0000);
    assert_eq!(BreathingIntroTime::Time2p08s.bits(), 0b0101_0000);
    assert_eq!(BreathingIntroTime::Time4p16s.bits(), 0b0110_0000);
    assert_eq!(BreathingIntroTime::Time8p32s.bits(), 0b0111_0000);
    assert_eq!(BreathingIntroTime::Time16p64s.bits(), 0b1000_0000);
    assert_eq!(BreathingIntroTime::Time33p28s.bits(), 0b1001_0000);
    assert_eq!(BreathingIntroTime::Time66p56s.bits(), 0b1010_0000);
}

#[test]
fn test_breathing_ramp_up_time_bits() {
    assert_eq!(BreathingRampUpTime::Time0p13s.bits(), 0b000_0000_0);
    assert_eq!(BreathingRampUpTime::Time0p26s.bits(), 0b001_0000_0);
    assert_eq!(BreathingRampUpTime::Time0p52s.bits(), 0b010_0000_0);
    assert_eq!(BreathingRampUpTime::Time1p04s.bits(), 0b011_0000_0);
    assert_eq!(BreathingRampUpTime::Time2p08s.bits(), 0b100_0000_0);
    assert_eq!(BreathingRampUpTime::Time4p16s.bits(), 0b101_0000_0);
    assert_eq!(BreathingRampUpTime::Time8p32s.bits(), 0b110_0000_0);
    assert_eq!(BreathingRampUpTime::Time16p64s.bits(), 0b111_0000_0);
}

#[test]
fn test_breathing_hold_high_time_bits() {
    assert_eq!(BreathingHoldHighTime::Time0s.bits(), 0b000_0000_0);
    assert_eq!(BreathingHoldHighTime::Time0p13s.bits(), 0b000_0001_0);
    assert_eq!(BreathingHoldHighTime::Time0p26s.bits(), 0b000_0010_0);
    assert_eq!(BreathingHoldHighTime::Time0p52s.bits(), 0b000_0011_0);
    assert_eq!(BreathingHoldHighTime::Time1p04s.bits(), 0b000_0100_0);
    assert_eq!(BreathingHoldHighTime::Time2p08s.bits(), 0b000_0101_0);
    assert_eq!(BreathingHoldHighTime::Time4p16s.bits(), 0b000_0110_0);
    assert_eq!(BreathingHoldHighTime::Time8p32s.bits(), 0b000_0111_0);
    assert_eq!(BreathingHoldHighTime::Time16p64s.bits(), 0b000_1000_0);
}

#[test]
fn test_breathing_ramp_down_time_bits() {
    assert_eq!(BreathingRampDownTime::Time0p13s.bits(), 0b000_0000_0);
    assert_eq!(BreathingRampDownTime::Time0p26s.bits(), 0b001_0000_0);
    assert_eq!(BreathingRampDownTime::Time0p52s.bits(), 0b010_0000_0);
    assert_eq!(BreathingRampDownTime::Time1p04s.bits(), 0b011_0000_0);
    assert_eq!(BreathingRampDownTime::Time2p08s.bits(), 0b100_0000_0);
    assert_eq!(BreathingRampDownTime::Time4p16s.bits(), 0b101_0000_0);
    assert_eq!(BreathingRampDownTime::Time8p32s.bits(), 0b110_0000_0);
    assert_eq!(BreathingRampDownTime::Time16p64s.bits(), 0b111_0000_0);
}

#[test]
fn test_breathing_hold_low_time_bits() {
    assert_eq!(BreathingHoldLowTime::Time0s.bits(), 0b000_0000_0);
    assert_eq!(BreathingHoldLowTime::Time0p13s.bits(), 0b000_0001_0);
    assert_eq!(BreathingHoldLowTime::Time0p26s.bits(), 0b000_0010_0);
    assert_eq!(BreathingHoldLowTime::Time0p52s.bits(), 0b000_0011_0);
    assert_eq!(BreathingHoldLowTime::Time1p04s.bits(), 0b000_0100_0);
    assert_eq!(BreathingHoldLowTime::Time2p08s.bits(), 0b000_0101_0);
    assert_eq!(BreathingHoldLowTime::Time4p16s.bits(), 0b000_0110_0);
    assert_eq!(BreathingHoldLowTime::Time8p32s.bits(), 0b000_0111_0);
    assert_eq!(BreathingHoldLowTime::Time16p64s.bits(), 0b000_1000_0);
    assert_eq!(BreathingHoldLowTime::Time33p28s.bits(), 0b000_1001_0);
    assert_eq!(BreathingHoldLowTime::Time66p56s.bits(), 0b000_1010_0);
}

#[test]
fn test_enable_mask_every_combination() {
    assert_eq!(enable_mask(false, false, false), 0b000);
    assert_eq!(enable_mask(true, false, false), 0b001);
    assert_eq!(enable_mask(false, true, false), 0b010);
    assert_eq!(enable_mask(true, true, false), 0b011);
    assert_eq!(enable_mask(false, false, true), 0b100);
    assert_eq!(enable_mask(true, false, true), 0b101);
    assert_eq!(enable_mask(false, true, true), 0b110);
    assert_eq!(enable_mask(true, true, true), 0b111);
}

#[test]
fn test_pack_times_keeps_both_fields() {
    let ramp = BreathingRampUpTime::Time4p16s.bits();
    let hold = BreathingHoldHighTime::Time1p04s.bits();
    assert_eq!(pack_times(ramp, hold), 0b101_0100_0);
    assert_eq!(pack_times(ramp, hold) & 0b1110_0000, ramp);
    assert_eq!(pack_times(ramp, hold) & 0b0001_1111, hold);
    assert_eq!(
        pack_times(
            BreathingRampDownTime::Time16p64s.bits(),
            BreathingHoldLowTime::Time66p56s.bits()
        ),
        0xF4
    );
    assert_eq!(pack_times(0x00, 0x00), 0x00);
}

#[test]
fn test_led_id_selects() {
    assert!(LEDId::LED1.selects(1));
    assert!(!LEDId::LED1.selects(2));
    assert!(!LEDId::LED1.selects(3));
    assert!(LEDId::LED2.selects(2));
    assert!(!LEDId::LED2.selects(1));
    assert!(LEDId::LED3.selects(3));
    assert!(!LEDId::LED3.selects(2));
    assert!(LEDId::ALL.selects(1));
    assert!(LEDId::ALL.selects(2));
    assert!(LEDId::ALL.selects(3));
    assert!(!LEDId::ALL.selects(0));
    assert!(!LEDId::ALL.selects(4));
}

#[test]
fn test_bus_write_bytes() {
    let with_value = BusWrite { settle_ms: 1, address: 0x68, register: 0x04, value: Some(0x80) };
    assert_eq!(with_value.bytes(), vec![0x04, 0x80]);
    let bare = BusWrite { settle_ms: 50, address: 0x68, register: 0x2F, value: None };
    assert_eq!(bare.bytes(), vec![0x2F]);
}

#[test]
fn test_addresses() {
    assert_eq!(SN3193Driver::default_address(), 0x68);
    assert_eq!(SN3193Driver::new().address(), 0x68);
    assert_eq!(SN3193Driver::new_with_address(0x69).address(), 0x69);
    assert_eq!(SN3193Driver::new_with_address(0x6A).address(), 0x6A);
    assert_eq!(SN3193Driver::new_with_address(0x6B).address(), 0x6B);
    assert_eq!(SN3193Driver::new_with_address(0x00).address(), 0x00);
}

#[test]
fn test_shutdown_wake_byte() {
    assert_eq!(SHUTDOWN_CHANNEL_ENABLE, 0x20);
    assert_eq!(SOFTWARE_SHUTDOWN_NORMAL, 0x01);
    assert_eq!(SHUTDOWN_WAKE, 0x21);
    assert_eq!(SHUTDOWN_WAKE & SHUTDOWN_CHANNEL_ENABLE, 0x20);
    assert_eq!(SHUTDOWN_WAKE & SOFTWARE_SHUTDOWN_NORMAL, 0x01);
}
