//! The device's register map, the fixed bytes written to it, and the delays
//! the write protocol observes.
use vstd::prelude::*;

verus! {

/// Shutdown / enable control.
pub const REGISTER_SHUTDOWN: u8 = 0x00;

/// Breathing control. No operation of this driver writes it.
pub const REGISTER_BREATHING_CONTROL: u8 = 0x01;

/// Mode select: static PWM or the breathing cycle.
pub const REGISTER_LED_MODE: u8 = 0x02;

/// Global current limit.
pub const REGISTER_CURRENT_SETTING: u8 = 0x03;

/// PWM level of channel 1.
pub const REGISTER_LED1_PWM: u8 = 0x04;

/// PWM level of channel 2.
pub const REGISTER_LED2_PWM: u8 = 0x05;

/// PWM level of channel 3.
pub const REGISTER_LED3_PWM: u8 = 0x06;

/// Data latch: commits staged PWM levels and channel enables.
pub const REGISTER_DATA_UPDATE: u8 = 0x07;

/// Breathing intro time (T0) of channel 1.
pub const REGISTER_LED1_T0: u8 = 0x0A;

/// Breathing intro time (T0) of channel 2.
pub const REGISTER_LED2_T0: u8 = 0x0B;

/// Breathing intro time (T0) of channel 3.
pub const REGISTER_LED3_T0: u8 = 0x0C;

/// Ramp-up and hold-high times (T1, T2) of channel 1, packed in one byte.
pub const REGISTER_LED1_T1T2: u8 = 0x10;

/// Ramp-up and hold-high times (T1, T2) of channel 2, packed in one byte.
pub const REGISTER_LED2_T1T2: u8 = 0x11;

/// Ramp-up and hold-high times (T1, T2) of channel 3, packed in one byte.
pub const REGISTER_LED3_T1T2: u8 = 0x12;

/// Ramp-down and hold-low times (T3, T4) of channel 1, packed in one byte.
pub const REGISTER_LED1_T3T4: u8 = 0x16;

/// Ramp-down and hold-low times (T3, T4) of channel 2, packed in one byte.
pub const REGISTER_LED2_T3T4: u8 = 0x17;

/// Ramp-down and hold-low times (T3, T4) of channel 3, packed in one byte.
pub const REGISTER_LED3_T3T4: u8 = 0x18;

/// Time latch: commits staged breathing times.
pub const REGISTER_TIME_UPDATE: u8 = 0x1C;

/// Channel enable control.
pub const REGISTER_LED_CONTROL: u8 = 0x1D;

/// Software reset.
pub const REGISTER_RESET: u8 = 0x2F;

/// Shutdown register, bit 5: the output channels are enabled.
pub const SHUTDOWN_CHANNEL_ENABLE: u8 = 0x20;

/// Shutdown register, bit 5 clear: the output channels are disabled.
pub const SHUTDOWN_CHANNEL_DISABLE: u8 = 0x00;

/// Shutdown register, bit 0 clear: software shutdown, the state the device
/// powers on in.
pub const SOFTWARE_SHUTDOWN_MODE: u8 = 0x00;

/// Shutdown register, bit 0: normal operation.
pub const SOFTWARE_SHUTDOWN_NORMAL: u8 = 0x01;

/// The shutdown register's byte that brings the device up: channels
/// enabled and normal operation, both bits set.
pub const SHUTDOWN_WAKE: u8 = SHUTDOWN_CHANNEL_ENABLE | SOFTWARE_SHUTDOWN_NORMAL;

/// The byte that either latch register takes to commit staged values.
pub const LATCH_COMMIT: u8 = 0xFF;

/// The address the device answers on when its AD pin is tied to ground.
pub const DEFAULT_ADDRESS: u8 = 0x68;

/// Milliseconds to wait before every register write. The datasheet does not
/// ask for it; in practice the device misses writes without it.
pub const SETTLING_DELAY_MS: u32 = 1;

/// Milliseconds to wait for power to settle, before and after the reset.
pub const POWER_UP_DELAY_MS: u32 = 50;

/// The byte that brings the device up is 0x21: the channel-enable bit and
/// the normal-operation bit, and no other.
pub proof fn lemma_shutdown_wake_bits()
    ensures
        SHUTDOWN_WAKE == 0x21,
        SHUTDOWN_WAKE & SHUTDOWN_CHANNEL_ENABLE == SHUTDOWN_CHANNEL_ENABLE,
        SHUTDOWN_WAKE & SOFTWARE_SHUTDOWN_NORMAL == SOFTWARE_SHUTDOWN_NORMAL,
{
    assert(0x20u8 | 0x01u8 == 0x21u8) by (bit_vector);
    assert(0x21u8 & 0x20u8 == 0x20u8) by (bit_vector);
    assert(0x21u8 & 0x01u8 == 0x01u8) by (bit_vector);
}

} // verus!
