//! The device handle and its operations.
//!
//! Each operation is stated twice: as a spec function that gives its writes
//! as a sequence, and as a method that builds the [`Transaction`] holding
//! exactly those writes. Staged values (PWM levels, channel enables,
//! breathing times) are always followed by the write to their latch.
use vstd::prelude::*;
use crate::registers::{
    DEFAULT_ADDRESS, LATCH_COMMIT, POWER_UP_DELAY_MS, REGISTER_CURRENT_SETTING,
    REGISTER_DATA_UPDATE, REGISTER_LED1_PWM, REGISTER_LED1_T0, REGISTER_LED1_T1T2,
    REGISTER_LED1_T3T4, REGISTER_LED2_PWM, REGISTER_LED2_T0, REGISTER_LED2_T1T2,
    REGISTER_LED2_T3T4, REGISTER_LED3_PWM, REGISTER_LED3_T0, REGISTER_LED3_T1T2,
    REGISTER_LED3_T3T4, REGISTER_LED_CONTROL, REGISTER_LED_MODE, REGISTER_RESET,
    REGISTER_SHUTDOWN, REGISTER_TIME_UPDATE, SETTLING_DELAY_MS, SHUTDOWN_WAKE,
};
use crate::settings::{
    enable_mask, pack_times, spec_enable_mask, spec_pack_times, BreathingHoldHighTime,
    BreathingHoldLowTime, BreathingIntroTime, BreathingRampDownTime, BreathingRampUpTime,
    CurrentSettings, LEDId, LEDModeSettings,
};
use crate::transaction::{BusWrite, Progress, Transaction};

verus! {

/// A write of one byte to one register, after the settling delay.
pub open spec fn register_write(address: u8, register: u8, value: u8) -> BusWrite {
    BusWrite { settle_ms: SETTLING_DELAY_MS, address, register, value: Some(value) }
}

/// The software reset: the reset register alone, once power has settled.
pub open spec fn reset_write(address: u8) -> BusWrite {
    BusWrite { settle_ms: POWER_UP_DELAY_MS, address, register: REGISTER_RESET, value: None }
}

/// The write that takes the device out of its power-on shutdown, once the
/// reset has settled: the shutdown register with the channel-enable bit and
/// the normal-operation bit both set.
pub open spec fn wake_write(address: u8) -> BusWrite {
    BusWrite {
        settle_ms: POWER_UP_DELAY_MS,
        address,
        register: REGISTER_SHUTDOWN,
        value: Some(SHUTDOWN_WAKE),
    }
}

/// The write that commits staged PWM levels and channel enables.
pub open spec fn data_latch_write(address: u8) -> BusWrite {
    register_write(address, REGISTER_DATA_UPDATE, LATCH_COMMIT)
}

/// The write that commits staged breathing times.
pub open spec fn time_latch_write(address: u8) -> BusWrite {
    register_write(address, REGISTER_TIME_UPDATE, LATCH_COMMIT)
}

/// The writes that select the operating mode.
pub open spec fn led_mode_writes(address: u8, mode: LEDModeSettings) -> Seq<BusWrite> {
    seq![register_write(address, REGISTER_LED_MODE, mode.spec_bits())]
}

/// The writes that set the current limit.
pub open spec fn current_writes(address: u8, current: CurrentSettings) -> Seq<BusWrite> {
    seq![register_write(address, REGISTER_CURRENT_SETTING, current.spec_bits())]
}

/// The writes that enable or disable the three channels: the mask, then the
/// data latch.
pub open spec fn enable_writes(address: u8, led1: bool, led2: bool, led3: bool) -> Seq<
    BusWrite,
> {
    seq![
        register_write(address, REGISTER_LED_CONTROL, spec_enable_mask(led1, led2, led3)),
        data_latch_write(address),
    ]
}

/// The writes that set the three PWM levels: channel 1, 2, 3, then the data
/// latch.
pub open spec fn pwm_writes(address: u8, led1: u8, led2: u8, led3: u8) -> Seq<BusWrite> {
    seq![
        register_write(address, REGISTER_LED1_PWM, led1),
        register_write(address, REGISTER_LED2_PWM, led2),
        register_write(address, REGISTER_LED3_PWM, led3),
        data_latch_write(address),
    ]
}

/// The T0 register of channel 1, 2 or 3.
pub open spec fn t0_register(channel: int) -> u8 {
    if channel == 1 {
        REGISTER_LED1_T0
    } else if channel == 2 {
        REGISTER_LED2_T0
    } else {
        REGISTER_LED3_T0
    }
}

/// The packed T1/T2 register of channel 1, 2 or 3.
pub open spec fn t1t2_register(channel: int) -> u8 {
    if channel == 1 {
        REGISTER_LED1_T1T2
    } else if channel == 2 {
        REGISTER_LED2_T1T2
    } else {
        REGISTER_LED3_T1T2
    }
}

/// The packed T3/T4 register of channel 1, 2 or 3.
pub open spec fn t3t4_register(channel: int) -> u8 {
    if channel == 1 {
        REGISTER_LED1_T3T4
    } else if channel == 2 {
        REGISTER_LED2_T3T4
    } else {
        REGISTER_LED3_T3T4
    }
}

/// The three time writes of one channel, in rising register order; none if
/// `led` does not select the channel.
pub open spec fn channel_time_writes(
    address: u8,
    led: LEDId,
    channel: int,
    t0: u8,
    t1t2: u8,
    t3t4: u8,
) -> Seq<BusWrite> {
    if led.spec_selects(channel) {
        seq![
            register_write(address, t0_register(channel), t0),
            register_write(address, t1t2_register(channel), t1t2),
            register_write(address, t3t4_register(channel), t3t4),
        ]
    } else {
        Seq::empty()
    }
}

/// The writes that set the breathing times: the selected channels in rising
/// order, each given the same three bytes, then the time latch.
pub open spec fn breathing_writes(
    address: u8,
    led: LEDId,
    intro: BreathingIntroTime,
    ramp_up: BreathingRampUpTime,
    hold_high: BreathingHoldHighTime,
    ramp_down: BreathingRampDownTime,
    hold_low: BreathingHoldLowTime,
) -> Seq<BusWrite> {
    let t0 = intro.spec_bits();
    let t1t2 = spec_pack_times(ramp_up.spec_bits(), hold_high.spec_bits());
    let t3t4 = spec_pack_times(ramp_down.spec_bits(), hold_low.spec_bits());
    channel_time_writes(address, led, 1, t0, t1t2, t3t4) + channel_time_writes(
        address,
        led,
        2,
        t0,
        t1t2,
        t3t4,
    ) + channel_time_writes(address, led, 3, t0, t1t2, t3t4) + seq![time_latch_write(address)]
}

/// The writes that bring the device up: reset, wake, PWM mode, the 17.5 mA
/// current limit, all channels enabled.
pub open spec fn init_writes(address: u8) -> Seq<BusWrite> {
    seq![reset_write(address), wake_write(address)] + led_mode_writes(
        address,
        LEDModeSettings::PWM,
    ) + current_writes(address, CurrentSettings::Current17p5mA) + enable_writes(
        address,
        true,
        true,
        true,
    )
}

/// Whether every one of `writes` goes to `address`.
pub open spec fn all_addressed_to(writes: Seq<BusWrite>, address: u8) -> bool {
    forall|i: int| 0 <= i < writes.len() ==> (#[trigger] writes[i]).address == address
}

/// A handle on one device: the bus address it was strapped to.
#[derive(Debug, Clone, Copy)]
pub struct SN3193Driver {
    address: u8,
}

impl SN3193Driver {
    /// The bus address every write of this handle goes to.
    pub closed spec fn spec_address(&self) -> u8 {
        self.address
    }

    /// The address of a device whose AD pin is tied to ground.
    pub fn default_address() -> (address: u8)
        ensures
            address == 0x68,
    {
        DEFAULT_ADDRESS
    }

    /// A handle on the device at the default address.
    pub fn new() -> (driver: Self)
        ensures
            driver.spec_address() == 0x68,
    {
        Self::new_with_address(Self::default_address())
    }

    /// A handle on the device at `address`. The device answers on 0x68,
    /// 0x69, 0x6A or 0x6B, as its AD pin is wired; any byte is taken as
    /// given.
    pub fn new_with_address(address: u8) -> (driver: Self)
        ensures
            driver.spec_address() == address,
    {
        Self { address }
    }

    /// The bus address every write of this handle goes to.
    pub fn address(&self) -> (address: u8)
        ensures
            address == self.spec_address(),
    {
        self.address
    }

    /// Brings the device up from power-on: reset, wake, PWM mode, the
    /// 17.5 mA current limit, all three channels enabled.
    pub fn init(&self) -> (t: Transaction)
        ensures
            t@ == Progress::fresh(init_writes(self.spec_address())),
            t@.wf(),
            all_addressed_to(t@.planned, self.spec_address()),
    {
        let mut writes: Vec<BusWrite> = Vec::new();
        writes.push(
            BusWrite {
                settle_ms: POWER_UP_DELAY_MS,
                address: self.address,
                register: REGISTER_RESET,
                value: None,
            },
        );
        writes.push(
            BusWrite {
                settle_ms: POWER_UP_DELAY_MS,
                address: self.address,
                register: REGISTER_SHUTDOWN,
                value: Some(SHUTDOWN_WAKE),
            },
        );
        self.queue_led_mode(&mut writes, LEDModeSettings::PWM);
        self.queue_current(&mut writes, CurrentSettings::Current17p5mA);
        self.queue_enable_leds(&mut writes, true, true, true);
        assert(writes@ =~= init_writes(self.address));
        Transaction::new(writes)
    }

    /// Selects what drives the channels: the PWM levels or the breathing
    /// cycle.
    pub fn set_led_mode(&self, mode: LEDModeSettings) -> (t: Transaction)
        ensures
            t@ == Progress::fresh(led_mode_writes(self.spec_address(), mode)),
            t@.wf(),
            all_addressed_to(t@.planned, self.spec_address()),
    {
        let mut writes: Vec<BusWrite> = Vec::new();
        self.queue_led_mode(&mut writes, mode);
        assert(writes@ =~= led_mode_writes(self.address, mode));
        Transaction::new(writes)
    }

    /// Sets the current limit of all channels.
    pub fn set_current(&self, current: CurrentSettings) -> (t: Transaction)
        ensures
            t@ == Progress::fresh(current_writes(self.spec_address(), current)),
            t@.wf(),
            all_addressed_to(t@.planned, self.spec_address()),
    {
        let mut writes: Vec<BusWrite> = Vec::new();
        self.queue_current(&mut writes, current);
        assert(writes@ =~= current_writes(self.address, current));
        Transaction::new(writes)
    }

    /// Enables or disables each of the three channels, and commits.
    pub fn enable_leds(&self, led1: bool, led2: bool, led3: bool) -> (t: Transaction)
        ensures
            t@ == Progress::fresh(enable_writes(self.spec_address(), led1, led2, led3)),
            t@.wf(),
            all_addressed_to(t@.planned, self.spec_address()),
    {
        let mut writes: Vec<BusWrite> = Vec::new();
        self.queue_enable_leds(&mut writes, led1, led2, led3);
        assert(writes@ =~= enable_writes(self.address, led1, led2, led3));
        Transaction::new(writes)
    }

    /// Sets the PWM level of each channel, 0 for off to 255 for full on, and
    /// commits.
    pub fn set_pwm_levels(&self, led1: u8, led2: u8, led3: u8) -> (t: Transaction)
        ensures
            t@ == Progress::fresh(pwm_writes(self.spec_address(), led1, led2, led3)),
            t@.wf(),
            all_addressed_to(t@.planned, self.spec_address()),
    {
        let mut writes: Vec<BusWrite> = Vec::new();
        self.queue_register(&mut writes, REGISTER_LED1_PWM, led1);
        self.queue_register(&mut writes, REGISTER_LED2_PWM, led2);
        self.queue_register(&mut writes, REGISTER_LED3_PWM, led3);
        self.load_register_data(&mut writes);
        assert(writes@ =~= pwm_writes(self.address, led1, led2, led3));
        Transaction::new(writes)
    }

    /// Sets the five breathing times of the channels that `led` selects,
    /// the same for each, and commits them with the time latch.
    pub fn set_breathing_times_for_led(
        &self,
        led: LEDId,
        intro: BreathingIntroTime,
        ramp_up: BreathingRampUpTime,
        hold_high: BreathingHoldHighTime,
        ramp_down: BreathingRampDownTime,
        hold_low: BreathingHoldLowTime,
    ) -> (t: Transaction)
        ensures
            t@ == Progress::fresh(
                breathing_writes(
                    self.spec_address(),
                    led,
                    intro,
                    ramp_up,
                    hold_high,
                    ramp_down,
                    hold_low,
                ),
            ),
            t@.wf(),
            t@.planned.len() == 3 * led.channel_count() + 1,
            all_addressed_to(t@.planned, self.spec_address()),
    {
        let t0_value: u8 = intro.bits();
        let t1t2_value: u8 = pack_times(ramp_up.bits(), hold_high.bits());
        let t3t4_value: u8 = pack_times(ramp_down.bits(), hold_low.bits());
        let mut writes: Vec<BusWrite> = Vec::new();
        if led.selects(1) {
            self.set_breathing_register(&mut writes, REGISTER_LED1_T0, t0_value);
            self.set_breathing_register(&mut writes, REGISTER_LED1_T1T2, t1t2_value);
            self.set_breathing_register(&mut writes, REGISTER_LED1_T3T4, t3t4_value);
        }
        if led.selects(2) {
            self.set_breathing_register(&mut writes, REGISTER_LED2_T0, t0_value);
            self.set_breathing_register(&mut writes, REGISTER_LED2_T1T2, t1t2_value);
            self.set_breathing_register(&mut writes, REGISTER_LED2_T3T4, t3t4_value);
        }
        if led.selects(3) {
            self.set_breathing_register(&mut writes, REGISTER_LED3_T0, t0_value);
            self.set_breathing_register(&mut writes, REGISTER_LED3_T1T2, t1t2_value);
            self.set_breathing_register(&mut writes, REGISTER_LED3_T3T4, t3t4_value);
        }
        self.load_register_time_data(&mut writes);
        assert(writes@ =~= breathing_writes(
            self.address,
            led,
            intro,
            ramp_up,
            hold_high,
            ramp_down,
            hold_low,
        ));
        Transaction::new(writes)
    }

    /// Appends one register write, with its settling delay.
    fn queue_register(&self, writes: &mut Vec<BusWrite>, register: u8, value: u8)
        ensures
            final(writes)@ == old(writes)@.push(
                register_write(self.spec_address(), register, value),
            ),
    {
        writes.push(
            BusWrite {
                settle_ms: SETTLING_DELAY_MS,
                address: self.address,
                register,
                value: Some(value),
            },
        );
    }

    /// Appends the mode write.
    fn queue_led_mode(&self, writes: &mut Vec<BusWrite>, mode: LEDModeSettings)
        ensures
            final(writes)@ == old(writes)@ + led_mode_writes(self.spec_address(), mode),
    {
        self.queue_register(writes, REGISTER_LED_MODE, mode.bits());
        assert(writes@ =~= old(writes)@ + led_mode_writes(self.address, mode));
    }

    /// Appends the current-limit write.
    fn queue_current(&self, writes: &mut Vec<BusWrite>, current: CurrentSettings)
        ensures
            final(writes)@ == old(writes)@ + current_writes(self.spec_address(), current),
    {
        self.queue_register(writes, REGISTER_CURRENT_SETTING, current.bits());
        assert(writes@ =~= old(writes)@ + current_writes(self.address, current));
    }

    /// Appends the channel-enable write and the data latch.
    fn queue_enable_leds(&self, writes: &mut Vec<BusWrite>, led1: bool, led2: bool, led3: bool)
        ensures
            final(writes)@ == old(writes)@ + enable_writes(
                self.spec_address(),
                led1,
                led2,
                led3,
            ),
    {
        let led_enable: u8 = enable_mask(led1, led2, led3);
        self.queue_register(writes, REGISTER_LED_CONTROL, led_enable);
        self.load_register_data(writes);
        assert(writes@ =~= old(writes)@ + enable_writes(self.address, led1, led2, led3));
    }

    /// Appends the data latch, which makes staged PWM levels and channel
    /// enables take effect.
    fn load_register_data(&self, writes: &mut Vec<BusWrite>)
        ensures
            final(writes)@ == old(writes)@.push(data_latch_write(self.spec_address())),
    {
        self.queue_register(writes, REGISTER_DATA_UPDATE, LATCH_COMMIT);
    }

    /// Appends the time latch, which makes staged breathing times take
    /// effect.
    fn load_register_time_data(&self, writes: &mut Vec<BusWrite>)
        ensures
            final(writes)@ == old(writes)@.push(time_latch_write(self.spec_address())),
    {
        self.queue_register(writes, REGISTER_TIME_UPDATE, LATCH_COMMIT);
    }

    /// Appends the write of one breathing-time register.
    fn set_breathing_register(&self, writes: &mut Vec<BusWrite>, register: u8, value: u8)
        ensures
            final(writes)@ == old(writes)@.push(
                register_write(self.spec_address(), register, value),
            ),
    {
        self.queue_register(writes, register, value);
    }
}

} // verus!
