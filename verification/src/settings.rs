//! The device's enumerated settings and the byte each one stands for.
//!
//! Every setting is a closed set of variants; `spec_bits` is the table from
//! variant to bit pattern, and `bits` computes the same byte.
use vstd::prelude::*;

verus! {

/// The global current limit, which the device applies to every channel's PWM
/// level.
#[derive(Debug, Clone, Copy, PartialEq, Eq, Structural)]
pub enum CurrentSettings {
    /// 42 mA.
    Current42mA,
    /// 10 mA.
    Current10mA,
    /// 5 mA.
    Current5mA,
    /// 30 mA.
    Current30mA,
    /// 17.5 mA.
    Current17p5mA,
}

impl CurrentSettings {
    /// The current-limit register's byte for this setting.
    pub open spec fn spec_bits(self) -> u8 {
        match self {
            CurrentSettings::Current42mA => 0b000_000_00u8,
            CurrentSettings::Current10mA => 0b000_001_00u8,
            CurrentSettings::Current5mA => 0b000_010_00u8,
            CurrentSettings::Current30mA => 0b000_011_00u8,
            CurrentSettings::Current17p5mA => 0b000_100_00u8,
        }
    }

    /// The current-limit register's byte for this setting.
    pub fn bits(self) -> (b: u8)
        ensures
            b == self.spec_bits(),
    {
        match self {
            CurrentSettings::Current42mA => 0b000_000_00,
            CurrentSettings::Current10mA => 0b000_001_00,
            CurrentSettings::Current5mA => 0b000_010_00,
            CurrentSettings::Current30mA => 0b000_011_00,
            CurrentSettings::Current17p5mA => 0b000_100_00,
        }
    }
}

/// What drives the channels' brightness.
#[derive(Debug, Clone, Copy, PartialEq, Eq, Structural)]
pub enum LEDModeSettings {
    /// The static PWM level registers.
    PWM,
    /// The device's own breathing cycle.
    Breathing,
}

impl LEDModeSettings {
    /// The mode register's byte for this mode.
    pub open spec fn spec_bits(self) -> u8 {
        match self {
            LEDModeSettings::PWM => 0b00_0_00000u8,
            LEDModeSettings::Breathing => 0b00_1_00000u8,
        }
    }

    /// The mode register's byte for this mode.
    pub fn bits(self) -> (b: u8)
        ensures
            b == self.spec_bits(),
    {
        match self {
            LEDModeSettings::PWM => 0b00_0_00000,
            LEDModeSettings::Breathing => 0b00_1_00000,
        }
    }
}

/// The time before a breathing cycle starts (T0).
#[derive(Debug, Clone, Copy, PartialEq, Eq, Structural)]
pub enum BreathingIntroTime {
    /// 0 s.
    Time0s,
    /// 0.13 s.
    Time0p13s,
    /// 0.26 s.
    Time0p26s,
    /// 0.52 s.
    Time0p52s,
    /// 1.04 s.
    Time1p04s,
    /// 2.08 s.
    Time2p08s,
    /// 4.16 s.
    Time4p16s,
    /// 8.32 s.
    Time8p32s,
    /// 16.64 s.
    Time16p64s,
    /// 33.28 s.
    Time33p28s,
    /// 66.56 s.
    Time66p56s,
}

impl BreathingIntroTime {
    /// This time as it stands in a T0 register: bits 7 to 4.
    pub open spec fn spec_bits(self) -> u8 {
        match self {
            BreathingIntroTime::Time0s => 0b0000_0000u8,
            BreathingIntroTime::Time0p13s => 0b0001_0000u8,
            BreathingIntroTime::Time0p26s => 0b0010_0000u8,
            BreathingIntroTime::Time0p52s => 0b0011_0000u8,
            BreathingIntroTime::Time1p04s => 0b0100_0000u8,
            BreathingIntroTime::Time2p08s => 0b0101_0000u8,
            BreathingIntroTime::Time4p16s => 0b0110_0000u8,
            BreathingIntroTime::Time8p32s => 0b0111_0000u8,
            BreathingIntroTime::Time16p64s => 0b1000_0000u8,
            BreathingIntroTime::Time33p28s => 0b1001_0000u8,
            BreathingIntroTime::Time66p56s => 0b1010_0000u8,
        }
    }

    /// This time as it stands in a T0 register: bits 7 to 4.
    pub fn bits(self) -> (b: u8)
        ensures
            b == self.spec_bits(),
    {
        match self {
            BreathingIntroTime::Time0s => 0b0000_0000,
            BreathingIntroTime::Time0p13s => 0b0001_0000,
            BreathingIntroTime::Time0p26s => 0b0010_0000,
            BreathingIntroTime::Time0p52s => 0b0011_0000,
            BreathingIntroTime::Time1p04s => 0b0100_0000,
            BreathingIntroTime::Time2p08s => 0b0101_0000,
            BreathingIntroTime::Time4p16s => 0b0110_0000,
            BreathingIntroTime::Time8p32s => 0b0111_0000,
            BreathingIntroTime::Time16p64s => 0b1000_0000,
            BreathingIntroTime::Time33p28s => 0b1001_0000,
            BreathingIntroTime::Time66p56s => 0b1010_0000,
        }
    }
}

/// The time the brightness takes to rise from low to high (T1).
#[derive(Debug, Clone, Copy, PartialEq, Eq, Structural)]
pub enum BreathingRampUpTime {
    /// 0.13 s.
    Time0p13s,
    /// 0.26 s.
    Time0p26s,
    /// 0.52 s.
    Time0p52s,
    /// 1.04 s.
    Time1p04s,
    /// 2.08 s.
    Time2p08s,
    /// 4.16 s.
    Time4p16s,
    /// 8.32 s.
    Time8p32s,
    /// 16.64 s.
    Time16p64s,
}

impl BreathingRampUpTime {
    /// This time as it stands in a T1/T2 register: bits 7 to 5.
    pub open spec fn spec_bits(self) -> u8 {
        match self {
            BreathingRampUpTime::Time0p13s => 0b000_0000_0u8,
            BreathingRampUpTime::Time0p26s => 0b001_0000_0u8,
            BreathingRampUpTime::Time0p52s => 0b010_0000_0u8,
            BreathingRampUpTime::Time1p04s => 0b011_0000_0u8,
            BreathingRampUpTime::Time2p08s => 0b100_0000_0u8,
            BreathingRampUpTime::Time4p16s => 0b101_0000_0u8,
            BreathingRampUpTime::Time8p32s => 0b110_0000_0u8,
            BreathingRampUpTime::Time16p64s => 0b111_0000_0u8,
        }
    }

    /// This time as it stands in a T1/T2 register: bits 7 to 5.
    pub fn bits(self) -> (b: u8)
        ensures
            b == self.spec_bits(),
    {
        match self {
            BreathingRampUpTime::Time0p13s => 0b000_0000_0,
            BreathingRampUpTime::Time0p26s => 0b001_0000_0,
            BreathingRampUpTime::Time0p52s => 0b010_0000_0,
            BreathingRampUpTime::Time1p04s => 0b011_0000_0,
            BreathingRampUpTime::Time2p08s => 0b100_0000_0,
            BreathingRampUpTime::Time4p16s => 0b101_0000_0,
            BreathingRampUpTime::Time8p32s => 0b110_0000_0,
            BreathingRampUpTime::Time16p64s => 0b111_0000_0,
        }
    }
}

/// The time the high brightness is held (T2).
#[derive(Debug, Clone, Copy, PartialEq, Eq, Structural)]
pub enum BreathingHoldHighTime {
    /// 0 s.
    Time0s,
    /// 0.13 s.
    Time0p13s,
    /// 0.26 s.
    Time0p26s,
    /// 0.52 s.
    Time0p52s,
    /// 1.04 s.
    Time1p04s,
    /// 2.08 s.
    Time2p08s,
    /// 4.16 s.
    Time4p16s,
    /// 8.32 s.
    Time8p32s,
    /// 16.64 s.
    Time16p64s,
}

impl BreathingHoldHighTime {
    /// This time as it stands in a T1/T2 register: bits 4 to 1.
    pub open spec fn spec_bits(self) -> u8 {
        match self {
            BreathingHoldHighTime::Time0s => 0b000_0000_0u8,
            BreathingHoldHighTime::Time0p13s => 0b000_0001_0u8,
            BreathingHoldHighTime::Time0p26s => 0b000_0010_0u8,
            BreathingHoldHighTime::Time0p52s => 0b000_0011_0u8,
            BreathingHoldHighTime::Time1p04s => 0b000_0100_0u8,
            BreathingHoldHighTime::Time2p08s => 0b000_0101_0u8,
            BreathingHoldHighTime::Time4p16s => 0b000_0110_0u8,
            BreathingHoldHighTime::Time8p32s => 0b000_0111_0u8,
            BreathingHoldHighTime::Time16p64s => 0b000_1000_0u8,
        }
    }

    /// This time as it stands in a T1/T2 register: bits 4 to 1.
    pub fn bits(self) -> (b: u8)
        ensures
            b == self.spec_bits(),
    {
        match self {
            BreathingHoldHighTime::Time0s => 0b000_0000_0,
            BreathingHoldHighTime::Time0p13s => 0b000_0001_0,
            BreathingHoldHighTime::Time0p26s => 0b000_0010_0,
            BreathingHoldHighTime::Time0p52s => 0b000_0011_0,
            BreathingHoldHighTime::Time1p04s => 0b000_0100_0,
            BreathingHoldHighTime::Time2p08s => 0b000_0101_0,
            BreathingHoldHighTime::Time4p16s => 0b000_0110_0,
            BreathingHoldHighTime::Time8p32s => 0b000_0111_0,
            BreathingHoldHighTime::Time16p64s => 0b000_1000_0,
        }
    }
}

/// The time the brightness takes to fall from high to low (T3).
#[derive(Debug, Clone, Copy, PartialEq, Eq, Structural)]
pub enum BreathingRampDownTime {
    /// 0.13 s.
    Time0p13s,
    /// 0.26 s.
    Time0p26s,
    /// 0.52 s.
    Time0p52s,
    /// 1.04 s.
    Time1p04s,
    /// 2.08 s.
    Time2p08s,
    /// 4.16 s.
    Time4p16s,
    /// 8.32 s.
    Time8p32s,
    /// 16.64 s.
    Time16p64s,
}

impl BreathingRampDownTime {
    /// This time as it stands in a T3/T4 register: bits 7 to 5.
    pub open spec fn spec_bits(self) -> u8 {
        match self {
            BreathingRampDownTime::Time0p13s => 0b000_0000_0u8,
            BreathingRampDownTime::Time0p26s => 0b001_0000_0u8,
            BreathingRampDownTime::Time0p52s => 0b010_0000_0u8,
            BreathingRampDownTime::Time1p04s => 0b011_0000_0u8,
            BreathingRampDownTime::Time2p08s => 0b100_0000_0u8,
            BreathingRampDownTime::Time4p16s => 0b101_0000_0u8,
            BreathingRampDownTime::Time8p32s => 0b110_0000_0u8,
            BreathingRampDownTime::Time16p64s => 0b111_0000_0u8,
        }
    }

    /// This time as it stands in a T3/T4 register: bits 7 to 5.
    pub fn bits(self) -> (b: u8)
        ensures
            b == self.spec_bits(),
    {
        match self {
            BreathingRampDownTime::Time0p13s => 0b000_0000_0,
            BreathingRampDownTime::Time0p26s => 0b001_0000_0,
            BreathingRampDownTime::Time0p52s => 0b010_0000_0,
            BreathingRampDownTime::Time1p04s => 0b011_0000_0,
            BreathingRampDownTime::Time2p08s => 0b100_0000_0,
            BreathingRampDownTime::Time4p16s => 0b101_0000_0,
            BreathingRampDownTime::Time8p32s => 0b110_0000_0,
            BreathingRampDownTime::Time16p64s => 0b111_0000_0,
        }
    }
}

/// The time the low brightness is held (T4).
#[derive(Debug, Clone, Copy, PartialEq, Eq, Structural)]
pub enum BreathingHoldLowTime {
    /// 0 s.
    Time0s,
    /// 0.13 s.
    Time0p13s,
    /// 0.26 s.
    Time0p26s,
    /// 0.52 s.
    Time0p52s,
    /// 1.04 s.
    Time1p04s,
    /// 2.08 s.
    Time2p08s,
    /// 4.16 s.
    Time4p16s,
    /// 8.32 s.
    Time8p32s,
    /// 16.64 s.
    Time16p64s,
    /// 33.28 s.
    Time33p28s,
    /// 66.56 s.
    Time66p56s,
}

impl BreathingHoldLowTime {
    /// This time as it stands in a T3/T4 register: bits 4 to 1.
    pub open spec fn spec_bits(self) -> u8 {
        match self {
            BreathingHoldLowTime::Time0s => 0b000_0000_0u8,
            BreathingHoldLowTime::Time0p13s => 0b000_0001_0u8,
            BreathingHoldLowTime::Time0p26s => 0b000_0010_0u8,
            BreathingHoldLowTime::Time0p52s => 0b000_0011_0u8,
            BreathingHoldLowTime::Time1p04s => 0b000_0100_0u8,
            BreathingHoldLowTime::Time2p08s => 0b000_0101_0u8,
            BreathingHoldLowTime::Time4p16s => 0b000_0110_0u8,
            BreathingHoldLowTime::Time8p32s => 0b000_0111_0u8,
            BreathingHoldLowTime::Time16p64s => 0b000_1000_0u8,
            BreathingHoldLowTime::Time33p28s => 0b000_1001_0u8,
            BreathingHoldLowTime::Time66p56s => 0b000_1010_0u8,
        }
    }

    /// This time as it stands in a T3/T4 register: bits 4 to 1.
    pub fn bits(self) -> (b: u8)
        ensures
            b == self.spec_bits(),
    {
        match self {
            BreathingHoldLowTime::Time0s => 0b000_0000_0,
            BreathingHoldLowTime::Time0p13s => 0b000_0001_0,
            BreathingHoldLowTime::Time0p26s => 0b000_0010_0,
            BreathingHoldLowTime::Time0p52s => 0b000_0011_0,
            BreathingHoldLowTime::Time1p04s => 0b000_0100_0,
            BreathingHoldLowTime::Time2p08s => 0b000_0101_0,
            BreathingHoldLowTime::Time4p16s => 0b000_0110_0,
            BreathingHoldLowTime::Time8p32s => 0b000_0111_0,
            BreathingHoldLowTime::Time16p64s => 0b000_1000_0,
            BreathingHoldLowTime::Time33p28s => 0b000_1001_0,
            BreathingHoldLowTime::Time66p56s => 0b000_1010_0,
        }
    }
}

/// Each current setting has a byte of its own, in bits 4 to 2.
pub proof fn lemma_current_encoding(a: CurrentSettings, b: CurrentSettings)
    ensures
        a.spec_bits() == b.spec_bits() ==> a == b,
        a.spec_bits() % 4 == 0,
        a.spec_bits() <= 0b000_100_00,
{
}

/// Each mode has a byte of its own, in bit 5.
pub proof fn lemma_led_mode_encoding(a: LEDModeSettings, b: LEDModeSettings)
    ensures
        a.spec_bits() == b.spec_bits() ==> a == b,
        a.spec_bits() == 0 || a.spec_bits() == 0b00_1_00000,
{
}

/// Each intro time has a byte of its own, in bits 7 to 4.
pub proof fn lemma_intro_encoding(a: BreathingIntroTime, b: BreathingIntroTime)
    ensures
        a.spec_bits() == b.spec_bits() ==> a == b,
        a.spec_bits() % 16 == 0,
        a.spec_bits() <= 0b1010_0000,
{
}

/// Each ramp-up time has a byte of its own, in bits 7 to 5.
pub proof fn lemma_ramp_up_encoding(a: BreathingRampUpTime, b: BreathingRampUpTime)
    ensures
        a.spec_bits() == b.spec_bits() ==> a == b,
        a.spec_bits() % 32 == 0,
{
}

/// Each hold-high time has a byte of its own, in bits 4 to 1.
pub proof fn lemma_hold_high_encoding(a: BreathingHoldHighTime, b: BreathingHoldHighTime)
    ensures
        a.spec_bits() == b.spec_bits() ==> a == b,
        a.spec_bits() % 2 == 0,
        a.spec_bits() <= 0b000_1000_0,
{
}

/// Each ramp-down time has a byte of its own, in bits 7 to 5.
pub proof fn lemma_ramp_down_encoding(a: BreathingRampDownTime, b: BreathingRampDownTime)
    ensures
        a.spec_bits() == b.spec_bits() ==> a == b,
        a.spec_bits() % 32 == 0,
{
}

/// Each hold-low time has a byte of its own, in bits 4 to 1.
pub proof fn lemma_hold_low_encoding(a: BreathingHoldLowTime, b: BreathingHoldLowTime)
    ensures
        a.spec_bits() == b.spec_bits() ==> a == b,
        a.spec_bits() % 2 == 0,
        a.spec_bits() <= 0b000_1010_0,
{
}

/// Which output a breathing-time setting applies to.
#[derive(Debug, Clone, Copy, PartialEq, Eq, Structural)]
pub enum LEDId {
    /// Channel 1.
    LED1,
    /// Channel 2.
    LED2,
    /// Channel 3.
    LED3,
    /// All three channels, each given the same values.
    ALL,
}

impl LEDId {
    /// Whether this selection covers the output numbered `channel` (1, 2
    /// or 3).
    pub open spec fn spec_selects(self, channel: int) -> bool {
        match self {
            LEDId::LED1 => channel == 1,
            LEDId::LED2 => channel == 2,
            LEDId::LED3 => channel == 3,
            LEDId::ALL => 1 <= channel <= 3,
        }
    }

    /// Whether this selection covers the output numbered `channel` (1, 2
    /// or 3). No selection covers any other number.
    pub fn selects(self, channel: u8) -> (covered: bool)
        ensures
            covered == self.spec_selects(channel as int),
    {
        match self {
            LEDId::LED1 => channel == 1,
            LEDId::LED2 => channel == 2,
            LEDId::LED3 => channel == 3,
            LEDId::ALL => 1 <= channel && channel <= 3,
        }
    }

    /// How many outputs this selection covers.
    pub open spec fn channel_count(self) -> nat {
        match self {
            LEDId::ALL => 3,
            _ => 1,
        }
    }
}

/// The byte of a packed time register: a ramp time in bits 7 to 5 beside a
/// hold time in bits 4 to 1.
pub open spec fn spec_pack_times(ramp: u8, hold: u8) -> u8 {
    ramp | hold
}

/// Packs a ramp time and a hold time into the one byte their register takes.
pub fn pack_times(ramp: u8, hold: u8) -> (packed: u8)
    ensures
        packed == spec_pack_times(ramp, hold),
{
    ramp | hold
}

/// A ramp field and a hold field share no bit, so the packed byte holds both
/// unchanged and is their sum.
pub proof fn lemma_packed_fields_are_disjoint(ramp: u8, hold: u8)
    requires
        ramp % 32 == 0,
        hold < 32,
    ensures
        spec_pack_times(ramp, hold) & 0b1110_0000u8 == ramp,
        spec_pack_times(ramp, hold) & 0b0001_1111u8 == hold,
        spec_pack_times(ramp, hold) == ramp + hold,
{
    assert((ramp | hold) & 0b1110_0000u8 == ramp && (ramp | hold) & 0b0001_1111u8 == hold
        && (ramp | hold) == ramp + hold) by (bit_vector)
        requires
            ramp % 32 == 0,
            hold < 32,
    ;
}

/// The T1/T2 byte keeps both of its times: each can be read back from it.
pub proof fn lemma_rise_times_pack_losslessly(
    ramp_up: BreathingRampUpTime,
    hold_high: BreathingHoldHighTime,
)
    ensures
        spec_pack_times(ramp_up.spec_bits(), hold_high.spec_bits()) & 0b1110_0000u8
            == ramp_up.spec_bits(),
        spec_pack_times(ramp_up.spec_bits(), hold_high.spec_bits()) & 0b0001_1111u8
            == hold_high.spec_bits(),
{
    lemma_packed_fields_are_disjoint(ramp_up.spec_bits(), hold_high.spec_bits());
}

/// The T3/T4 byte keeps both of its times: each can be read back from it.
pub proof fn lemma_fall_times_pack_losslessly(
    ramp_down: BreathingRampDownTime,
    hold_low: BreathingHoldLowTime,
)
    ensures
        spec_pack_times(ramp_down.spec_bits(), hold_low.spec_bits()) & 0b1110_0000u8
            == ramp_down.spec_bits(),
        spec_pack_times(ramp_down.spec_bits(), hold_low.spec_bits()) & 0b0001_1111u8
            == hold_low.spec_bits(),
{
    lemma_packed_fields_are_disjoint(ramp_down.spec_bits(), hold_low.spec_bits());
}

/// The channel-enable mask: bit 0 for channel 1, bit 1 for channel 2, bit 2
/// for channel 3.
pub open spec fn spec_enable_mask(led1: bool, led2: bool, led3: bool) -> u8 {
    let b0: u8 = if led1 { 0b001u8 } else { 0u8 };
    let b1: u8 = if led2 { 0b010u8 } else { 0u8 };
    let b2: u8 = if led3 { 0b100u8 } else { 0u8 };
    (b0 + b1 + b2) as u8
}

/// Builds the channel-enable mask from one flag per channel.
pub fn enable_mask(led1: bool, led2: bool, led3: bool) -> (mask: u8)
    ensures
        mask == spec_enable_mask(led1, led2, led3),
        mask <= 0b111,
        (mask & 0b001 != 0) == led1,
        (mask & 0b010 != 0) == led2,
        (mask & 0b100 != 0) == led3,
{
    let mut led_enable: u8 = 0;
    if led1 {
        assert(0u8 | 0b001u8 == 0b001u8) by (bit_vector);
        led_enable |= 0b001;
    }
    let low: u8 = led_enable;
    if led2 {
        assert(low | 0b010u8 == low + 0b010u8) by (bit_vector)
            requires
                low <= 0b001u8,
        ;
        led_enable |= 0b010;
    }
    let mid: u8 = led_enable;
    if led3 {
        assert(mid | 0b100u8 == mid + 0b100u8) by (bit_vector)
            requires
                mid <= 0b011u8,
        ;
        led_enable |= 0b100;
    }
    proof {
        lemma_enable_mask_bits(led1, led2, led3);
    }
    led_enable
}

/// In the channel-enable mask, bit i is set exactly when channel i + 1 is
/// enabled, and no other bit is ever set.
pub proof fn lemma_enable_mask_bits(led1: bool, led2: bool, led3: bool)
    ensures
        spec_enable_mask(led1, led2, led3) <= 0b111,
        (spec_enable_mask(led1, led2, led3) & 0b001 != 0) == led1,
        (spec_enable_mask(led1, led2, led3) & 0b010 != 0) == led2,
        (spec_enable_mask(led1, led2, led3) & 0b100 != 0) == led3,
{
    let mask: u8 = spec_enable_mask(led1, led2, led3);
    assert(mask <= 7);
    assert(((mask & 0b001u8 != 0) == (mask % 2 == 1)) && ((mask & 0b010u8 != 0) == (mask % 4
        >= 2)) && ((mask & 0b100u8 != 0) == (mask >= 4))) by (bit_vector)
        requires
            mask <= 7,
    ;
}

} // verus!
