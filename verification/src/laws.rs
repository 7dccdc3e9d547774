//! What holds of every operation and of every run of a transaction.
//!
//! The first part states, byte for byte, what each operation puts on the
//! bus. The second part states what a transaction does with any run of
//! outcomes: it never leaves its plan, it stops at the first failure, and it
//! completes when nothing fails.
use vstd::prelude::*;
use crate::driver::{
    all_addressed_to, breathing_writes, current_writes, enable_writes, init_writes,
    led_mode_writes, pwm_writes,
};
use crate::registers::lemma_shutdown_wake_bits;
use crate::settings::{
    lemma_enable_mask_bits, spec_enable_mask, spec_pack_times, BreathingHoldHighTime,
    BreathingHoldLowTime, BreathingIntroTime, BreathingRampDownTime, BreathingRampUpTime,
    CurrentSettings, LEDId, LEDModeSettings,
};
use crate::transaction::{BusWrite, Progress};

verus! {

/// The byte strings that `writes` put on the bus, in order.
pub open spec fn bytes_of(writes: Seq<BusWrite>) -> Seq<Seq<u8>> {
    Seq::new(writes.len(), |i: int| writes[i].spec_bytes())
}

/// The settling delays that precede `writes`, in order.
pub open spec fn delays_of(writes: Seq<BusWrite>) -> Seq<u32> {
    Seq::new(writes.len(), |i: int| writes[i].settle_ms)
}

/// Selecting the mode is one write: the mode register and the mode's byte.
pub proof fn lemma_led_mode_bytes(address: u8, mode: LEDModeSettings)
    ensures
        bytes_of(led_mode_writes(address, mode)) == seq![seq![0x02u8, mode.spec_bits()]],
        delays_of(led_mode_writes(address, mode)) == seq![1u32],
        all_addressed_to(led_mode_writes(address, mode), address),
{
    assert(bytes_of(led_mode_writes(address, mode)) =~~= seq![seq![0x02u8, mode.spec_bits()]]);
    assert(delays_of(led_mode_writes(address, mode)) =~= seq![1u32]);
}

/// Setting the current limit is one write: the current register and the
/// setting's byte.
pub proof fn lemma_current_bytes(address: u8, current: CurrentSettings)
    ensures
        bytes_of(current_writes(address, current)) == seq![seq![0x03u8, current.spec_bits()]],
        delays_of(current_writes(address, current)) == seq![1u32],
        all_addressed_to(current_writes(address, current), address),
{
    assert(bytes_of(current_writes(address, current)) =~~= seq![
        seq![0x03u8, current.spec_bits()],
    ]);
    assert(delays_of(current_writes(address, current)) =~= seq![1u32]);
}

/// Enabling channels is two writes: the mask to the control register, then
/// 0xFF to the data latch. Bit i of the mask is set exactly when channel
/// i + 1 is enabled.
pub proof fn lemma_enable_bytes(address: u8, led1: bool, led2: bool, led3: bool)
    ensures
        bytes_of(enable_writes(address, led1, led2, led3)) == seq![
            seq![0x1Du8, spec_enable_mask(led1, led2, led3)],
            seq![0x07u8, 0xFFu8],
        ],
        delays_of(enable_writes(address, led1, led2, led3)) == seq![1u32, 1u32],
        all_addressed_to(enable_writes(address, led1, led2, led3), address),
        spec_enable_mask(led1, led2, led3) <= 0b111,
        (spec_enable_mask(led1, led2, led3) & 0b001 != 0) == led1,
        (spec_enable_mask(led1, led2, led3) & 0b010 != 0) == led2,
        (spec_enable_mask(led1, led2, led3) & 0b100 != 0) == led3,
{
    lemma_enable_mask_bits(led1, led2, led3);
    assert(bytes_of(enable_writes(address, led1, led2, led3)) =~~= seq![
        seq![0x1Du8, spec_enable_mask(led1, led2, led3)],
        seq![0x07u8, 0xFFu8],
    ]);
    assert(delays_of(enable_writes(address, led1, led2, led3)) =~= seq![1u32, 1u32]);
}

/// Setting PWM levels is four writes, in this order whatever the levels:
/// channel 1, channel 2, channel 3, then 0xFF to the data latch.
pub proof fn lemma_pwm_bytes(address: u8, led1: u8, led2: u8, led3: u8)
    ensures
        bytes_of(pwm_writes(address, led1, led2, led3)) == seq![
            seq![0x04u8, led1],
            seq![0x05u8, led2],
            seq![0x06u8, led3],
            seq![0x07u8, 0xFFu8],
        ],
        delays_of(pwm_writes(address, led1, led2, led3)) == seq![1u32, 1u32, 1u32, 1u32],
        all_addressed_to(pwm_writes(address, led1, led2, led3), address),
{
    assert(bytes_of(pwm_writes(address, led1, led2, led3)) =~~= seq![
        seq![0x04u8, led1],
        seq![0x05u8, led2],
        seq![0x06u8, led3],
        seq![0x07u8, 0xFFu8],
    ]);
    assert(delays_of(pwm_writes(address, led1, led2, led3)) =~= seq![1u32, 1u32, 1u32, 1u32]);
}

/// The first channel that `led` selects.
pub open spec fn first_channel(led: LEDId) -> int {
    match led {
        LEDId::LED1 => 1,
        LEDId::LED2 => 2,
        LEDId::LED3 => 3,
        LEDId::ALL => 1,
    }
}

/// Setting the breathing times of one channel is four writes: that
/// channel's T0, T1/T2 and T3/T4 registers in rising order, then 0xFF to
/// the time latch. No register of another channel is written.
pub proof fn lemma_breathing_bytes_one_channel(
    address: u8,
    led: LEDId,
    intro: BreathingIntroTime,
    ramp_up: BreathingRampUpTime,
    hold_high: BreathingHoldHighTime,
    ramp_down: BreathingRampDownTime,
    hold_low: BreathingHoldLowTime,
)
    requires
        led != LEDId::ALL,
    ensures
        bytes_of(breathing_writes(address, led, intro, ramp_up, hold_high, ramp_down, hold_low))
            == seq![
            seq![(0x09 + first_channel(led)) as u8, intro.spec_bits()],
            seq![
                (0x0F + first_channel(led)) as u8,
                spec_pack_times(ramp_up.spec_bits(), hold_high.spec_bits()),
            ],
            seq![
                (0x15 + first_channel(led)) as u8,
                spec_pack_times(ramp_down.spec_bits(), hold_low.spec_bits()),
            ],
            seq![0x1Cu8, 0xFFu8],
        ],
        delays_of(breathing_writes(address, led, intro, ramp_up, hold_high, ramp_down, hold_low))
            == seq![1u32, 1u32, 1u32, 1u32],
        all_addressed_to(
            breathing_writes(address, led, intro, ramp_up, hold_high, ramp_down, hold_low),
            address,
        ),
{
    let writes = breathing_writes(address, led, intro, ramp_up, hold_high, ramp_down, hold_low);
    assert(bytes_of(writes) =~~= seq![
        seq![(0x09 + first_channel(led)) as u8, intro.spec_bits()],
        seq![
            (0x0F + first_channel(led)) as u8,
            spec_pack_times(ramp_up.spec_bits(), hold_high.spec_bits()),
        ],
        seq![
            (0x15 + first_channel(led)) as u8,
            spec_pack_times(ramp_down.spec_bits(), hold_low.spec_bits()),
        ],
        seq![0x1Cu8, 0xFFu8],
    ]);
    assert(delays_of(writes) =~= seq![1u32, 1u32, 1u32, 1u32]);
}

/// Setting the breathing times of all channels is ten writes: the same
/// three bytes to channel 1, then to channel 2, then to channel 3, each
/// channel's registers in rising order, and last 0xFF to the time latch.
pub proof fn lemma_breathing_bytes_all_channels(
    address: u8,
    intro: BreathingIntroTime,
    ramp_up: BreathingRampUpTime,
    hold_high: BreathingHoldHighTime,
    ramp_down: BreathingRampDownTime,
    hold_low: BreathingHoldLowTime,
)
    ensures
        ({
            let t0 = intro.spec_bits();
            let t1t2 = spec_pack_times(ramp_up.spec_bits(), hold_high.spec_bits());
            let t3t4 = spec_pack_times(ramp_down.spec_bits(), hold_low.spec_bits());
            bytes_of(
                breathing_writes(
                    address,
                    LEDId::ALL,
                    intro,
                    ramp_up,
                    hold_high,
                    ramp_down,
                    hold_low,
                ),
            ) == seq![
                seq![0x0Au8, t0],
                seq![0x10u8, t1t2],
                seq![0x16u8, t3t4],
                seq![0x0Bu8, t0],
                seq![0x11u8, t1t2],
                seq![0x17u8, t3t4],
                seq![0x0Cu8, t0],
                seq![0x12u8, t1t2],
                seq![0x18u8, t3t4],
                seq![0x1Cu8, 0xFFu8],
            ]
        }),
        delays_of(
            breathing_writes(address, LEDId::ALL, intro, ramp_up, hold_high, ramp_down, hold_low),
        ) == Seq::new(10, |i: int| 1u32),
        all_addressed_to(
            breathing_writes(address, LEDId::ALL, intro, ramp_up, hold_high, ramp_down, hold_low),
            address,
        ),
{
    let t0 = intro.spec_bits();
    let t1t2 = spec_pack_times(ramp_up.spec_bits(), hold_high.spec_bits());
    let t3t4 = spec_pack_times(ramp_down.spec_bits(), hold_low.spec_bits());
    let writes = breathing_writes(
        address,
        LEDId::ALL,
        intro,
        ramp_up,
        hold_high,
        ramp_down,
        hold_low,
    );
    assert(bytes_of(writes) =~~= seq![
        seq![0x0Au8, t0],
        seq![0x10u8, t1t2],
        seq![0x16u8, t3t4],
        seq![0x0Bu8, t0],
        seq![0x11u8, t1t2],
        seq![0x17u8, t3t4],
        seq![0x0Cu8, t0],
        seq![0x12u8, t1t2],
        seq![0x18u8, t3t4],
        seq![0x1Cu8, 0xFFu8],
    ]);
    assert(delays_of(writes) =~= Seq::new(10, |i: int| 1u32));
}

/// Whatever is selected, the breathing times end with exactly one write to
/// the time latch, after three writes for each selected channel.
pub proof fn lemma_breathing_ends_with_time_latch(
    address: u8,
    led: LEDId,
    intro: BreathingIntroTime,
    ramp_up: BreathingRampUpTime,
    hold_high: BreathingHoldHighTime,
    ramp_down: BreathingRampDownTime,
    hold_low: BreathingHoldLowTime,
)
    ensures
        ({
            let writes = breathing_writes(
                address,
                led,
                intro,
                ramp_up,
                hold_high,
                ramp_down,
                hold_low,
            );
            &&& writes.len() == 3 * led.channel_count() + 1
            &&& writes.last().register == 0x1C
            &&& forall|i: int| 0 <= i < writes.len() - 1 ==> (#[trigger] writes[i]).register != 0x1C
        }),
{
}

/// Bringing the device up is six writes: the reset register alone, the
/// shutdown register with the channel-enable and normal-operation bits both
/// set, PWM mode, the 17.5 mA current limit, all three channels enabled, the
/// data latch. Fifty milliseconds pass before the reset and fifty more after
/// it.
pub proof fn lemma_init_bytes(address: u8)
    ensures
        bytes_of(init_writes(address)) == seq![
            seq![0x2Fu8],
            seq![0x00u8, 0x21u8],
            seq![0x02u8, 0x00u8],
            seq![0x03u8, 0x10u8],
            seq![0x1Du8, 0x07u8],
            seq![0x07u8, 0xFFu8],
        ],
        delays_of(init_writes(address)) == seq![50u32, 50u32, 1u32, 1u32, 1u32, 1u32],
        all_addressed_to(init_writes(address), address),
{
    lemma_shutdown_wake_bits();
    assert(bytes_of(init_writes(address)) =~~= seq![
        seq![0x2Fu8],
        seq![0x00u8, 0x21u8],
        seq![0x02u8, 0x00u8],
        seq![0x03u8, 0x10u8],
        seq![0x1Du8, 0x07u8],
        seq![0x07u8, 0xFFu8],
    ]);
    assert(delays_of(init_writes(address)) =~= seq![50u32, 50u32, 1u32, 1u32, 1u32, 1u32]);
}

/// Reporting an outcome never changes the plan, never takes back a write
/// that succeeded, and keeps the state well formed.
pub proof fn lemma_report_keeps_plan(p: Progress, ok: bool)
    requires
        p.wf(),
    ensures
        p.after(ok).wf(),
        p.after(ok).planned == p.planned,
        p.after(ok).completed >= p.completed,
        p.aborted ==> p.after(ok) == p,
{
}

/// Once a transaction has no current write, because it completed or
/// because a write failed, no outcome reported later changes it: it hands
/// out no further write.
pub proof fn lemma_stopped_stays_stopped(p: Progress, outcomes: Seq<bool>)
    requires
        p.current() is None,
    ensures
        p.run(outcomes) == p,
    decreases outcomes.len(),
{
    if outcomes.len() > 0 {
        lemma_stopped_stays_stopped(p, outcomes.skip(1));
    }
}

/// From any state that has not failed: if the next `k` outcomes are
/// successes and the one after them is a failure, the run ends aborted with
/// exactly `k` more writes completed, whatever is reported afterwards.
pub proof fn lemma_failure_after_successes(p: Progress, outcomes: Seq<bool>, k: int)
    requires
        p.wf(),
        !p.aborted,
        0 <= k < outcomes.len(),
        p.completed + k < p.planned.len(),
        forall|i: int| 0 <= i < k ==> outcomes[i],
        !outcomes[k],
    ensures
        p.run(outcomes) == (Progress {
            planned: p.planned,
            completed: (p.completed + k) as nat,
            aborted: true,
        }),
    decreases k,
{
    if k == 0 {
        lemma_stopped_stays_stopped(p.after(false), outcomes.skip(1));
    } else {
        let rest = outcomes.skip(1);
        assert(forall|i: int| 0 <= i < k - 1 ==> rest[i] == outcomes[i + 1]);
        lemma_failure_after_successes(p.after(true), rest, k - 1);
    }
}

/// A failure at write `k` of an operation aborts it: the writes before `k`
/// and write `k` itself reached the bus, none after `k` ever does, and the
/// transaction hands out nothing more.
pub proof fn lemma_first_failure_aborts(planned: Seq<BusWrite>, outcomes: Seq<bool>, k: int)
    requires
        0 <= k < planned.len(),
        k < outcomes.len(),
        forall|i: int| 0 <= i < k ==> outcomes[i],
        !outcomes[k],
    ensures
        Progress::fresh(planned).run(outcomes).aborted,
        Progress::fresh(planned).run(outcomes).completed == k,
        Progress::fresh(planned).run(outcomes).attempted() == planned.take(k + 1),
        Progress::fresh(planned).run(outcomes).current() is None,
        !Progress::fresh(planned).run(outcomes).is_complete(),
{
    lemma_failure_after_successes(Progress::fresh(planned), outcomes, k);
}

/// From any state that has not failed: if every remaining write succeeds,
/// the run ends complete.
pub proof fn lemma_successes_reach_the_end(p: Progress, outcomes: Seq<bool>)
    requires
        p.wf(),
        !p.aborted,
        outcomes.len() >= p.planned.len() - p.completed,
        forall|i: int| 0 <= i < p.planned.len() - p.completed ==> outcomes[i],
    ensures
        p.run(outcomes) == (Progress {
            planned: p.planned,
            completed: p.planned.len(),
            aborted: false,
        }),
    decreases p.planned.len() - p.completed,
{
    if p.completed == p.planned.len() {
        lemma_stopped_stays_stopped(p, outcomes);
    } else {
        let rest = outcomes.skip(1);
        assert(outcomes[0]);
        assert(forall|i: int|
            0 <= i < p.planned.len() - p.completed - 1 ==> rest[i] == outcomes[i + 1]);
        lemma_successes_reach_the_end(p.after(true), rest);
    }
}

/// An operation none of whose writes fails puts every planned write on the
/// bus, in order, and then is complete.
pub proof fn lemma_no_failure_completes(planned: Seq<BusWrite>, outcomes: Seq<bool>)
    requires
        outcomes.len() >= planned.len(),
        forall|i: int| 0 <= i < planned.len() ==> outcomes[i],
    ensures
        Progress::fresh(planned).run(outcomes).is_complete(),
        Progress::fresh(planned).run(outcomes).attempted() == planned,
        Progress::fresh(planned).run(outcomes).current() is None,
{
    lemma_successes_reach_the_end(Progress::fresh(planned), outcomes);
    assert(planned.take(planned.len() as int) =~= planned);
}

/// However a run goes, the state stays well formed, the plan stays what it
/// was, and the writes that reached the bus are a prefix of the plan.
pub proof fn lemma_run_stays_on_plan(p: Progress, outcomes: Seq<bool>)
    requires
        p.wf(),
    ensures
        p.run(outcomes).wf(),
        p.run(outcomes).planned == p.planned,
        p.run(outcomes).completed >= p.completed,
        p.run(outcomes).attempted().is_prefix_of(p.planned),
        p.attempted().is_prefix_of(p.run(outcomes).attempted()),
    decreases outcomes.len(),
{
    if outcomes.len() > 0 {
        lemma_run_stays_on_plan(p.after(outcomes[0]), outcomes.skip(1));
    }
}

/// A transaction whose writes all go to one address never hands out a write
/// to another, however the run goes.
pub proof fn lemma_every_write_goes_to_the_address(
    p: Progress,
    address: u8,
    outcomes: Seq<bool>,
)
    requires
        p.wf(),
        all_addressed_to(p.planned, address),
    ensures
        all_addressed_to(p.run(outcomes).attempted(), address),
        p.run(outcomes).current() matches Some(w) ==> w.address == address,
{
    lemma_run_stays_on_plan(p, outcomes);
}

} // verus!
