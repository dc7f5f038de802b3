//! ADC sampling outcomes and the brightness (duty-cycle) calculation.
//!
//! The ADC measures the internal voltage reference against the battery
//! supply.  The measured count is compared with a factory calibration
//! constant; the clamped difference (the "calibration delta") is a proxy
//! for the battery voltage and is mapped by a fixed-point linear scale
//! onto a PWM compare value, so a fresh battery gives a bright display
//! and a drained one a dim display.

use vstd::prelude::*;

use crate::pulse::PWM_DIV;

verus! {

/// Headroom above the calibration constant: a fresh battery reads up to
/// this many counts below `cal + OVER3`.
pub const OVER3: u32 = 273;
/// Matching headroom below the calibration constant.
pub const UNDER3: u32 = 273;

/// Largest calibration delta fed into the duty calculation.
pub const MAX_DELTA: u32 = OVER3 + UNDER3;

/// Duty value for a drained battery: 1/40 of the PWM period (2.5%).
pub const DUTY_MIN: u32 = PWM_DIV / 40;
/// Duty value for a fresh battery: half the PWM period (50%).
pub const DUTY_MAX: u32 = PWM_DIV / 2;

/// Span of the duty range covered by the linear scale.
pub const DUTY_RANGE: u32 = DUTY_MAX - DUTY_MIN;

/// Fixed-point (16.16) slope, rounded up so that the top end is exact.
pub const DUTY_SCALE: u32 = (DUTY_RANGE * 65536 + MAX_DELTA - 1) / MAX_DELTA;

/// The duty value that a given calibration delta maps to.
pub open spec fn spec_calc_duty(delta: int) -> int {
    (DUTY_SCALE * delta) / 65536 + DUTY_MIN
}

/// Map a calibration delta to a PWM duty value: a linear ramp from
/// `DUTY_MIN` at delta 0 (drained battery) up to `DUTY_MAX` at
/// `MAX_DELTA` (fresh battery), exact at both endpoints.
pub fn calc_duty(delta: u32) -> (duty: u32)
    requires
        delta <= MAX_DELTA,
    ensures
        duty == spec_calc_duty(delta as int),
        DUTY_MIN <= duty <= DUTY_MAX,
        delta == 0 ==> duty == DUTY_MIN,
        delta == MAX_DELTA ==> duty == DUTY_MAX,
{
    proof {
        assert(DUTY_SCALE == 178124);
        assert(DUTY_SCALE * delta <= 178124 * 546);
        vstd::bits::lemma_u32_shr_is_div((DUTY_SCALE * delta) as u32, 16);
        vstd::arithmetic::power2::lemma2_to64();
    }
    (DUTY_SCALE * delta >> 16u32) + DUTY_MIN
}

/// The duty ramp never falls: a larger calibration delta (a fresher
/// battery) gives an equal or brighter duty.
pub proof fn lemma_calc_duty_monotonic(d1: int, d2: int)
    requires
        0 <= d1 <= d2,
    ensures
        spec_calc_duty(d1) <= spec_calc_duty(d2),
{
    vstd::arithmetic::mul::lemma_mul_inequality(d1, d2, DUTY_SCALE as int);
    vstd::arithmetic::div_mod::lemma_div_is_ordered(
        DUTY_SCALE * d1,
        DUTY_SCALE * d2,
        65536,
    );
}

/// The calibration delta of a conversion: how far the measured count
/// lies below `cal + OVER3`, clamped to `[0, MAX_DELTA]`.
pub open spec fn spec_delta(cal: int, counts: int) -> int {
    if cal + OVER3 > counts {
        if cal + OVER3 - counts < MAX_DELTA {
            cal + OVER3 - counts
        } else {
            MAX_DELTA as int
        }
    } else {
        0
    }
}

/// Compare a conversion result with the factory calibration constant:
/// the clamped shortfall below `cal + OVER3` is the battery-voltage
/// proxy fed into the duty calculation.
pub fn delta(cal: u16, counts: u32) -> (d: u32)
    ensures
        d == spec_delta(cal as int, counts as int),
        d <= MAX_DELTA,
{
    let top = cal as u32 + OVER3;
    if top > counts {
        (top - counts).min(MAX_DELTA)
    } else {
        0
    }
}

/// Larger measured counts (a lower supply voltage) never increase the
/// delta.
pub proof fn lemma_delta_antitone(cal: int, c1: int, c2: int)
    requires
        c1 <= c2,
    ensures
        spec_delta(cal, c2) <= spec_delta(cal, c1),
{
}

/// As the measured count rises toward and past `cal + OVER3`, the duty
/// the conversion yields never increases: the display only dims as the
/// battery drains.
pub proof fn lemma_duty_falls_with_counts(cal: int, c1: int, c2: int)
    requires
        c1 <= c2,
    ensures
        spec_calc_duty(spec_delta(cal, c2)) <= spec_calc_duty(spec_delta(cal, c1)),
{
    lemma_delta_antitone(cal, c1, c2);
    lemma_calc_duty_monotonic(spec_delta(cal, c2), spec_delta(cal, c1));
}

/// How many cycles to burn after enabling the voltage regulator: it
/// needs about 20 microseconds to settle and offers no ready flag, so
/// the wait is computed from the clock frequency (none is needed at
/// the slowest clock).
pub fn warmup_cycles(clk: u32) -> (r: u32)
    ensures
        r == if clk > 250_000 {
            (clk / 250_000) as int
        } else {
            0
        },
{
    if clk > 250_000 {
        clk / 250_000
    } else {
        0
    }
}

/// The phases of the one-shot ADC sampling sequence.
#[derive(Clone, Copy, PartialEq, Eq, Structural, Debug)]
pub enum AdcPhase {
    /// Powered down between samples.
    Off,
    /// Voltage regulator enabled, settling for a fixed time.
    RegulatorWarmup,
    /// Reference channel selected, calibration running.
    Calibrating,
    /// Calibration done, ADC enabled, waiting for ready.
    Ready,
    /// Conversion started, waiting for end of sequence.
    Converting,
    /// Result read out; the ADC powers down again.
    Done,
}

/// The phase the sampling sequence reaches after one observed
/// interrupt flag (see `phase_after`).
pub open spec fn spec_phase_after(phase: AdcPhase, flags: AdcFlags) -> AdcPhase {
    if phase == AdcPhase::Calibrating && flags.eocal {
        AdcPhase::Ready
    } else if phase == AdcPhase::Ready && flags.adrdy {
        AdcPhase::Converting
    } else if phase == AdcPhase::Converting && flags.eos {
        AdcPhase::Done
    } else {
        phase
    }
}

/// Advance the sampling sequence by one observed interrupt flag: the
/// calibration-done flag enables the ADC, the ready flag starts the
/// conversion, and the end-of-sequence flag completes the sample.  A
/// flag that does not belong to the current phase leaves it unchanged
/// (the sequence stalls rather than guesses if a flag never arrives).
pub fn phase_after(phase: AdcPhase, flags: AdcFlags) -> (r: AdcPhase)
    ensures
        r == spec_phase_after(phase, flags),
{
    match phase {
        AdcPhase::Calibrating if flags.eocal => AdcPhase::Ready,
        AdcPhase::Ready if flags.adrdy => AdcPhase::Converting,
        AdcPhase::Converting if flags.eos => AdcPhase::Done,
        _ => phase,
    }
}

/// A full sampling run: from the start of the calibration, the three
/// flags lead phase by phase to `Done`, and no flag is acted on out of
/// order.
pub proof fn lemma_adc_sequence(cal_flag: AdcFlags, rdy_flag: AdcFlags, eos_flag: AdcFlags)
    requires
        cal_flag.eocal,
        rdy_flag.adrdy,
        eos_flag.eos,
    ensures
        spec_phase_after(
            spec_phase_after(spec_phase_after(AdcPhase::Calibrating, cal_flag), rdy_flag),
            eos_flag,
        ) == AdcPhase::Done,
        spec_phase_after(AdcPhase::Calibrating, rdy_flag) == AdcPhase::Calibrating
            || rdy_flag.eocal,
        spec_phase_after(AdcPhase::Ready, eos_flag) == AdcPhase::Ready || eos_flag.adrdy,
{
}

/// Interrupt flags of the ADC sampling state machine, as read (and
/// then cleared) from the status register in one interrupt entry.
#[derive(Clone, Copy)]
pub struct AdcFlags {
    /// Calibration finished.
    pub eocal: bool,
    /// ADC ready after enabling.
    pub adrdy: bool,
    /// End of the conversion sequence: a result is available.
    pub eos: bool,
}

/// Hardware actions the ADC interrupt decides on.
#[derive(Clone, Copy)]
pub struct AdcActions {
    /// Enable the ADC (calibration is done).
    pub enable: bool,
    /// Start a single conversion (the ADC reported ready).
    pub start: bool,
    /// Conversion finished: power the ADC down and program this duty.
    pub duty: Option<u32>,
}

/// The ADC interrupt's decision: each observed flag advances the
/// one-shot sampling sequence (calibrated -> enable, ready -> start,
/// done -> read out, convert to a duty, and power down).  `counts` is
/// the conversion result register and `cal` the factory calibration
/// constant; both only matter when `eos` is set.
pub fn isr(flags: AdcFlags, cal: u16, counts: u32) -> (r: AdcActions)
    ensures
        r.enable == flags.eocal,
        r.start == flags.adrdy,
        flags.eos ==> r.duty == Some(
            spec_calc_duty(spec_delta(cal as int, counts as int)) as u32,
        ),
        !flags.eos ==> r.duty is None,
        r.duty matches Some(d) ==> DUTY_MIN <= d <= DUTY_MAX,
{
    let duty = if flags.eos {
        Some(calc_duty(delta(cal, counts)))
    } else {
        None
    };
    AdcActions { enable: flags.eocal, start: flags.adrdy, duty }
}

impl crate::cpu::Config {
    /// Register the ADC interrupt handler.
    pub fn adc(self) -> (r: Self)
        requires
            crate::cpu::wf_vectors(self.vectors),
        ensures
            crate::cpu::wf_vectors(r.vectors),
            r.clk == self.clk,
            r.no_debug == self.no_debug,
            r.vectors.pendsv == self.vectors.pendsv,
            r.vectors.isr@ == self.vectors.isr@.update(
                crate::cpu::irq_index(crate::cpu::Irq::Adc),
                crate::cpu::Handler::Adc,
            ),
    {
        self.isr(crate::cpu::Irq::Adc, crate::cpu::Handler::Adc)
    }
}

} // verus!
