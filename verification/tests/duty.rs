//! Battery-measurement and duty-cycle behaviour.

use blinky::adc::{
    calc_duty, delta, isr, phase_after, warmup_cycles, AdcFlags, AdcPhase, DUTY_MAX, DUTY_MIN,
    MAX_DELTA, OVER3, UNDER3,
};
use blinky::config::{generate_config, Config, PWM_MAX, PWM_MIN};
use blinky::pulse::PWM_DIV;

#[test]
fn test_pwm_duty() {
    let max = OVER3 + UNDER3;
    assert!(calc_duty(max) == PWM_DIV / 2);
    assert!(calc_duty(0) == PWM_DIV / 40);
    assert!(calc_duty(0) > 10);
}

#[test]
fn duty_endpoints_and_bounds() {
    assert_eq!(calc_duty(0), DUTY_MIN);
    assert_eq!(calc_duty(MAX_DELTA), DUTY_MAX);
    assert_eq!(calc_duty(100), 349);
    assert_eq!(calc_duty(300), 893);
    for d in 0..=MAX_DELTA {
        let duty = calc_duty(d);
        assert!(DUTY_MIN <= duty && duty <= DUTY_MAX);
    }
}

#[test]
fn duty_monotone_in_delta() {
    let mut last = calc_duty(0);
    for d in 1..=MAX_DELTA {
        let duty = calc_duty(d);
        assert!(duty >= last);
        last = duty;
    }
}

#[test]
fn delta_clamps_and_falls_with_counts() {
    // calibrationConstant 2000, rawCount 1800: 2000 + 273 - 1800 = 473.
    assert_eq!(delta(2000, 1800), 473);
    // Clamped at the top of the range.
    assert_eq!(delta(2000, 1700), 546);
    // Counts past cal + 273 clamp to zero.
    assert_eq!(delta(2000, 2300), 0);
    // The duty for the mid reading lies strictly inside the range.
    let duty = calc_duty(delta(2000, 1800));
    assert_eq!(duty, 1363);
    assert!(DUTY_MIN < duty && duty < DUTY_MAX);
    // As the raw count rises toward cal + 273, the duty never rises.
    let mut last = calc_duty(delta(2000, 1700));
    for counts in 1700..=2300u32 {
        let duty = calc_duty(delta(2000, counts));
        assert!(duty <= last);
        last = duty;
    }
}

#[test]
fn adc_isr_actions() {
    let flags = AdcFlags { eocal: true, adrdy: false, eos: false };
    let acts = isr(flags, 2000, 0);
    assert!(acts.enable && !acts.start && acts.duty.is_none());

    let flags = AdcFlags { eocal: false, adrdy: true, eos: false };
    let acts = isr(flags, 2000, 0);
    assert!(!acts.enable && acts.start && acts.duty.is_none());

    let flags = AdcFlags { eocal: false, adrdy: false, eos: true };
    let acts = isr(flags, 2000, 1800);
    assert_eq!(acts.duty, Some(1363));
}

#[test]
fn adc_phase_progression() {
    let cal = AdcFlags { eocal: true, adrdy: false, eos: false };
    let rdy = AdcFlags { eocal: false, adrdy: true, eos: false };
    let eos = AdcFlags { eocal: false, adrdy: false, eos: true };
    let none = AdcFlags { eocal: false, adrdy: false, eos: false };

    let mut phase = AdcPhase::Calibrating;
    // A flag for a later step does not skip the sequence ahead.
    assert_eq!(phase_after(phase, eos), AdcPhase::Calibrating);
    phase = phase_after(phase, cal);
    assert_eq!(phase, AdcPhase::Ready);
    // No flag: the sequence stalls in place.
    assert_eq!(phase_after(phase, none), AdcPhase::Ready);
    phase = phase_after(phase, rdy);
    assert_eq!(phase, AdcPhase::Converting);
    phase = phase_after(phase, eos);
    assert_eq!(phase, AdcPhase::Done);

    // Regulator settle time: five cycles' busy wait at 1.25 MHz, none
    // needed at the base 250 kHz clock.
    assert_eq!(warmup_cycles(1_250_000), 5);
    assert_eq!(warmup_cycles(250_000), 0);
    assert_eq!(warmup_cycles(16_000_000), 64);
}

#[test]
fn config_boards() {
    // An unknown board runs at the generic full brightness.
    let c = generate_config([1, 2, 3]);
    assert_eq!(c.calc_duty(0), PWM_MIN);
    assert_eq!(c.calc_duty(MAX_DELTA), PWM_MAX);
    // The all-zero serial is the red board at half brightness.
    let red = generate_config([0, 0, 0]);
    assert_eq!(red.calc_duty(0), PWM_MIN);
    assert_eq!(red.calc_duty(MAX_DELTA), PWM_MAX / 2);
    // A known board.
    let c = generate_config([0x004c_0072, 0x3245_500b, 0x2031_374c]);
    assert_eq!(c.calc_duty(MAX_DELTA), PWM_MAX);
    assert_eq!(c.adc_over, 273);
    assert_eq!(c.adc_max, 546);
}

#[test]
fn config_new_exact_endpoints() {
    for pwm_max in [PWM_MIN, 100, 781, 1000, PWM_MAX, 65536] {
        let c = Config::new(pwm_max);
        assert_eq!(c.calc_duty(0), PWM_MIN);
        assert_eq!(c.calc_duty(MAX_DELTA), pwm_max);
    }
}
