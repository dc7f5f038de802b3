//! Per-board brightness configuration, selected by CPU serial number.
//!
//! Each known board gets its own full-brightness duty; the fixed-point
//! scale is derived so the duty ramp is exact at both ends of the
//! calibration-delta range.

use vstd::prelude::*;

use vstd::arithmetic::div_mod::lemma_div_multiples_vanish_fancy;
use vstd::arithmetic::div_mod::lemma_fundamental_div_mod;

use crate::adc::MAX_DELTA;
use crate::adc::OVER3;
use crate::pulse::PWM_DIV;

verus! {

/// Smallest duty any board is configured for.
pub const PWM_MIN: u32 = 80;

/// Largest duty: half the PWM period.
pub const PWM_MAX: u32 = PWM_DIV / 2;

/// Per-board brightness parameters.
#[derive(Clone, Copy)]
pub struct Config {
    /// Headroom above the calibration constant (counts).
    pub adc_over: u16,
    /// Largest calibration delta the ramp covers.
    pub adc_max: u16,
    /// Fixed-point (16.16) slope of the duty ramp.
    pub pwm_scale: u32,
}

/// The duty a configuration maps a calibration delta to.
pub open spec fn spec_config_duty(c: Config, delta: int) -> int {
    (c.pwm_scale * delta) / 65536 + PWM_MIN
}

impl Config {
    /// Build the parameters for a board whose full brightness is
    /// `pwm_max`: the rounded-up scale makes the ramp hit `PWM_MIN`
    /// exactly at delta 0 and `pwm_max` exactly at the largest delta.
    pub fn new(pwm_max: u32) -> (c: Config)
        requires
            PWM_MIN <= pwm_max <= 65536,
        ensures
            c.adc_over == OVER3,
            c.adc_max == MAX_DELTA,
            c.pwm_scale == ((pwm_max - PWM_MIN) * 65536 + (MAX_DELTA - 1)) as int / (
            MAX_DELTA as int),
            spec_config_duty(c, 0) == PWM_MIN,
            spec_config_duty(c, MAX_DELTA as int) == pwm_max,
    {
        let range = pwm_max - PWM_MIN;
        let pwm_scale = (range * 65536 + (MAX_DELTA - 1)) / MAX_DELTA;
        let c = Config { adc_over: OVER3 as u16, adc_max: MAX_DELTA as u16, pwm_scale };
        proof {
            let rg = range as int;
            let num = rg * 65536 + 545;
            let s = c.pwm_scale as int;
            lemma_fundamental_div_mod(num, 546);
            let rem = num % 546;
            assert(s * 546 == rg * 65536 + 545 - rem);
            let b = s * 546 - rg * 65536;
            assert(0 <= b < 65536);
            lemma_div_multiples_vanish_fancy(rg, b, 65536);
            assert((65536 * rg + b) / 65536 == rg);
            assert(65536 * rg + b == s * 546);
            assert((s * 546) / 65536 == rg);
        }
        c
    }

    /// The duty for a calibration delta under this configuration.
    pub fn calc_duty(&self, delta: u32) -> (duty: u32)
        requires
            self.pwm_scale * delta + PWM_MIN <= u32::MAX,
        ensures
            duty == spec_config_duty(*self, delta as int),
    {
        proof {
            vstd::bits::lemma_u32_shr_is_div((self.pwm_scale * delta) as u32, 16);
            vstd::arithmetic::power2::lemma2_to64();
        }
        (self.pwm_scale * delta >> 16u32) + PWM_MIN
    }
}

/// The configuration for a board with the given CPU serial number:
/// each known board gets its tuned full brightness, every other board
/// the generic full-brightness setting.  The all-zero serial (a board
/// slated for red LEDs) runs at half the generic maximum.
pub fn generate_config(cpu_id: [u32; 3]) -> (c: Config)
    ensures
        c.adc_over == OVER3,
        c.adc_max == MAX_DELTA,
        spec_config_duty(c, 0) == PWM_MIN,
        spec_config_duty(c, MAX_DELTA as int) == if cpu_id@ =~= seq![0u32, 0u32, 0u32] {
            (PWM_MAX / 2) as int
        } else {
            PWM_MAX as int
        },
{
    if cpu_id[0] == 0x004c_0072 && cpu_id[1] == 0x3245_500b && cpu_id[2] == 0x2031_374c {
        // Led test board.
        Config::new(PWM_MAX)
    } else if cpu_id[0] == 0 && cpu_id[1] == 0 && cpu_id[2] == 0 {
        // Slated for red.
        Config::new(PWM_MAX / 2)
    } else if cpu_id[0] == 0x004c_007b && cpu_id[1] == 0x3245_500b && cpu_id[2] == 0x2031_374c {
        // Orig white board.
        Config::new(PWM_MAX)
    } else if cpu_id[0] == 0x004c_0058 && cpu_id[1] == 0x3245_500b && cpu_id[2] == 0x2031_374c {
        // Orig blue board.
        Config::new(PWM_MAX)
    } else {
        Config::new(PWM_MAX)
    }
}

} // verus!
