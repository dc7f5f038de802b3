//! Firmware logic for a battery-powered 6x6 LED badge.
//!
//! The badge multiplexes a 36-LED matrix across four GPIO ports from a
//! periodic PWM timer interrupt, derives a coarser application tick from
//! that interrupt, samples the battery voltage through an ADC, and dims
//! the display as the battery drains.  This crate holds the decision and
//! computation core of that firmware: everything that turns counters,
//! interrupt flags and ADC readings into GPIO masks, compare-register
//! values and tick bookkeeping is implemented and verified here.  The
//! raw register accesses that carry those values to the hardware live in
//! the surrounding unverified shim.

use vstd::prelude::*;

pub mod adc;
pub mod bitops;
pub mod chars;
pub mod config;
pub mod cpu;
pub mod debug;
pub mod leds;
pub mod marque;
pub mod pendsv;
pub mod pulse;
pub mod random;
pub mod text;

verus! {

/// Core clock frequency the firmware is configured for, in Hz.
pub const CLK: u32 = 250_000;

} // verus!
