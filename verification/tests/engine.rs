//! The tick engine: trigger counting, the dispatcher's catch-up loop,
//! the cooperative sleep deadline, and the PWM interrupt decisions.

use blinky::cpu::{Config, Handler};
use blinky::leds::{LED_ALL, LED_EVEN, LED_ODD};
use blinky::pendsv::{
    hold_display, pendsv_handler, set_display, sleep, sleep_done, Ticker, ADC2, CYCLES_PER_TICK,
};
use blinky::pulse::{apply_leds, bsrr_words, drive_masks, isr, set_duty, Drive, Leds, PWM_DIV};

#[test]
fn pendsv_check_isr() {
    let config = Config::new(250_000).adc().no_debug().pendsv().pulse();
    assert!(config.vectors.pendsv == Handler::Pendsv);
}

#[test]
fn adc_check_isr() {
    let config = Config::new(250_000).adc().no_debug().pendsv().pulse();
    assert!(config.vectors.isr[12] == Handler::Adc);
    assert!(config.vectors.isr[16] == Handler::Pulse);
    assert!(config.no_debug);
}

#[test]
fn cycles_per_tick_is_power_of_two() {
    assert_eq!(CYCLES_PER_TICK, 16);
    assert!(CYCLES_PER_TICK.is_power_of_two());
    assert_eq!(ADC2, 8);
}

/// Run `n` triggers, then one dispatcher pass.
fn catch_up(t: &mut Ticker, leds: &mut Leds, n: u32) -> u32 {
    for _ in 0..n {
        blinky::pendsv::trigger(t);
    }
    pendsv_handler(t, leds)
}

#[test]
fn dispatcher_catch_up() {
    let mut t = Ticker::new();
    let mut leds = Leds::new();
    set_display(&mut t, 0x3f);

    // A spurious wake-up (no pending trigger) does nothing.
    let starts = catch_up(&mut t, &mut leds, 0);
    assert_eq!(starts, 0);
    assert_eq!(t.app_count, 0);
    assert_eq!(t.handled, t.count);

    // One trigger: phase 1 advances the application tick.
    let starts = catch_up(&mut t, &mut leds, 1);
    assert_eq!(starts, 0);
    assert_eq!(t.app_count, 1);
    assert_eq!(t.handled, 1);

    // Seventeen coalesced triggers (one full application tick plus
    // one): ticks 2..=18 hold phases 8 and 16 (ADC starts) and 17
    // (phase 1: another application tick).  None is skipped.
    let starts = catch_up(&mut t, &mut leds, 17);
    assert_eq!(t.handled, 18);
    assert_eq!(starts, 2);
    assert_eq!(t.app_count, 2);
    // The phase-0 tick copied the pending pattern into the buffer.
    let expect = {
        let mut t2 = Ticker::new();
        set_display(&mut t2, 0x3f);
        t2.next_leds
    };
    assert_eq!(leds.even, LED_ALL & !expect | LED_ODD);
    assert_eq!(leds.odd, LED_ALL & !expect | LED_EVEN);
}

#[test]
fn sleep_deadlines_accumulate() {
    let mut t = Ticker::new();
    // Three sleeps of five ticks give deadlines 5, 10, 15, however
    // many ticks pass in between.
    assert_eq!(sleep(&mut t, 5), 5);
    t.app_count = 7;
    assert_eq!(sleep(&mut t, 5), 10);
    t.app_count = 11;
    assert_eq!(sleep(&mut t, 5), 15);

    assert!(!sleep_done(&t, 15));
    t.app_count = 15;
    assert!(sleep_done(&t, 15));
    t.app_count = 100;
    assert!(sleep_done(&t, 15));
}

#[test]
fn sleep_deadline_wraps_safely() {
    let mut t = Ticker::new();
    t.sleep_alloc = i32::MAX - 2;
    t.app_count = i32::MAX - 2;
    let target = sleep(&mut t, 5);
    assert_eq!(target, (i32::MAX - 2).wrapping_add(5));
    assert!(!sleep_done(&t, target));
    t.app_count = t.app_count.wrapping_add(5);
    assert!(sleep_done(&t, target));
}

#[test]
fn hold_display_sets_frame_and_deadline() {
    let mut t = Ticker::new();
    let target = hold_display(&mut t, 0x3f, 2);
    assert_eq!(target, 2);
    let expect = {
        let mut t2 = Ticker::new();
        set_display(&mut t2, 0x3f);
        t2.next_leds
    };
    assert_eq!(t.next_leds, expect);
    assert_eq!(t.sleep_alloc, 2);
}

#[test]
fn pulse_isr_decisions() {
    // Reload (with or without compare 2) asserts the evens.
    assert_eq!(isr(1).0, Drive::Even);
    assert_eq!(isr(5).0, Drive::Even);
    // Compare 1 (with or without reload) asserts the odds.
    assert_eq!(isr(2).0, Drive::Odd);
    assert_eq!(isr(3).0, Drive::Odd);
    // Compare 2 combinations turn everything off.
    assert_eq!(isr(4).0, Drive::Off);
    assert_eq!(isr(6).0, Drive::Off);
    assert_eq!(isr(7).0, Drive::Off);
    // No flag: spurious, and no soft tick is pended even with CC3 set.
    assert_eq!(isr(0), (Drive::Spurious, false));
    assert_eq!(isr(8), (Drive::Spurious, false));
    // CC3 pends the soft tick alongside a real event.
    assert_eq!(isr(9), (Drive::Even, true));
    assert_eq!(isr(15), (Drive::Off, true));
}

#[test]
fn drive_masks_by_decision() {
    let mut leds = Leds::new();
    apply_leds(&mut leds, 0x55);
    assert_eq!(drive_masks(Drive::Even, &leds), Some((leds.even, LED_ALL)));
    assert_eq!(drive_masks(Drive::Odd, &leds), Some((leds.odd, LED_ALL)));
    assert_eq!(drive_masks(Drive::Off, &leds), Some((LED_ALL, 0)));
    assert_eq!(drive_masks(Drive::Spurious, &leds), None);
}

#[test]
fn apply_leds_banks() {
    let mut leds = Leds::new();
    assert_eq!(leds.even, LED_ALL);
    assert_eq!(leds.odd, LED_ALL);
    let pos = LED_EVEN;  // light the whole even group
    apply_leds(&mut leds, pos);
    assert_eq!(leds.even, LED_ALL & !pos | LED_ODD);
    assert_eq!(leds.odd, LED_ALL & !pos | LED_EVEN);
    // During the even phase the even pins are driven low (lit)...
    assert_eq!(leds.even & LED_EVEN, 0);
    // ...and the odd bank's pins all stay high.
    assert_eq!(leds.even & LED_ODD, LED_ODD);
    // During the odd phase nothing of this pattern is lit.
    assert_eq!(leds.odd, LED_ALL);
}

#[test]
fn set_duty_compare_values() {
    // Below a quarter period the soft tick rides on channel 2.
    let (c1, c2, c3) = set_duty(100);
    assert_eq!((c1, c2, c3), (100, 200, 200));
    // Above it, on channel 1.
    let (c1, c2, c3) = set_duty(1000);
    assert_eq!((c1, c2, c3), (1000, 2000, 1000));
    // The boundary itself still uses channel 2.
    let q = PWM_DIV / 4;
    assert_eq!(set_duty(q).2, 2 * q);
    assert_eq!(set_duty(q + 1).2, q + 1);
}

#[test]
fn bsrr_words_split_ports() {
    let on: u64 = 0x0005_6000_64aa_85ac;
    let off: u64 = 0x000a_8000_9b55_1853;
    let words = bsrr_words(on, off);
    for p in 0..4 {
        let on_p = (on >> (p * 16)) as u32 & 0xffff;
        let off_p = (off >> (p * 16)) as u32 & 0xffff;
        assert_eq!(words[p as usize], off_p << 16 | on_p);
    }
    assert_eq!(words[0], 0x1853_85ac);
}
