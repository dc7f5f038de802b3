//! The soft-tick dispatcher and the cooperative sleep primitive.
//!
//! The PWM timer interrupt advances a trigger count (`trigger`) and
//! pends a lower-priority software exception.  That exception's handler
//! (`pendsv_handler`) catches an own counter up to the trigger count
//! one tick at a time — coalesced or missed triggers are processed,
//! never skipped — and acts on each tick's phase: one phase advances
//! the application tick, another publishes the pending display pattern
//! into the double buffer and asks for an ADC sample.  `sleep` advances
//! a persistent deadline accumulator, so consecutive sleeps pace the
//! application without drift; the caller waits until the application
//! tick reaches the returned deadline.
//!
//! All counters are 32-bit and wrap; comparisons use wrap-safe
//! differences throughout.

use vstd::prelude::*;

use vstd::arithmetic::div_mod::lemma_fundamental_div_mod;
use vstd::arithmetic::div_mod::lemma_mod_multiples_vanish;
use vstd::wrapping::i32_specs;

use crate::bitops::lemma_mask6;
use crate::leds::col_mask;
use crate::leds::gen_columns;
use crate::leds::LED_ALL;
use crate::leds::LED_EVEN;
use crate::leds::LED_ODD;
use crate::pulse::apply_leds;
use crate::pulse::Leds;
use crate::pulse::RATE;

verus! {

/// Number of application wake-ups per second.
pub const SECOND: u32 = 5;

/// Fifth of a second, in application ticks.
pub const FIFTH: u32 = 1;

/// Number of PWM cycles per application tick.
pub const CYCLES_PER_TICK: u32 = RATE / SECOND;

/// Phase (besides 0) on which an ADC conversion is started.
pub const ADC2: u32 = CYCLES_PER_TICK / 2;

/// The tick divisor is an exact power of two, so extracting a tick's
/// phase is a mask, not a division.
pub proof fn lemma_cycles_per_tick_power_of_two()
    ensures
        CYCLES_PER_TICK == vstd::arithmetic::power2::pow2(4),
{
    vstd::arithmetic::power2::lemma2_to64();
}

/// The value a wrapping 32-bit counter holds after advancing `k` steps
/// from `a`.
pub open spec fn wadd(a: i32, k: int) -> i32 {
    ((a + k + 0x8000_0000) % 0x1_0000_0000 - 0x8000_0000) as i32
}

/// Advancing zero steps is the identity.
pub proof fn lemma_wadd_zero(a: i32)
    ensures
        wadd(a, 0) == a,
{
}

/// A wrapping add continues an accumulated advance.
pub proof fn lemma_wadd_add(a: i32, k: int, w: i32)
    ensures
        i32_specs::wrapping_add(wadd(a, k), w) == wadd(a, k + w),
{
    let m = 0x1_0000_0000int;
    let h = 0x8000_0000int;
    let s = a + k + h;
    let x = wadd(a, k);
    lemma_fundamental_div_mod(s, m);
    assert(s % m == x + h);
    lemma_mod_multiples_vanish(s / m, x + h + w, m);
    assert((m * (s / m) + (x + h + w)) % m == (x + h + w) % m);
    assert(s + w == m * (s / m) + (x + h + w));
    assert(wadd(a, k + w) == ((x + h + w) % m - h) as i32);
    let v = x + h + w;
    if v < 0 {
        lemma_mod_multiples_vanish(1, v, m);
        assert((m + v) % m == v % m);
    } else if v >= m {
        lemma_mod_multiples_vanish(-1, v, m);
        assert((-m + v) % m == v % m);
    }
}

/// Advances accumulate.
pub proof fn lemma_wadd_wadd(a: i32, k1: int, k2: int)
    ensures
        wadd(wadd(a, k1), k2) == wadd(a, k1 + k2),
{
    let m = 0x1_0000_0000int;
    let h = 0x8000_0000int;
    let s = a + k1 + h;
    let x = wadd(a, k1);
    lemma_fundamental_div_mod(s, m);
    assert(s % m == x + h);
    lemma_mod_multiples_vanish(s / m, x + h + k2, m);
    assert(s + k2 == m * (s / m) + (x + h + k2));
}

/// `a` lies strictly behind `b` in wrap-safe counter order.
pub open spec fn behind(a: i32, b: i32) -> bool {
    i32_specs::wrapping_sub(a, b) < 0
}

/// Cross-priority tick and display state of the dispatch engine.
///
/// `count` is written only by the PWM interrupt, `handled` and
/// `app_count` only by the dispatcher, `next_leds` by the application
/// (under a critical section) and `sleep_alloc` only by the single
/// application task, so each field has one writer per priority level.
pub struct Ticker {
    /// PWM periods seen: advanced once per period by `trigger`.
    pub count: i32,
    /// Last trigger the dispatcher has caught up with.
    pub handled: i32,
    /// Application ticks: advances once per `CYCLES_PER_TICK` triggers.
    pub app_count: i32,
    /// GPIO pin mask of the next frame, pending until a period boundary.
    pub next_leds: u64,
    /// Persistent deadline accumulator of `sleep`.
    pub sleep_alloc: i32,
}

/// Wrap-safe distance from `t.handled` to `t.count`: how many triggers
/// the dispatcher has yet to process.
pub open spec fn lag(t: Ticker) -> int {
    i32_specs::wrapping_sub(t.count, t.handled) as int
}

/// The dispatcher never runs ahead of the trigger count.
pub open spec fn wf(t: Ticker) -> bool {
    lag(t) >= 0
}

impl Ticker {
    /// Power-on state: all counters zero, nothing pending.
    pub fn new() -> (r: Ticker)
        ensures
            r.count == 0 && r.handled == 0 && r.app_count == 0,
            r.next_leds == 0 && r.sleep_alloc == 0,
            wf(r),
    {
        Ticker { count: 0, handled: 0, app_count: 0, next_leds: 0, sleep_alloc: 0 }
    }
}

/// GPIO pin mask lit by the first `lanes` byte lanes of a display
/// pattern.
pub open spec fn led_mask_upto(display: u64, lanes: int) -> u64
    decreases lanes,
{
    if lanes <= 0 {
        0u64
    } else {
        led_mask_upto(display, lanes - 1)
            | col_mask(lanes - 1, display >> (((lanes - 1) * 8) as u64) & 0x3f)
    }
}

/// GPIO pin mask of a display pattern: the union over the six byte
/// lanes of each column's lookup for its low six bits.
pub open spec fn led_mask(display: u64) -> u64 {
    led_mask_upto(display, 6)
}

/// Matrix position `k` sits in one of the first `lanes` columns, on a
/// row whose display bit in that column's lane is set.
pub open spec fn display_lit_in(display: u64, lanes: int, k: int, c: int) -> bool {
    0 <= c < lanes && exists|r: int|
        #[trigger] crate::leds::col_row_lit(c, display >> ((c * 8) as u64) & 0x3f, k, r)
}

proof fn lemma_led_mask_upto_bits(display: u64, lanes: int, k: int)
    requires
        0 <= lanes <= 6,
        0 <= k < 36,
    ensures
        led_mask_upto(display, lanes) & (1u64 << (crate::leds::led_pin(k) as u64)) != 0
            <==> exists|c: int| #[trigger] display_lit_in(display, lanes, k, c),
    decreases lanes,
{
    crate::leds::lemma_led_pins();
    let pk = crate::leds::led_pin(k) as u64;
    if lanes <= 0 {
        crate::bitops::lemma_zero_and(1u64 << pk);
    } else {
        lemma_led_mask_upto_bits(display, lanes - 1, k);
        let lane = display >> (((lanes - 1) * 8) as u64) & 0x3f;
        crate::leds::lemma_col_mask_bits(lanes - 1, lane, k);
        crate::bitops::lemma_or_bit_split(
            led_mask_upto(display, lanes - 1),
            col_mask(lanes - 1, lane),
            pk,
        );
        if led_mask_upto(display, lanes) & (1u64 << pk) != 0 {
            if led_mask_upto(display, lanes - 1) & (1u64 << pk) != 0 {
                let c0 = choose|c: int| #[trigger] display_lit_in(display, lanes - 1, k, c);
                assert(display_lit_in(display, lanes, k, c0));
            } else {
                assert(display_lit_in(display, lanes, k, lanes - 1));
            }
        }
        if exists|c: int| #[trigger] display_lit_in(display, lanes, k, c) {
            let c0 = choose|c: int| #[trigger] display_lit_in(display, lanes, k, c);
            if c0 < lanes - 1 {
                assert(display_lit_in(display, lanes - 1, k, c0));
            } else {
                assert(col_mask(lanes - 1, lane) & (1u64 << pk) != 0);
            }
        }
    }
}

/// What `set_display`'s conversion lights, LED by LED: the pin of the
/// LED at row `r`, column `c` of the matrix is in the GPIO mask of a
/// display pattern exactly when the pattern's bit `c * 8 + r` is set.
pub proof fn lemma_led_mask_lights(display: u64, r: int, c: int)
    requires
        0 <= r < 6,
        0 <= c < 6,
    ensures
        led_mask(display) & (1u64 << (crate::leds::led_pin(c + r * 6) as u64)) != 0
            <==> (display >> ((c * 8 + r) as u64)) & 1 == 1,
{
    let k = c + r * 6;
    lemma_led_mask_upto_bits(display, 6, k);
    crate::bitops::lemma_lane_bit(display, c as u64, r as u64);
    assert(((c * 8) as u64) == (c as u64) * 8);
    assert(((c * 8 + r) as u64) == (c as u64) * 8 + (r as u64));
    let lane = display >> ((c * 8) as u64) & 0x3f;
    if (display >> ((c * 8 + r) as u64)) & 1 == 1 {
        assert(crate::leds::col_row_lit(c, lane, k, r));
        assert(display_lit_in(display, 6, k, c));
    }
    if exists|c2: int| #[trigger] display_lit_in(display, 6, k, c2) {
        let c2 = choose|c2: int| #[trigger] display_lit_in(display, 6, k, c2);
        let r2 = choose|r2: int|
            #[trigger] crate::leds::col_row_lit(
                c2,
                display >> ((c2 * 8) as u64) & 0x3f,
                k,
                r2,
            );
        // The decomposition k = column + row * 6 is unique.
        assert(c2 == c && r2 == r);
        crate::bitops::lemma_lane_bit(display, c2 as u64, r2 as u64);
    }
}

/// Publish the display pattern to show from the next application tick
/// on: convert it column by column into a GPIO pin mask and store that
/// as the pending frame.  (The store is a single 64-bit write; on the
/// hardware the caller brackets it with a critical section so the
/// dispatcher never sees a torn value.)
pub fn set_display(t: &mut Ticker, display: u64)
    ensures
        final(t).next_leds == led_mask(display),
        final(t).count == old(t).count,
        final(t).handled == old(t).handled,
        final(t).app_count == old(t).app_count,
        final(t).sleep_alloc == old(t).sleep_alloc,
{
    let columns = gen_columns();
    let mut leds: u64 = 0;
    let mut i: usize = 0;
    while i < 6
        invariant
            i <= 6,
            leds == led_mask_upto(display, i as int),
            columns@.len() == 6,
            forall|c: int| 0 <= c < 6 ==> #[trigger] columns@[c]@.len() == 64,
            forall|c: int, b: int|
                0 <= c < 6 && 0 <= b < 64 ==> #[trigger] columns@[c]@[b] == col_mask(
                    c,
                    b as u64,
                ),
        decreases 6 - i,
    {
        proof {
            lemma_mask6(display >> ((i * 8) as u64));
        }
        let idx = (display >> ((i * 8) as u64) & 0x3f) as usize;
        leds = leds | columns[i][idx];
        i += 1;
    }
    t.next_leds = leds;
}

/// One more PWM period has elapsed: advance the trigger count.  The
/// caller (the PWM interrupt) pends the dispatcher exception after
/// this, which will catch `handled` up to the new count.
pub fn trigger(t: &mut Ticker)
    requires
        wf(*old(t)),
        lag(*old(t)) < 0x7fff_ffff,
    ensures
        final(t).count == wadd(old(t).count, 1),
        final(t).handled == old(t).handled,
        final(t).app_count == old(t).app_count,
        final(t).next_leds == old(t).next_leds,
        final(t).sleep_alloc == old(t).sleep_alloc,
        wf(*final(t)),
        lag(*final(t)) == lag(*old(t)) + 1,
{
    proof {
        lemma_wadd_zero(t.count);
        lemma_wadd_add(t.count, 0, 1);
    }
    t.count = t.count.wrapping_add(1);
}

/// Advance the sleep deadline by `wait` application ticks and return
/// the absolute tick at which the caller should resume.  The deadline
/// accumulates across calls — it is not derived from the current tick —
/// so consecutive sleeps never drift, however late each wake-up ran.
pub fn sleep(t: &mut Ticker, wait: u32) -> (target: i32)
    ensures
        final(t).sleep_alloc == wadd(old(t).sleep_alloc, (wait as i32) as int),
        target == final(t).sleep_alloc,
        final(t).count == old(t).count,
        final(t).handled == old(t).handled,
        final(t).app_count == old(t).app_count,
        final(t).next_leds == old(t).next_leds,
{
    proof {
        lemma_wadd_zero(t.sleep_alloc);
        lemma_wadd_add(t.sleep_alloc, 0, #[verifier::truncate] (wait as i32));
    }
    let target = t.sleep_alloc.wrapping_add(#[verifier::truncate] (wait as i32));
    t.sleep_alloc = target;
    target
}

/// Whether a sleep with the given deadline may resume: the application
/// tick has reached the deadline, in wrap-safe order.
pub fn sleep_done(t: &Ticker, target: i32) -> (r: bool)
    ensures
        r == !behind(t.app_count, target),
{
    t.app_count.wrapping_sub(target) >= 0
}

/// Publish a display pattern and advance the sleep deadline by `wait`
/// ticks: one animation frame.
pub fn hold_display(t: &mut Ticker, display: u64, wait: u32) -> (target: i32)
    ensures
        final(t).next_leds == led_mask(display),
        final(t).sleep_alloc == wadd(old(t).sleep_alloc, (wait as i32) as int),
        target == final(t).sleep_alloc,
        final(t).count == old(t).count,
        final(t).handled == old(t).handled,
        final(t).app_count == old(t).app_count,
{
    set_display(t, display);
    sleep(t, wait)
}

/// Show each pattern of `list` for `wait` ticks: the pending frame ends
/// on the last pattern and the sleep deadline advances by one `wait`
/// per frame.
pub fn animate(t: &mut Ticker, list: &[u64], wait: u32)
    ensures
        list@.len() == 0 ==> final(t).next_leds == old(t).next_leds,
        list@.len() > 0 ==> final(t).next_leds == led_mask(list@[list@.len() - 1]),
        final(t).sleep_alloc == wadd(old(t).sleep_alloc, list@.len() * (wait as i32)),
        final(t).count == old(t).count,
        final(t).handled == old(t).handled,
        final(t).app_count == old(t).app_count,
{
    let ghost t0 = *t;
    proof {
        lemma_wadd_zero(t.sleep_alloc);
    }
    let mut i: usize = 0;
    while i < list.len()
        invariant
            i <= list@.len(),
            t.sleep_alloc == wadd(t0.sleep_alloc, i * (wait as i32)),
            i == 0 ==> t.next_leds == t0.next_leds,
            i > 0 ==> t.next_leds == led_mask(list@[i - 1]),
            t.count == t0.count,
            t.handled == t0.handled,
            t.app_count == t0.app_count,
        decreases list@.len() - i,
    {
        hold_display(t, list[i], wait);
        proof {
            lemma_wadd_wadd(t0.sleep_alloc, i * (wait as i32), (wait as i32) as int);
            assert((i + 1) * (wait as i32) == i * (wait as i32) + (wait as i32))
                by (nonlinear_arith);
        }
        i += 1;
    }
}

/// Phase of a trigger tick within its application tick.
pub open spec fn phase(t: i32) -> u32 {
    (t as u32) & ((CYCLES_PER_TICK - 1) as u32)
}

/// The phase mask really extracts the tick modulo `CYCLES_PER_TICK`.
pub proof fn lemma_phase_is_mod(t: i32)
    by (bit_vector)
    ensures
        phase(t) == (t as u32) % 16,
{
}

/// How many of the `n` ticks following `start` have phase `ph`.
pub open spec fn ticks_hit(start: i32, n: int, ph: u32) -> int
    decreases n,
{
    if n <= 0 {
        0
    } else {
        ticks_hit(start, n - 1, ph) + if phase(wadd(start, n)) == ph {
            1int
        } else {
            0int
        }
    }
}

/// A window of `n` ticks hits a phase at least zero and at most `n`
/// times.
pub proof fn lemma_ticks_hit_bounds(start: i32, n: int, ph: u32)
    requires
        n >= 0,
    ensures
        0 <= ticks_hit(start, n, ph) <= n,
    decreases n,
{
    if n > 0 {
        lemma_ticks_hit_bounds(start, n - 1, ph);
    }
}

/// The dispatcher: catch `handled` up to the trigger count one tick at
/// a time.  Each caught-up tick acts by its phase: phase 1 advances the
/// application tick; phases 0 and `ADC2` ask for an ADC conversion; on
/// phase 0 — a period boundary whose display work is already past — the
/// pending frame is copied into the double buffer, so it takes effect
/// at the next period.  Returns how many ADC conversions were
/// requested; the caller powers the ADC up and starts it if any.
pub fn pendsv_handler(t: &mut Ticker, leds: &mut Leds) -> (adc_starts: u32)
    requires
        wf(*old(t)),
    ensures
        final(t).handled == old(t).count,
        final(t).count == old(t).count,
        final(t).next_leds == old(t).next_leds,
        final(t).sleep_alloc == old(t).sleep_alloc,
        final(t).app_count == wadd(old(t).app_count, ticks_hit(old(t).handled, lag(*old(t)), 1)),
        adc_starts == ticks_hit(old(t).handled, lag(*old(t)), 0) + ticks_hit(
            old(t).handled,
            lag(*old(t)),
            ADC2,
        ),
        ticks_hit(old(t).handled, lag(*old(t)), 0) > 0 ==> {
            &&& final(leds).even == LED_ALL & !old(t).next_leds | LED_ODD
            &&& final(leds).odd == LED_ALL & !old(t).next_leds | LED_EVEN
        },
        ticks_hit(old(t).handled, lag(*old(t)), 0) == 0 ==> *final(leds) == *old(leds),
        wf(*final(t)),
{
    let ghost t0 = *t;
    let ghost leds0 = *leds;
    let ghost n0 = lag(t0);
    let ghost mut i: int = 0;
    proof {
        lemma_wadd_zero(t0.handled);
        lemma_wadd_zero(t0.app_count);
    }
    let mut starts: u32 = 0;
    // Loop in case a tick was missed, or the wake-up was spurious.
    while t.handled.wrapping_sub(t.count) < 0
        invariant
            0 <= i <= n0,
            n0 == lag(t0),
            t.count == t0.count,
            t.next_leds == t0.next_leds,
            t.sleep_alloc == t0.sleep_alloc,
            t.handled == wadd(t0.handled, i),
            lag(*t) == n0 - i,
            t.app_count == wadd(t0.app_count, ticks_hit(t0.handled, i, 1)),
            starts == ticks_hit(t0.handled, i, 0) + ticks_hit(t0.handled, i, ADC2),
            starts <= i,
            ticks_hit(t0.handled, i, 0) > 0 ==> {
                &&& leds.even == LED_ALL & !t0.next_leds | LED_ODD
                &&& leds.odd == LED_ALL & !t0.next_leds | LED_EVEN
            },
            ticks_hit(t0.handled, i, 0) == 0 ==> *leds == leds0,
        decreases n0 - i,
    {
        proof {
            lemma_wadd_add(t0.handled, i, 1);
            lemma_ticks_hit_bounds(t0.handled, i, 0);
            lemma_ticks_hit_bounds(t0.handled, i, 1);
            lemma_ticks_hit_bounds(t0.handled, i, ADC2);
        }
        t.handled = t.handled.wrapping_add(1);
        let ph = (#[verifier::truncate] (t.handled as u32)) & (CYCLES_PER_TICK - 1);
        if ph == 1 {
            // Trigger the application.
            proof {
                lemma_wadd_add(t0.app_count, ticks_hit(t0.handled, i, 1), 1);
            }
            t.app_count = t.app_count.wrapping_add(1);
        } else if ph == 0 || ph == ADC2 {
            // An ADC conversion is due.
            starts = starts + 1;
            if ph == 0 {
                // This period's display work is already past, so the
                // pending pattern is safe to install for the next one.
                apply_leds(leds, t.next_leds);
            }
        }
        proof {
            i = i + 1;
        }
    }
    starts
}

impl crate::cpu::Config {
    /// Register the dispatcher on the PendSV exception slot.
    pub fn pendsv(self) -> (r: Self)
        ensures
            r.clk == self.clk,
            r.no_debug == self.no_debug,
            r.vectors.pendsv == crate::cpu::Handler::Pendsv,
            r.vectors.isr@ == self.vectors.isr@,
    {
        let mut c = self;
        c.vectors.pendsv = crate::cpu::Handler::Pendsv;
        c
    }
}

} // verus!
