//! LED PWM sequencing constants and state.
//!
//! The LEDs are PWM'd in two multiplexed banks from a 16-bit up-counting
//! timer with auto-reload and two compare channels, at roughly 80 full
//! PWM cycles per second.

use vstd::prelude::*;

use crate::CLK;
use crate::bitops::lemma_mask16;
use crate::leds::LED_ALL;
use crate::leds::LED_EVEN;
use crate::leds::LED_ODD;

verus! {

/// Number of PWM cycles per second.
pub const RATE: u32 = 80;

/// Prescaler for the PWM timer, dividing the core clock to 250 kHz.
pub const PWM_PRESCALE: u32 = CLK / 250_000;

/// Number of prescaled PWM clocks per PWM cycle.
pub const PWM_DIV: u32 = CLK / PWM_PRESCALE / RATE;

/// The timer configuration divides the clock exactly: the PWM rate is
/// an integral number of cycles per second, the prescaler and period
/// both fit the 16-bit timer, and the period is long enough for the
/// duty calculation's 1/40 granularity.
pub proof fn lemma_pwm_constants()
    ensures
        1 <= PWM_PRESCALE <= 65536,
        500 <= PWM_DIV <= 65536,
        RATE * PWM_DIV * PWM_PRESCALE == CLK,
{
}

/// Double-buffered GPIO level masks for the two multiplexing banks.
///
/// Each field is the GPIO level (negative logic: a low pin lights its
/// LED) to drive while the respective bank is asserted.  The PWM timer
/// interrupt reads this; the soft-tick dispatcher replaces it at a
/// period boundary, so a new frame only ever takes effect from the
/// following PWM period onward.
#[derive(Clone, Copy)]
pub struct Leds {
    pub even: u64,
    pub odd: u64,
}

impl Leds {
    /// Both banks start deasserted (all pins high, every LED dark).
    pub fn new() -> (r: Leds)
        ensures
            r.even == LED_ALL,
            r.odd == LED_ALL,
    {
        Leds { even: LED_ALL, odd: LED_ALL }
    }
}

/// Install the LED pattern for future PWM cycles.  `pos` is the GPIO
/// pin mask of the LEDs that should light: during each bank's phase its
/// lit pins are driven low while every other LED pin is held high.
pub fn apply_leds(leds: &mut Leds, pos: u64)
    ensures
        final(leds).even == LED_ALL & !pos | LED_ODD,
        final(leds).odd == LED_ALL & !pos | LED_EVEN,
{
    leds.even = LED_ALL & !pos | LED_ODD;
    leds.odd = LED_ALL & !pos | LED_EVEN;
}

/// Compare-register values for a new duty: channel 1 ends the even
/// bank's phase at `duty`, channel 2 ends the odd bank's at `2 * duty`,
/// and channel 3 (which pends the soft tick) fires on whichever of the
/// two lies past a quarter period, so the dispatcher always runs after
/// the display work of the period.
pub fn set_duty(duty: u32) -> (r: (u32, u32, u32))
    requires
        duty <= PWM_DIV / 2,
    ensures
        r.0 == duty,
        r.1 == 2 * duty,
        r.2 == if duty <= PWM_DIV / 4 { 2 * duty as int } else { duty as int },
{
    let ccr3 = if duty <= PWM_DIV / 4 {
        // Trigger the application update on the channel-2 event.
        duty * 2
    } else {
        // Trigger the application update on the channel-1 event.
        duty
    };
    (duty, duty * 2, ccr3)
}

/// What the PWM timer interrupt decides to drive, given the status
/// flags it has just read and cleared.
#[derive(Clone, Copy, PartialEq, Eq, Structural, Debug)]
pub enum Drive {
    /// Assert the even bank: its lit pins low, everything else high.
    Even,
    /// Assert the odd bank.
    Odd,
    /// Deassert everything (all LED pins high).
    Off,
    /// Spurious wake-up with no flag set: leave the GPIOs alone.
    Spurious,
}

/// The PWM timer interrupt's decision.  `sr` holds the accumulated
/// status flags (bit 0 period reload, bits 1-3 compare channels 1-3);
/// the flag bitmap, not an assumed order, picks the action, so
/// coincident or out-of-order events still resolve deterministically.
/// The second component reports whether the channel-3 flag asks for the
/// soft-tick dispatcher to be pended (suppressed on a spurious wake).
pub fn isr(sr: u32) -> (r: (Drive, bool))
    ensures
        ({
            let m = sr & 7;
            &&& (m == 1 || m == 5) ==> r.0 == Drive::Even
            &&& (m == 2 || m == 3) ==> r.0 == Drive::Odd
            &&& (m == 4 || m == 6 || m == 7) ==> r.0 == Drive::Off
            &&& m == 0 ==> r.0 == Drive::Spurious
            &&& r.1 == (sr & 7 != 0 && sr & 8 != 0)
        }),
{
    let m = sr & 7;
    if m == 0 {
        // Unexpected wake-up: no event to act on, nothing is pended.
        (Drive::Spurious, false)
    } else {
        let drive = if m == 1 || m == 5 {
            // Reload, with or without compare 2: assert the evens.
            Drive::Even
        } else if m == 2 || m == 3 {
            // Compare 1, with or without reload: assert the odds.
            Drive::Odd
        } else {
            // Compare 2, with or without compare 1: everything off.
            Drive::Off
        };
        (drive, sr & 8 != 0)
    }
}

/// The GPIO level masks that a [`Drive`] decision stands for: pins to
/// drive high and pins to drive low, over the packed 64-bit mask.
pub fn drive_masks(drive: Drive, leds: &Leds) -> (r: Option<(u64, u64)>)
    ensures
        drive == Drive::Even ==> r == Some((leds.even, LED_ALL)),
        drive == Drive::Odd ==> r == Some((leds.odd, LED_ALL)),
        drive == Drive::Off ==> r == Some((LED_ALL, 0u64)),
        drive == Drive::Spurious ==> r is None,
{
    match drive {
        // Active evens asserted low, all others deasserted high.
        Drive::Even => Some((leds.even, LED_ALL)),
        // Active odds asserted low.
        Drive::Odd => Some((leds.odd, LED_ALL)),
        // Everything deasserted high.
        Drive::Off => Some((LED_ALL, 0u64)),
        Drive::Spurious => None,
    }
}

/// The BSRR word of port `p` that drives the pins of `on` high and the
/// pins of `off` low (`on` wins where they overlap): reset bits in the
/// upper half-word, set bits in the lower.
pub open spec fn bsrr_word(on: u64, off: u64, p: int) -> u32 {
    (((off >> ((p * 16) as u64) & 0xffff) as u32) << 16u32)
        | ((on >> ((p * 16) as u64) & 0xffff) as u32)
}

/// Split the packed 64-bit `on` / `off` level masks into the four
/// per-port set/reset register words.  `on` and `off` name the GPIO
/// level, not the negative-logic LED drive, and `on` takes precedence.
pub fn bsrr_words(on: u64, off: u64) -> (r: [u32; 4])
    ensures
        forall|p: int| 0 <= p < 4 ==> #[trigger] r@[p] == bsrr_word(on, off, p),
{
    [
        bsrr_word1(on, off, 0),
        bsrr_word1(on, off, 1),
        bsrr_word1(on, off, 2),
        bsrr_word1(on, off, 3),
    ]
}

impl crate::cpu::Config {
    /// Register the PWM timer interrupt handler.
    pub fn pulse(self) -> (r: Self)
        requires
            crate::cpu::wf_vectors(self.vectors),
        ensures
            crate::cpu::wf_vectors(r.vectors),
            r.clk == self.clk,
            r.no_debug == self.no_debug,
            r.vectors.pendsv == self.vectors.pendsv,
            r.vectors.isr@ == self.vectors.isr@.update(
                crate::cpu::irq_index(crate::cpu::Irq::Tim3),
                crate::cpu::Handler::Pulse,
            ),
    {
        self.isr(crate::cpu::Irq::Tim3, crate::cpu::Handler::Pulse)
    }
}

fn bsrr_word1(on: u64, off: u64, p: u8) -> (r: u32)
    requires
        p < 4,
    ensures
        r == bsrr_word(on, off, p as int),
{
    proof {
        lemma_mask16(on >> ((p * 16) as u64));
        lemma_mask16(off >> ((p * 16) as u64));
    }
    let on_p = (on >> ((p * 16) as u64) & 0xffff) as u32;
    let off_p = (off >> ((p * 16) as u64) & 0xffff) as u32;
    off_p << 16u32 | on_p
}

} // verus!
