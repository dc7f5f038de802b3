//! LED wiring tables: pin uniqueness, group partition, column tables.

use blinky::leds::{gen_columns, leds, port_stuff, LED_ALL, LED_EVEN, LED_ODD};
use blinky::pendsv::{set_display, Ticker};

#[test]
fn unique() {
    let mut leds = leds();
    leds.sort();
    for i in 1..leds.len() {
        assert_ne!(leds[i], leds[i - 1]);
    }
}

#[test]
fn bit_counts() {
    assert_eq!(LED_ODD.count_ones(), 18);
    assert_eq!(LED_EVEN.count_ones(), 18);
    assert_eq!(LED_ALL.count_ones(), 36);
    assert_eq!(LED_ODD & LED_EVEN, 0);
}

#[test]
fn sane_columns() {
    for column in gen_columns() {
        for (i, &x) in column.iter().enumerate() {
            assert_eq!(i.count_ones(), x.count_ones());
            for (j, &y) in column.iter().enumerate() {
                assert_eq!(column[i | j], x | y);
            }
        }
    }
}

#[test]
fn port_masks() {
    let (bits, bit2) = port_stuff();
    assert_eq!(bits, [0x9dff, 0xffff, 0xe000, 0xf]);
    assert_eq!(bit2, [0x4151_5555, 0x5555_5555, 0x5400_0000, 0x55]);
    // Every LED pin appears in its port's mask.
    for pin in leds() {
        assert!(bits[(pin / 16) as usize] & (1 << (pin % 16)) != 0);
    }
}

#[test]
fn set_display_mask() {
    // A display pattern's GPIO mask is the union of the six per-column
    // lookups of its byte lanes.
    let columns = gen_columns();
    let display: u64 = 0xABCDEF012345;
    let mut want: u64 = 0;
    let mut d = display;
    for i in 0..6 {
        want |= columns[i][(d & 0x3f) as usize];
        d >>= 8;
    }
    let mut t = Ticker::new();
    set_display(&mut t, display);
    assert_eq!(t.next_leds, want);
    assert_eq!(t.next_leds, 0x000d_6000_02fa_05a5);
    // The mask only ever drives LED pins.
    assert_eq!(t.next_leds & !LED_ALL, 0);
}
