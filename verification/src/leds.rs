//! LED matrix wiring: which GPIO pin drives each of the 36 LEDs, the
//! even/odd multiplexing groups, per-port pin masks, and the per-column
//! lookup tables used to turn a display pattern into a GPIO mask.
//!
//! The 36 LEDs of the 6x6 matrix are spread over four 16-bit GPIO
//! ports; a "pin" here is a bit position in the packed 64-bit mask that
//! concatenates the four ports (port A at bit 0, B at 16, C at 32, D at
//! 48).

use vstd::prelude::*;

use crate::bitops::lemma_bit_eq;
use crate::bitops::lemma_bit_self;
use crate::bitops::lemma_or_bit_split;
use crate::bitops::lemma_or_idem;
use crate::bitops::lemma_or_rearrange;
use crate::bitops::lemma_or_zero;
use crate::bitops::lemma_zero_and;

verus! {

/// First bit of GPIO port A in the packed 64-bit mask.
pub const PORT_A: u8 = 0;
/// First bit of GPIO port B in the packed 64-bit mask.
pub const PORT_B: u8 = 16;
/// First bit of GPIO port C in the packed 64-bit mask.
pub const PORT_C: u8 = 32;
/// First bit of GPIO port D in the packed 64-bit mask.
pub const PORT_D: u8 = 48;

/// Pin driving matrix position `k` (row-major, k = column + row * 6;
/// the first row holds the column pins in reverse board order).
pub open spec fn led_pin(k: int) -> u8 {
    if k == 0 { 50u8 }
    else if k == 1 { 51u8 }
    else if k == 2 { 19u8 }
    else if k == 3 { 20u8 }
    else if k == 4 { 21u8 }
    else if k == 5 { 22u8 }
    else if k == 6 { 12u8 }
    else if k == 7 { 48u8 }
    else if k == 8 { 49u8 }
    else if k == 9 { 23u8 }
    else if k == 10 { 24u8 }
    else if k == 11 { 45u8 }
    else if k == 12 { 10u8 }
    else if k == 13 { 11u8 }
    else if k == 14 { 15u8 }
    else if k == 15 { 25u8 }
    else if k == 16 { 46u8 }
    else if k == 17 { 47u8 }
    else if k == 18 { 31u8 }
    else if k == 19 { 30u8 }
    else if k == 20 { 28u8 }
    else if k == 21 { 2u8 }
    else if k == 22 { 0u8 }
    else if k == 23 { 8u8 }
    else if k == 24 { 29u8 }
    else if k == 25 { 27u8 }
    else if k == 26 { 26u8 }
    else if k == 27 { 4u8 }
    else if k == 28 { 3u8 }
    else if k == 29 { 1u8 }
    else if k == 30 { 18u8 }
    else if k == 31 { 17u8 }
    else if k == 32 { 16u8 }
    else if k == 33 { 7u8 }
    else if k == 34 { 6u8 }
    else { 5u8 }
}

/// Multiplexing group of matrix position `k`: the groups tile the
/// matrix like a checkerboard, 0 for the even group and 1 for the odd.
pub open spec fn led_group(k: int) -> int {
    (k / 6 + k % 6) % 2
}

/// Every pin is a valid bit position of the packed mask, and no two
/// matrix positions share a pin: 36 LEDs use 36 distinct GPIO pins.
pub proof fn lemma_led_pins()
    ensures
        forall|k: int| 0 <= k < 36 ==> #[trigger] led_pin(k) < 64,
        forall|i: int, j: int| 0 <= i < j < 36 ==> led_pin(i) != led_pin(j),
{
}

/// Bit mask of LED GPIO pins.  One entry per matrix position.
pub fn leds() -> (r: [u8; 36])
    ensures
        forall|k: int| 0 <= k < 36 ==> r@[k] == led_pin(k),
{
    [
        PORT_D +  2, PORT_D +  3, PORT_B +  3, PORT_B +  4, PORT_B +  5, PORT_B +  6,
        PORT_A + 12, PORT_D +  0, PORT_D +  1, PORT_B +  7, PORT_B +  8, PORT_C + 13,
        PORT_A + 10, PORT_A + 11, PORT_A + 15, PORT_B +  9, PORT_C + 14, PORT_C + 15,
        PORT_B + 15, PORT_B + 14, PORT_B + 12, PORT_A +  2, PORT_A +  0, PORT_A +  8,
        PORT_B + 13, PORT_B + 11, PORT_B + 10, PORT_A +  4, PORT_A +  3, PORT_A +  1,
        PORT_B +  2, PORT_B +  1, PORT_B +  0, PORT_A +  7, PORT_A +  6, PORT_A +  5,

    ]
}

/// Union of the pin bits of the even multiplexing group.
pub const LED_EVEN: u64 = 1u64 << 50
    | 1u64 << 19
    | 1u64 << 21
    | 1u64 << 48
    | 1u64 << 23
    | 1u64 << 45
    | 1u64 << 10
    | 1u64 << 15
    | 1u64 << 46
    | 1u64 << 30
    | 1u64 << 2
    | 1u64 << 8
    | 1u64 << 29
    | 1u64 << 26
    | 1u64 << 3
    | 1u64 << 17
    | 1u64 << 7
    | 1u64 << 5;
/// Union of the pin bits of the odd multiplexing group.
pub const LED_ODD: u64 = 1u64 << 51
    | 1u64 << 20
    | 1u64 << 22
    | 1u64 << 12
    | 1u64 << 49
    | 1u64 << 24
    | 1u64 << 11
    | 1u64 << 25
    | 1u64 << 47
    | 1u64 << 31
    | 1u64 << 28
    | 1u64 << 0
    | 1u64 << 27
    | 1u64 << 4
    | 1u64 << 1
    | 1u64 << 18
    | 1u64 << 16
    | 1u64 << 6;

/// Union of all 36 LED pin bits.
pub const LED_ALL: u64 = LED_EVEN | LED_ODD;

/// GPIO pin mask asserted by the first `rows` rows of column `c` when
/// the column's row pattern is `bits`.
pub open spec fn col_mask_upto(c: int, bits: u64, rows: int) -> u64
    decreases rows,
{
    if rows <= 0 {
        0u64
    } else {
        col_mask_upto(c, bits, rows - 1)
            | (if bits & (1u64 << ((rows - 1) as u64)) != 0 {
                1u64 << (led_pin(c + (rows - 1) * 6) as u64)
            } else {
                0u64
            })
    }
}

/// GPIO pin mask for column `c` with row pattern `bits`: the union of
/// the pins of the rows whose bit in `bits` is set.
pub open spec fn col_mask(c: int, bits: u64) -> u64 {
    col_mask_upto(c, bits, 6)
}

/// Build the per-column lookup tables: `r[c][bits]` is the GPIO mask
/// for row pattern `bits` of column `c`.
pub fn gen_columns() -> (r: Vec<Vec<u64>>)
    ensures
        r@.len() == 6,
        forall|c: int| 0 <= c < 6 ==> #[trigger] r@[c]@.len() == 64,
        forall|c: int, b: int| 0 <= c < 6 && 0 <= b < 64
            ==> #[trigger] r@[c]@[b] == col_mask(c, b as u64),
{
    let led = leds();
    let mut value: Vec<Vec<u64>> = Vec::new();
    let mut column: usize = 0;
    while column < 6
        invariant
            column <= 6,
            value@.len() == column,
            forall|c: int| 0 <= c < column ==> #[trigger] value@[c]@.len() == 64,
            forall|c: int, b: int| 0 <= c < column && 0 <= b < 64
                ==> #[trigger] value@[c]@[b] == col_mask(c, b as u64),
            forall|k: int| 0 <= k < 36 ==> led@[k] == led_pin(k),
        decreases 6 - column,
    {
        let mut table: Vec<u64> = Vec::new();
        let mut bits: usize = 0;
        while bits < 64
            invariant
                column < 6,
                bits <= 64,
                table@.len() == bits,
                forall|b: int| 0 <= b < bits
                    ==> #[trigger] table@[b] == col_mask(column as int, b as u64),
                forall|k: int| 0 <= k < 36 ==> led@[k] == led_pin(k),
            decreases 64 - bits,
        {
            let mut val: u64 = 0;
            let mut row: usize = 0;
            while row < 6
                invariant
                    column < 6,
                    bits < 64,
                    row <= 6,
                    val == col_mask_upto(column as int, bits as u64, row as int),
                    forall|k: int| 0 <= k < 36 ==> led@[k] == led_pin(k),
                decreases 6 - row,
            {
                if (bits as u64) & (1u64 << (row as u64)) != 0 {
                    let pin = led[column + row * 6];
                    proof {
                        lemma_led_pins();
                        assert(pin == led_pin(column as int + row as int * 6));
                        assert(pin < 64);
                    }
                    val = val | (1u64 << (pin as u64));
                } else {
                    proof {
                        lemma_or_zero(col_mask_upto(column as int, bits as u64, row as int));
                    }
                }
                row += 1;
            }
            table.push(val);
            bits += 1;
        }
        value.push(table);
        column += 1;
    }
    value
}

proof fn lemma_col_linear_upto(c: int, i: u64, j: u64, rows: int)
    requires
        0 <= rows <= 6,
    ensures
        col_mask_upto(c, i | j, rows) == col_mask_upto(c, i, rows) | col_mask_upto(c, j, rows),
    decreases rows,
{
    if rows <= 0 {
        lemma_or_zero(0u64);
    } else {
        lemma_col_linear_upto(c, i, j, rows - 1);
        let m = 1u64 << (led_pin(c + (rows - 1) * 6) as u64);
        let bi = if i & (1u64 << ((rows - 1) as u64)) != 0 { m } else { 0u64 };
        let bj = if j & (1u64 << ((rows - 1) as u64)) != 0 { m } else { 0u64 };
        let bij = if (i | j) & (1u64 << ((rows - 1) as u64)) != 0 { m } else { 0u64 };
        lemma_or_bit_split(i, j, (rows - 1) as u64);
        lemma_or_idem(m);
        lemma_or_zero(m);
        lemma_or_zero(0u64);
        assert(bij == bi | bj);
        lemma_or_rearrange(
            col_mask_upto(c, i, rows - 1),
            col_mask_upto(c, j, rows - 1),
            bi,
            bj,
        );
    }
}

/// The column tables are linear (superposition): looking up the union
/// of two row patterns gives the union of the individual lookups.
pub proof fn lemma_column_linearity(c: int, i: u64, j: u64)
    requires
        0 <= c < 6,
    ensures
        col_mask(c, i | j) == col_mask(c, i) | col_mask(c, j),
{
    lemma_col_linear_upto(c, i, j, 6);
}

/// Matrix position `k` sits in column `c` on row `r`, and that row's
/// bit in the column pattern `bits` is set.
pub open spec fn col_row_lit(c: int, bits: u64, k: int, r: int) -> bool {
    0 <= r < 6 && k == c + r * 6 && bits & (1u64 << (r as u64)) != 0
}

proof fn lemma_col_mask_upto_bits(c: int, bits: u64, n: int, k: int)
    requires
        0 <= c < 6,
        0 <= n <= 6,
        0 <= k < 36,
    ensures
        col_mask_upto(c, bits, n) & (1u64 << (led_pin(k) as u64)) != 0 <==> exists|r: int|
            r < n && #[trigger] col_row_lit(c, bits, k, r),
    decreases n,
{
    lemma_led_pins();
    let pk = led_pin(k) as u64;
    if n <= 0 {
        lemma_zero_and(1u64 << pk);
    } else {
        lemma_col_mask_upto_bits(c, bits, n - 1, k);
        let j = c + (n - 1) * 6;
        let row_set = bits & (1u64 << ((n - 1) as u64)) != 0;
        let bitm = if row_set {
            1u64 << (led_pin(j) as u64)
        } else {
            0u64
        };
        lemma_or_bit_split(col_mask_upto(c, bits, n - 1), bitm, pk);
        if row_set {
            lemma_bit_eq(led_pin(j) as u64, pk);
        } else {
            lemma_zero_and(1u64 << pk);
        }
        if col_mask_upto(c, bits, n) & (1u64 << pk) != 0 {
            if col_mask_upto(c, bits, n - 1) & (1u64 << pk) != 0 {
                let r0 = choose|r: int| r < n - 1 && #[trigger] col_row_lit(c, bits, k, r);
                assert(r0 < n && col_row_lit(c, bits, k, r0));
            } else {
                assert(row_set && k == j);
                assert(n - 1 < n && col_row_lit(c, bits, k, n - 1));
            }
        }
        if exists|r: int| r < n && #[trigger] col_row_lit(c, bits, k, r) {
            let r0 = choose|r: int| r < n && #[trigger] col_row_lit(c, bits, k, r);
            if r0 < n - 1 {
                assert(col_mask_upto(c, bits, n - 1) & (1u64 << pk) != 0);
            } else {
                assert(r0 == n - 1);
                assert(row_set && k == j);
                assert(bitm & (1u64 << pk) != 0);
            }
        }
    }
}

/// What a column lookup lights, LED by LED: the pin of matrix position
/// `k` is in `col_mask(c, bits)` exactly when `k` sits in column `c`
/// on a row whose bit in `bits` is set.
pub proof fn lemma_col_mask_bits(c: int, bits: u64, k: int)
    requires
        0 <= c < 6,
        0 <= k < 36,
    ensures
        col_mask(c, bits) & (1u64 << (led_pin(k) as u64)) != 0 <==> exists|r: int|
            #[trigger] col_row_lit(c, bits, k, r),
{
    lemma_col_mask_upto_bits(c, bits, 6, k);
    if exists|r: int| #[trigger] col_row_lit(c, bits, k, r) {
        let r0 = choose|r: int| #[trigger] col_row_lit(c, bits, k, r);
        assert(r0 < 6 && col_row_lit(c, bits, k, r0));
    }
}

/// Union of the pin bits of the first `k` matrix positions that belong
/// to multiplexing group `sel`.
pub open spec fn eo_mask(sel: int, k: int) -> u64
    decreases k,
{
    if k <= 0 {
        0u64
    } else if led_group(k - 1) == sel {
        eo_mask(sel, k - 1) | (1u64 << (led_pin(k - 1) as u64))
    } else {
        eo_mask(sel, k - 1)
    }
}

/// How many of the first `k` matrix positions belong to group `sel`.
pub open spec fn eo_count(sel: int, k: int) -> int
    decreases k,
{
    if k <= 0 {
        0
    } else if led_group(k - 1) == sel {
        eo_count(sel, k - 1) + 1
    } else {
        eo_count(sel, k - 1)
    }
}

/// Each matrix position's pin bit is set in its group's mask.
proof fn lemma_eo_mask_member(sel: int, k: int, j: int)
    requires
        0 <= k < j <= 36,
        led_group(k) == sel,
    ensures
        eo_mask(sel, j) & (1u64 << (led_pin(k) as u64)) != 0,
    decreases j,
{
    lemma_led_pins();
    let bit = 1u64 << (led_pin(k) as u64);
    if j - 1 == k {
        lemma_bit_self(led_pin(k) as u64);
        lemma_or_bit_split(eo_mask(sel, k), bit, led_pin(k) as u64);
    } else {
        lemma_eo_mask_member(sel, k, j - 1);
        if led_group(j - 1) == sel {
            lemma_or_bit_split(
                eo_mask(sel, j - 1),
                1u64 << (led_pin(j - 1) as u64),
                led_pin(k) as u64,
            );
        }
    }
}

/// The even/odd groups partition the matrix: 18 positions each, their
/// pin masks are disjoint, and together they cover all 36 LED pins.
pub proof fn lemma_led_partition()
    ensures
        LED_EVEN == eo_mask(0, 36),
        LED_ODD == eo_mask(1, 36),
        LED_EVEN & LED_ODD == 0,
        LED_EVEN | LED_ODD == LED_ALL,
        eo_count(0, 36) == 18,
        eo_count(1, 36) == 18,
        forall|k: int| 0 <= k < 36 ==> LED_ALL & (1u64 << (led_pin(k) as u64)) != 0,
{
    reveal_with_fuel(eo_mask, 37);
    reveal_with_fuel(eo_count, 37);
    lemma_or_zero(1u64 << 50);
    lemma_or_zero(1u64 << 51);
    assert(LED_EVEN & LED_ODD == 0) by (bit_vector);
    assert forall|k: int| 0 <= k < 36 implies LED_ALL & (1u64 << (led_pin(k) as u64)) != 0 by {
        lemma_led_pins();
        let sel = led_group(k);
        assert(sel == 0 || sel == 1);
        lemma_eo_mask_member(sel, k, 36);
        lemma_or_bit_split(eo_mask(0, 36), eo_mask(1, 36), led_pin(k) as u64);
    }
}

/// Pins of port `p` used by the first `k` matrix positions, one bit
/// per pin within the port's 16-bit half-word.
pub open spec fn port_mask_upto(p: int, k: int) -> u32
    decreases k,
{
    if k <= 0 {
        0u32
    } else if led_pin(k - 1) / 16 == p {
        port_mask_upto(p, k - 1) | (1u32 << ((led_pin(k - 1) % 16) as u32))
    } else {
        port_mask_upto(p, k - 1)
    }
}

/// Like `port_mask_upto`, with one two-bit field per pin, as the GPIO
/// mode registers lay pins out.
pub open spec fn port_mask2_upto(p: int, k: int) -> u32
    decreases k,
{
    if k <= 0 {
        0u32
    } else if led_pin(k - 1) / 16 == p {
        port_mask2_upto(p, k - 1) | (1u32 << ((led_pin(k - 1) % 16 * 2) as u32))
    } else {
        port_mask2_upto(p, k - 1)
    }
}

/// The per-port pin masks of all 36 LEDs: one bit per pin in the first
/// array, the same pins as two-bit mode fields in the second.
pub fn port_stuff() -> (r: ([u32; 4], [u32; 4]))
    ensures
        forall|p: int| 0 <= p < 4 ==> #[trigger] r.0@[p] == port_mask_upto(p, 36),
        forall|p: int| 0 <= p < 4 ==> #[trigger] r.1@[p] == port_mask2_upto(p, 36),
{
    let led = leds();
    let mut mask: Vec<u32> = vec![0, 0, 0, 0];
    let mut bit2: Vec<u32> = vec![0, 0, 0, 0];
    let mut i: usize = 0;
    while i < 36
        invariant
            i <= 36,
            mask@.len() == 4,
            bit2@.len() == 4,
            forall|p: int| 0 <= p < 4 ==> #[trigger] mask@[p] == port_mask_upto(p, i as int),
            forall|p: int| 0 <= p < 4 ==> #[trigger] bit2@[p] == port_mask2_upto(p, i as int),
            forall|k: int| 0 <= k < 36 ==> led@[k] == led_pin(k),
        decreases 36 - i,
    {
        let pin = led[i];
        proof {
            lemma_led_pins();
            assert(pin == led_pin(i as int));
            assert(pin < 64);
        }
        let p = (pin / 16) as usize;
        mask[p] = mask[p] | (1u32 << ((pin % 16) as u32));
        bit2[p] = bit2[p] | (1u32 << ((pin % 16 * 2) as u32));
        i += 1;
    }
    (
        ([mask[0], mask[1], mask[2], mask[3]]),
        ([bit2[0], bit2[1], bit2[2], bit2[3]]),
    )
}

} // verus!
