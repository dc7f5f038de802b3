//! Marquee rendering: scroll glyphs through the 6x6 display.
//!
//! A `Display` holds the pattern currently shown.  The marquee
//! functions compute the sequence of animation frames that slides new
//! glyphs in — column by column for the horizontal marquee, row by row
//! for the vertical one — and return those frames for the caller to
//! feed to the display engine, one `hold_display` per frame.

use vstd::prelude::*;

use crate::pendsv::FIFTH;
use crate::random::spec_random_n;
use crate::random::spec_stir;
use crate::random::Random;

verus! {

/// One animation frame: a display pattern and how many application
/// ticks to hold it.
#[derive(Clone, Copy, PartialEq, Eq, Structural, Debug)]
pub struct Frame {
    pub display: u64,
    pub hold: u32,
}

/// A display pattern stays within the six byte lanes.
pub open spec fn wf_display(d: u64) -> bool {
    d < 0x1_0000_0000_0000
}

/// The pattern currently on the display, fed by the marquee steps.
pub struct Display {
    pub current: u64,
}

impl Default for Display {
    /// A dark display.
    fn default() -> (r: Display)
        ensures
            r.current == 0,
    {
        Display { current: 0 }
    }
}

impl Display {
    /// Start from a given pattern.
    pub fn _new(current: u64) -> (r: Display)
        requires
            wf_display(current),
        ensures
            r.current == current,
    {
        Display { current }
    }
}

/// One horizontal marquee step: push the low byte of `byte` in as the
/// display's right column and shift everything one column left.
pub open spec fn marque_step(cur: u64, byte: u64) -> u64 {
    ((cur + ((byte & 255) << 48u64)) as u64) >> 8u64
}

/// The display after `k` marquee steps that feed in the successive
/// bytes of `new`.
pub open spec fn marque_state(cur: u64, new: u64, k: int) -> u64
    decreases k,
{
    if k <= 0 {
        cur
    } else {
        marque_step(marque_state(cur, new, k - 1), new >> (((k - 1) * 8) as u64))
    }
}

/// The incoming column byte only raises bits in the seventh byte lane,
/// so the step's sum neither overflows nor leaves the display window.
proof fn lemma_marque_shift(cur: u64, byte: u64)
    requires
        wf_display(cur),
    ensures
        ((byte & 255) << 48u64) <= 0x00ff_0000_0000_0000,
        byte & 255 == 0 ==> ((byte & 255) << 48u64) == 0,
        ((cur + ((byte & 255) << 48u64)) as u64) >> 8u64 < 0x1_0000_0000_0000,
{
    assert(((byte & 255) << 48u64) <= 0x00ff_0000_0000_0000 && (byte & 255 == 0 ==> ((byte & 255)
        << 48u64) == 0)) by (bit_vector);
    let s = (cur + ((byte & 255) << 48u64)) as u64;
    vstd::bits::lemma_u64_shr_is_div(s, 8);
    vstd::arithmetic::power2::lemma2_to64();
    vstd::arithmetic::div_mod::lemma_multiply_divide_lt(s as int, 256, 0x1_0000_0000_0000);
}

/// Feeding an all-dark column is exactly a shift by one column.
pub proof fn lemma_marque_step_dark(cur: u64)
    requires
        wf_display(cur),
    ensures
        marque_step(cur, 0) == cur >> 8u64,
{
    assert(((0u64 & 255) << 48u64) == 0) by (bit_vector);
}

impl Display {
    /// Scroll one glyph in from the right, one column per frame.
    /// Returns the six frames; the display ends on the last of them.
    pub fn marque_display(&mut self, new: u64, wait: u32) -> (frames: Vec<Frame>)
        requires
            wf_display(old(self).current),
        ensures
            wf_display(final(self).current),
            frames@.len() == 6,
            forall|j: int|
                0 <= j < 6 ==> #[trigger] frames@[j] == (Frame {
                    display: marque_state(old(self).current, new, j + 1),
                    hold: wait,
                }),
            final(self).current == marque_state(old(self).current, new, 6),
    {
        let ghost cur0 = self.current;
        let mut frames: Vec<Frame> = Vec::new();
        let mut j: usize = 0;
        while j < 6
            invariant
                j <= 6,
                frames@.len() == j,
                wf_display(self.current),
                self.current == marque_state(cur0, new, j as int),
                forall|k: int|
                    0 <= k < j ==> #[trigger] frames@[k] == (Frame {
                        display: marque_state(cur0, new, k + 1),
                        hold: wait,
                    }),
            decreases 6 - j,
        {
            let byte = new >> ((j * 8) as u64);
            proof {
                lemma_marque_shift(self.current, byte);
            }
            self.current = (self.current + ((byte & 255) << 48u64)) >> 8u64;
            frames.push(Frame { display: self.current, hold: wait });
            j += 1;
        }
        frames
    }
}

/// The glyph pattern that position `i` of a mapped string selects from
/// the column table.
pub open spec fn glyph_at(cols: Seq<u64>, s: Seq<u8>, i: int) -> u64 {
    cols[s[i] as int]
}

/// The display after marqueeing in the first `i` glyphs of a string.
pub open spec fn string_state(cur: u64, cols: Seq<u64>, s: Seq<u8>, i: int) -> u64
    decreases i,
{
    if i <= 0 {
        cur
    } else {
        marque_state(string_state(cur, cols, s, i - 1), glyph_at(cols, s, i - 1), 6)
    }
}

/// The frames of marqueeing in the first `i` glyphs of a string: six
/// per glyph, in order.
pub open spec fn marque_string_frames(
    cur: u64,
    cols: Seq<u64>,
    s: Seq<u8>,
    wait: u32,
    i: int,
) -> Seq<Frame>
    decreases i,
{
    if i <= 0 {
        Seq::empty()
    } else {
        marque_string_frames(cur, cols, s, wait, i - 1) + Seq::new(
            6,
            |j: int|
                Frame {
                    display: marque_state(
                        string_state(cur, cols, s, i - 1),
                        glyph_at(cols, s, i - 1),
                        j + 1,
                    ),
                    hold: wait,
                },
        )
    }
}

impl Display {
    /// Scroll a mapped string through the display, six frames per
    /// glyph.  `columns` is the glyph table; `s` holds glyph indexes.
    pub fn marque_string(&mut self, columns: &Vec<u64>, s: &[u8], wait: u32) -> (frames: Vec<
        Frame,
    >)
        requires
            wf_display(old(self).current),
            forall|i: int| 0 <= i < s@.len() ==> (#[trigger] s@[i]) < columns@.len(),
        ensures
            wf_display(final(self).current),
            frames@ == marque_string_frames(
                old(self).current,
                columns@,
                s@,
                wait,
                s@.len() as int,
            ),
            final(self).current == string_state(old(self).current, columns@, s@, s@.len() as int),
    {
        let ghost cur0 = self.current;
        let mut frames: Vec<Frame> = Vec::new();
        let mut i: usize = 0;
        while i < s.len()
            invariant
                i <= s@.len(),
                wf_display(self.current),
                forall|k: int| 0 <= k < s@.len() ==> (#[trigger] s@[k]) < columns@.len(),
                self.current == string_state(cur0, columns@, s@, i as int),
                frames@ == marque_string_frames(cur0, columns@, s@, wait, i as int),
            decreases s@.len() - i,
        {
            let glyph = columns[s[i] as usize];
            let mut f = self.marque_display(glyph, wait);
            proof {
                assert(f@ =~= Seq::new(
                    6,
                    |j: int|
                        Frame {
                            display: marque_state(
                                string_state(cur0, columns@, s@, i as int),
                                glyph_at(columns@, s@, i as int),
                                j + 1,
                            ),
                            hold: wait,
                        },
                ));
            }
            frames.append(&mut f);
            i += 1;
        }
        frames
    }
}

/// Shift the two 32-bit halves of a pattern right independently: rows
/// move without bleeding across the half-word boundary.
pub open spec fn spec_shr_parts(val: u64, n: int) -> u64 {
    (((val as u32) >> (n as u32)) as u64) | (((((val >> 32u64) as u32) >> (n as u32)) as u64)
        << 32u64)
}

/// Shift the two 32-bit halves of a pattern left independently.
pub open spec fn spec_shl_parts(val: u64, n: int) -> u64 {
    (((val as u32) << (n as u32)) as u64) | (((((val >> 32u64) as u32) << (n as u32)) as u64)
        << 32u64)
}

/// Shift each 32-bit half of `val` right by `n`, independently.
pub fn shr_parts(val: u64, n: usize) -> (r: u64)
    requires
        n < 32,
    ensures
        r == spec_shr_parts(val, n as int),
{
    let lo = #[verifier::truncate] (val as u32);
    let hi = #[verifier::truncate] ((val >> 32u64) as u32);
    let lo = lo >> (n as u32);
    let hi = hi >> (n as u32);
    lo as u64 | (hi as u64) << 32u64
}

/// Shift each 32-bit half of `val` left by `n`, independently.
pub fn shl_parts(val: u64, n: usize) -> (r: u64)
    requires
        n < 32,
    ensures
        r == spec_shl_parts(val, n as int),
{
    let lo = #[verifier::truncate] (val as u32);
    let hi = #[verifier::truncate] ((val >> 32u64) as u32);
    let lo = lo << (n as u32);
    let hi = hi << (n as u32);
    lo as u64 | (hi as u64) << 32u64
}

/// One vertical marquee step of the display half: fold the lowest row
/// of each incoming column in at the top and move every row down.
pub open spec fn vm_step_cur(cur: u64, new: u64) -> u64 {
    spec_shr_parts(cur | spec_shl_parts(new & 0x0101_0101_0101, 6), 1) & 0x3f3f_3f3f_3f3f_3f3f
}

/// Both vertical-marquee motions keep the pattern inside the display
/// window.
proof fn lemma_vm_bounds(cur: u64, new: u64)
    by (bit_vector)
    requires
        cur < 0x1_0000_0000_0000,
    ensures
        spec_shr_parts(cur, 1) < 0x1_0000_0000_0000,
        vm_step_cur(cur, new) < 0x1_0000_0000_0000,
{
}

/// Display and remaining-glyph state after `j` vertical marquee steps
/// (the display is pre-shifted once before the steps).
pub open spec fn vm_state(cur: u64, new: u64, j: int) -> (u64, u64)
    decreases j,
{
    if j <= 0 {
        (spec_shr_parts(cur, 1), new)
    } else {
        let (c, n) = vm_state(cur, new, j - 1);
        (vm_step_cur(c, n), spec_shr_parts(n, 1))
    }
}

impl Display {
    /// Scroll one glyph in from below, one row per frame: a pre-shift
    /// frame and six feed frames.
    pub fn vmarque_display(&mut self, new: u64, wait: u32) -> (frames: Vec<Frame>)
        requires
            wf_display(old(self).current),
        ensures
            wf_display(final(self).current),
            frames@.len() == 7,
            forall|j: int|
                0 <= j < 7 ==> #[trigger] frames@[j] == (Frame {
                    display: vm_state(old(self).current, new, j).0,
                    hold: wait,
                }),
            final(self).current == vm_state(old(self).current, new, 6).0,
    {
        let ghost cur0 = self.current;
        proof {
            lemma_vm_bounds(self.current, new);
        }
        self.current = shr_parts(self.current, 1);
        let mut frames: Vec<Frame> = Vec::new();
        frames.push(Frame { display: self.current, hold: wait });

        let mut n = new;
        let mut j: usize = 1;
        while j < 7
            invariant
                1 <= j <= 7,
                frames@.len() == j,
                wf_display(self.current),
                self.current == vm_state(cur0, new, j - 1).0,
                n == vm_state(cur0, new, j - 1).1,
                forall|k: int|
                    0 <= k < j ==> #[trigger] frames@[k] == (Frame {
                        display: vm_state(cur0, new, k).0,
                        hold: wait,
                    }),
            decreases 7 - j,
        {
            proof {
                lemma_vm_bounds(self.current, n);
            }
            self.current = self.current | shl_parts(n & 0x0101_0101_0101, 6);
            self.current = shr_parts(self.current, 1);
            self.current = self.current & 0x3f3f_3f3f_3f3f_3f3f;
            n = shr_parts(n, 1);
            frames.push(Frame { display: self.current, hold: wait });
            j += 1;
        }
        frames
    }
}

/// The display after vertically marqueeing in the first `i` glyphs.
pub open spec fn vm_string_state(cur: u64, cols: Seq<u64>, s: Seq<u8>, i: int) -> u64
    decreases i,
{
    if i <= 0 {
        cur
    } else {
        vm_state(vm_string_state(cur, cols, s, i - 1), glyph_at(cols, s, i - 1), 6).0
    }
}

/// The frames of vertically marqueeing in the first `i` glyphs: seven
/// per glyph, in order.
pub open spec fn vmarque_string_frames(
    cur: u64,
    cols: Seq<u64>,
    s: Seq<u8>,
    wait: u32,
    i: int,
) -> Seq<Frame>
    decreases i,
{
    if i <= 0 {
        Seq::empty()
    } else {
        vmarque_string_frames(cur, cols, s, wait, i - 1) + Seq::new(
            7,
            |j: int|
                Frame {
                    display: vm_state(
                        vm_string_state(cur, cols, s, i - 1),
                        glyph_at(cols, s, i - 1),
                        j,
                    ).0,
                    hold: wait,
                },
        )
    }
}

impl Display {
    /// Scroll a mapped string in from below, seven frames per glyph.
    pub fn vmarque_string(&mut self, columns: &Vec<u64>, s: &[u8], wait: u32) -> (frames: Vec<
        Frame,
    >)
        requires
            wf_display(old(self).current),
            forall|i: int| 0 <= i < s@.len() ==> (#[trigger] s@[i]) < columns@.len(),
        ensures
            wf_display(final(self).current),
            frames@ == vmarque_string_frames(
                old(self).current,
                columns@,
                s@,
                wait,
                s@.len() as int,
            ),
            final(self).current == vm_string_state(
                old(self).current,
                columns@,
                s@,
                s@.len() as int,
            ),
    {
        let ghost cur0 = self.current;
        let mut frames: Vec<Frame> = Vec::new();
        let mut i: usize = 0;
        while i < s.len()
            invariant
                i <= s@.len(),
                wf_display(self.current),
                forall|k: int| 0 <= k < s@.len() ==> (#[trigger] s@[k]) < columns@.len(),
                self.current == vm_string_state(cur0, columns@, s@, i as int),
                frames@ == vmarque_string_frames(cur0, columns@, s@, wait, i as int),
            decreases s@.len() - i,
        {
            let glyph = columns[s[i] as usize];
            let mut f = self.vmarque_display(glyph, wait);
            proof {
                assert(f@ =~= Seq::new(
                    7,
                    |j: int|
                        Frame {
                            display: vm_state(
                                vm_string_state(cur0, columns@, s@, i as int),
                                glyph_at(columns@, s@, i as int),
                                j,
                            ).0,
                            hold: wait,
                        },
                ));
            }
            frames.append(&mut f);
            i += 1;
        }
        frames
    }
}

/// The opening blink of the randomised marquee: the first glyph flashed
/// three times, then held.
pub open spec fn blink_frames(c: u64) -> Seq<Frame> {
    seq![
        Frame { display: c, hold: FIFTH },
        Frame { display: 0, hold: FIFTH },
        Frame { display: c, hold: FIFTH },
        Frame { display: 0, hold: FIFTH },
        Frame { display: c, hold: FIFTH },
        Frame { display: 0, hold: FIFTH },
        Frame { display: c, hold: FIFTH },
    ]
}

impl Display {
    /// Scroll a mapped string in with a randomly drawn style: possibly
    /// blink the first glyph first, then marquee the rest either
    /// horizontally or vertically.
    pub fn rmarque_string(
        &mut self,
        rng: &mut Random,
        columns: &Vec<u64>,
        s: &[u8],
        wait: u32,
    ) -> (frames: Vec<Frame>)
        requires
            wf_display(old(self).current),
            s@.len() > 0,
            forall|i: int| 0 <= i < s@.len() ==> (#[trigger] s@[i]) < columns@.len(),
            forall|i: int| 0 <= i < columns@.len() ==> wf_display(#[trigger] columns@[i]),
        ensures
            wf_display(final(self).current),
            final(rng).state == spec_stir(old(rng).state, 0),
            ({
                let r = spec_random_n(old(rng).state, 4) as u32;
                let blink: Seq<Frame> = if r & 1 != 0 {
                    blink_frames(glyph_at(columns@, s@, 0))
                } else {
                    Seq::empty()
                };
                let cur1 = if r & 1 != 0 {
                    glyph_at(columns@, s@, 0)
                } else {
                    old(self).current
                };
                let tail: Seq<u8> = if r & 1 != 0 {
                    s@.skip(1)
                } else {
                    s@
                };
                if r & 2 != 0 {
                    frames@ == blink + vmarque_string_frames(
                        cur1,
                        columns@,
                        tail,
                        wait,
                        tail.len() as int,
                    ) && final(self).current == vm_string_state(
                        cur1,
                        columns@,
                        tail,
                        tail.len() as int,
                    )
                } else {
                    frames@ == blink + marque_string_frames(
                        cur1,
                        columns@,
                        tail,
                        wait,
                        tail.len() as int,
                    ) && final(self).current == string_state(
                        cur1,
                        columns@,
                        tail,
                        tail.len() as int,
                    )
                }
            }),
    {
        let r = rng.random_n(4);
        let mut frames: Vec<Frame> = Vec::new();
        let mut tail: &[u8] = s;
        if r & 1 != 0 {
            // Blink the first character...
            let c = columns[s[0] as usize];
            frames.push(Frame { display: c, hold: FIFTH });
            frames.push(Frame { display: 0, hold: FIFTH });
            frames.push(Frame { display: c, hold: FIFTH });
            frames.push(Frame { display: 0, hold: FIFTH });
            frames.push(Frame { display: c, hold: FIFTH });
            frames.push(Frame { display: 0, hold: FIFTH });
            self.current = c;
            frames.push(Frame { display: c, hold: FIFTH });
            proof {
                assert(frames@ =~= blink_frames(glyph_at(columns@, s@, 0)));
            }
            tail = &s[1..s.len()];
        }
        let mut rest = if r & 2 != 0 {
            self.vmarque_string(columns, tail, wait)
        } else {
            self.marque_string(columns, tail, wait)
        };
        frames.append(&mut rest);
        frames
    }
}

} // verus!
