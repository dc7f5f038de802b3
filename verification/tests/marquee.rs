//! Marquee rendering and the random number generator.

use blinky::chars::{columns, map_str};
use blinky::marque::{shl_parts, shr_parts, Display, Frame};
use blinky::random::Random;

#[test]
fn wrap_shift_by_8() {
    // Scrolling a dark column in shifts the display one byte lane
    // down; check a boundary bit pattern in each byte lane.
    for lane in 0..6 {
        let x: u64 = 0x21 << (8 * lane);  // top and bottom row bits
        let mut d = Display::_new(x);
        let frames = d.marque_display(0, 1);
        let mut want = x;
        for f in frames {
            want >>= 8;
            assert_eq!(f.display, want);
        }
        assert_eq!(d.current, 0);
    }
}

#[test]
fn marque_scrolls_glyph_in() {
    let cols = columns();
    let glyph = cols[map_str(b"T")[0] as usize];
    let mut d = Display::_new(0);
    let frames = d.marque_display(glyph, 1);
    assert_eq!(frames.len(), 6);
    // Columns of the glyph enter from the left lane by lane; the last
    // frame shows the full glyph.
    assert_eq!(frames[0].display, (glyph & 0xff) << 40);
    assert_eq!(frames[5].display, glyph);
    assert_eq!(d.current, glyph);
    for f in &frames {
        assert_eq!(f.hold, 1);
    }
}

#[test]
fn marque_string_concatenates() {
    let cols = columns();
    let s = map_str(b"HI");
    let mut d = Display::_new(0);
    let frames = d.marque_string(&cols, &s, 2);
    assert_eq!(frames.len(), 12);
    // After the first glyph the display shows it whole.
    assert_eq!(frames[5].display, cols[s[0] as usize]);
    assert_eq!(frames[11].display, cols[s[1] as usize]);
    assert_eq!(d.current, cols[s[1] as usize]);
}

#[test]
fn parts_shift_independently() {
    // The halves do not bleed into each other.
    assert_eq!(shr_parts(0x0000_0001_0000_0000, 1), 0);
    assert_eq!(shr_parts(0x2200_0000_4400_0000, 4), 0x0220_0000_0440_0000);
    assert_eq!(shl_parts(0x8000_0000_8000_0000, 1), 0);
    assert_eq!(shl_parts(0x0011_0000_0022_0000, 8), 0x1100_0000_2200_0000);
}

#[test]
fn vmarque_feeds_rows() {
    let cols = columns();
    let s = map_str(b"I");
    let mut d = Display::_new(0);
    let frames = d.vmarque_string(&cols, &s, 1);
    assert_eq!(frames.len(), 7);
    // Starting dark, the first (pre-shift) frame is still dark.
    assert_eq!(frames[0].display, 0);
    // Rows of the glyph appear from the top row downward; the final
    // frame shows the full glyph.
    assert_eq!(frames[6].display, cols[s[0] as usize]);
    assert_eq!(d.current, cols[s[0] as usize]);
}

#[test]
fn random_sequence() {
    let mut rng = Random { state: 0 };
    assert_eq!(rng.stir(1), 0x9e37_79b9);
    assert_eq!(rng.stir(2), 0xdf2b_4831);
    let mut rng = Random { state: 1 };
    let r = rng.random_n(6);
    assert_eq!(r, 2);
    assert_eq!(rng.state, 0x79b9_0000);
    for n in 1..100u32 {
        let mut rng = Random { state: 0x1234_5678 ^ n };
        assert!(rng.random_n(n) < n);
    }
}

#[test]
fn rmarque_styles() {
    let cols = columns();
    let s = map_str(b"AB");
    // From a zero PRNG state the draw is 0: no blink, horizontal
    // marquee, identical to marque_string.
    let mut rng = Random { state: 0 };
    let mut d = Display::_new(0);
    let frames = d.rmarque_string(&mut rng, &cols, &s, 1);
    let mut d2 = Display::_new(0);
    let frames2 = d2.marque_string(&cols, &s, 1);
    assert_eq!(frames, frames2);
    assert_eq!(d.current, d2.current);

    // A draw with bit 0 set blinks the first glyph: the blink is seven
    // frames, then the tail scrolls in.
    let mut state: u32 = 0;
    let drawn = loop {
        let mut probe = Random { state };
        let r = probe.random_n(4);
        if r & 1 != 0 && r & 2 == 0 {
            break r;
        }
        state += 1;
    };
    assert!(drawn & 1 != 0);
    let mut rng = Random { state };
    let mut d = Display::_new(0);
    let frames = d.rmarque_string(&mut rng, &cols, &s, 1);
    let c = cols[s[0] as usize];
    let expect: Vec<Frame> = vec![
        Frame { display: c, hold: 1 },
        Frame { display: 0, hold: 1 },
        Frame { display: c, hold: 1 },
        Frame { display: 0, hold: 1 },
        Frame { display: c, hold: 1 },
        Frame { display: 0, hold: 1 },
        Frame { display: c, hold: 1 },
    ];
    assert_eq!(&frames[..7], &expect[..]);
    // The tail (just "B") then scrolls over the held first glyph.
    let mut d2 = Display::_new(c);
    let tail = d2.marque_string(&cols, &s[1..], 1);
    assert_eq!(&frames[7..], &tail[..]);
}
