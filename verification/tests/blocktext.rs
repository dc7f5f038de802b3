//! Rendering display patterns as block-character text.

use blinky::chars::{columns, map_str};
use blinky::text::blocks;

fn test_text<const N: usize>(text: &[u8; N]) {
    let cols = columns();
    let text = map_str(text);
    for row in 0..=1 {
        let mut line = String::new();
        for c in text {
            let b = blocks(cols[c as usize]);
            for i in row * 3..row * 3 + 3 {
                line.push(b[i]);
            }
        }
        println!("{line}");
    }
}

#[test]
fn text1() {
    test_text(b"THIS IS A TEST");
    test_text(b"ABCDEFGHIJKLMNOPQRSTUVWXYZ");
    test_text(b"0123456789");
}

#[test]
fn blocks_cells() {
    // A dark display renders as all spaces.
    assert_eq!(blocks(0), [' '; 6]);
    // The 'A' glyph renders with its hand-computed octant characters.
    let cols = columns();
    let b = blocks(cols[12]);
    assert_eq!(b[0], '\u{1cdc3}');
    assert_eq!(b[1], '\u{1cdb4}');
    assert_eq!(b[2], '\u{2596}');
    assert_eq!(b[3], '\u{2598}');
    assert_eq!(b[4], ' ');
    assert_eq!(b[5], '\u{2598}');
}
