//! Character set: ordering, mapping and parsed glyph patterns.

use blinky::chars::{
    cdot, chars_table, columns, corners, idots0, love, map_char, map_str, mdots, parse,
    parse_array, picture, NUM_CHARS,
};

#[test]
fn chars_in_order() {
    // We do binary searches so make sure we get it right...
    let chars = chars_table();
    for (i, &b) in chars[1..].iter().enumerate() {
        assert!(chars[i] < b, "{i} '{b}'");
    }
}

#[test]
fn char_mapping() {
    assert_eq!(map_char(b' '), 0);
    assert_eq!(map_char(b'0'), 1);
    assert_eq!(map_char(b'9'), 10);
    assert_eq!(map_char(b'?'), 11);
    assert_eq!(map_char(b'A'), 12);
    assert_eq!(map_char(b'Z'), 37);
    assert_eq!(map_str(b"AZ 0"), [12, 37, 0, 1]);
}

#[test]
fn parsed_glyphs() {
    let cols = columns();
    assert_eq!(cols.len(), NUM_CHARS);
    // Hand-computed patterns: bit c * 8 + r for a star in cell (r, c).
    assert_eq!(cols[0], 0);  // space
    assert_eq!(picture('A'), 0x3c_0a09_0a3c);
    assert_eq!(picture('T'), 0x1_013f_0101);
    assert_eq!(picture('X'), 0x23_1408_1423);
    assert_eq!(picture('0'), cols[1]);
    assert_eq!(picture('A'), cols[12]);
}

#[test]
fn parse_star_positions() {
    // A single star in row 2, column 3 sets exactly bit 3 * 8 + 2.
    let p = [
        "      ",
        "      ",
        "   *  ",
        "      ",
        "      ",
        "      ",
    ];
    assert_eq!(parse(&p), 1 << (3 * 8 + 2));
    let all = [
        "******",
        "******",
        "******",
        "******",
        "******",
        "******",
    ];
    assert_eq!(parse(&all), 0x3f3f_3f3f_3f3f);
    let two = parse_array(&[p, all]);
    assert_eq!(two, vec![1 << (3 * 8 + 2), 0x3f3f_3f3f_3f3f]);
}

#[test]
fn named_displays() {
    assert_eq!(cdot(), 0xc0c_0000);
    assert_eq!(love(), 0xe_1122_110e);
    assert_eq!(corners(), 0x2100_0000_0021);
    assert_eq!(mdots(), 0x232_0000_1310);
    assert_ne!(idots0(), 0);
}
