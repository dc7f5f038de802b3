//! The character set: 6x6 glyph pictures drawn as text, the parser
//! that turns a picture into its display pattern, and the mapping from
//! ASCII codes to glyph indexes.
//!
//! A display pattern is a 64-bit word with one byte lane per column;
//! bit `c * 8 + r` is set when cell `c` of row `r` is lit.

use vstd::prelude::*;

use vstd::string::StrSliceExecFns;

use crate::bitops::lemma_or_assoc;
use crate::bitops::lemma_or_bound48;
use crate::bitops::lemma_or_zero;
use crate::bitops::lemma_shift_bound48;

verus! {

/// A glyph as drawn: six rows of six cells, `*` for a lit LED.
pub type Picture = [&'static str; 6];

/// Number of characters in the set.
pub const NUM_CHARS: usize = 38;

/// A row of glyph art is six cells, each a blank or a star.
pub open spec fn wf_row(row: Seq<char>) -> bool {
    row.len() == 6 && forall|c: int| 0 <= c < 6 ==> row[c] == ' ' || row[c] == '*'
}

/// Well-formed glyph art: six well-formed rows.
pub open spec fn wf_picture(p: &Picture) -> bool {
    forall|r: int| 0 <= r < 6 ==> wf_row((#[trigger] p@[r])@)
}

/// The rows of a picture as character sequences.
pub open spec fn pic_view(p: Picture) -> Seq<Seq<char>> {
    Seq::new(6, |r: int| p@[r]@)
}

/// Display bits contributed by the first `n` cells of row `r`.
pub open spec fn row_bits(row: Seq<char>, r: int, n: int) -> u64
    decreases n,
{
    if n <= 0 {
        0u64
    } else if row[n - 1] == '*' {
        row_bits(row, r, n - 1) | (1u64 << (((n - 1) * 8 + r) as u64))
    } else {
        row_bits(row, r, n - 1)
    }
}

/// Display bits contributed by the first `rows` rows of a picture.
pub open spec fn pic_bits(p: Seq<Seq<char>>, rows: int) -> u64
    decreases rows,
{
    if rows <= 0 {
        0u64
    } else {
        pic_bits(p, rows - 1) | row_bits(p[rows - 1], rows - 1, 6)
    }
}

/// The display pattern a picture draws: bit `c * 8 + r` is set exactly
/// when cell `c` of row `r` holds a star.
pub open spec fn spec_parse(p: Seq<Seq<char>>) -> u64 {
    pic_bits(p, 6)
}

/// Parse glyph art into its display pattern.
pub fn parse(p: &Picture) -> (columns: u64)
    requires
        wf_picture(p),
    ensures
        columns == spec_parse(pic_view(*p)),
{
    let mut columns: u64 = 0;
    let mut r: usize = 0;
    while r < 6
        invariant
            r <= 6,
            wf_picture(p),
            columns == pic_bits(pic_view(*p), r as int),
        decreases 6 - r,
    {
        let row: &str = p[r];
        proof {
            lemma_or_zero(pic_bits(pic_view(*p), r as int));
        }
        let mut c: usize = 0;
        while c < 6
            invariant
                c <= 6,
                r < 6,
                wf_picture(p),
                row@ == p@[r as int]@,
                columns == pic_bits(pic_view(*p), r as int) | row_bits(row@, r as int, c as int),
            decreases 6 - c,
        {
            let ch = row.get_char(c);
            if ch == '*' {
                proof {
                    lemma_or_assoc(
                        pic_bits(pic_view(*p), r as int),
                        row_bits(row@, r as int, c as int),
                        1u64 << ((c * 8 + r) as u64),
                    );
                }
                columns = columns | (1u64 << ((c * 8 + r) as u64));
            }
            c += 1;
        }
        r += 1;
    }
    columns
}

/// Parse a list of pictures into their display patterns.
pub fn parse_array(p: &[Picture]) -> (r: Vec<u64>)
    requires
        forall|i: int| 0 <= i < p@.len() ==> wf_picture(&(#[trigger] p@[i])),
    ensures
        r@.len() == p@.len(),
        forall|i: int| 0 <= i < p@.len() ==> #[trigger] r@[i] == spec_parse(pic_view(p@[i])),
{
    let mut r: Vec<u64> = Vec::new();
    let mut i: usize = 0;
    while i < p.len()
        invariant
            i <= p@.len(),
            r@.len() == i,
            forall|k: int| 0 <= k < p@.len() ==> wf_picture(&(#[trigger] p@[k])),
            forall|k: int| 0 <= k < i ==> #[trigger] r@[k] == spec_parse(pic_view(p@[k])),
        decreases p@.len() - i,
    {
        r.push(parse(&p[i]));
        i += 1;
    }
    r
}

/// No parsed pattern leaves the 48-bit window of the six byte lanes.
pub proof fn lemma_parse_bound(p: Seq<Seq<char>>)
    ensures
        spec_parse(p) < 0x1_0000_0000_0000,
{
    lemma_pic_bits_bound(p, 6);
}

proof fn lemma_row_bits_bound(row: Seq<char>, r: int, n: int)
    requires
        0 <= r < 6,
        n <= 6,
    ensures
        row_bits(row, r, n) < 0x1_0000_0000_0000,
    decreases n,
{
    if n > 0 {
        lemma_row_bits_bound(row, r, n - 1);
        lemma_shift_bound48((((n - 1) * 8 + r)) as u64);
        lemma_or_bound48(row_bits(row, r, n - 1), 1u64 << ((((n - 1) * 8 + r)) as u64));
    }
}

proof fn lemma_pic_bits_bound(p: Seq<Seq<char>>, rows: int)
    requires
        rows <= 6,
    ensures
        pic_bits(p, rows) < 0x1_0000_0000_0000,
    decreases rows,
{
    if rows > 0 {
        lemma_pic_bits_bound(p, rows - 1);
        lemma_row_bits_bound(p[rows - 1], rows - 1, 6);
        lemma_or_bound48(pic_bits(p, rows - 1), row_bits(p[rows - 1], rows - 1, 6));
    }
}

/// The glyph art of character `i`, in the order of `char_code`.
pub open spec fn glyph_art(i: int) -> Seq<Seq<char>> {
    if i == 0 {
        seq![
            "      "@,
            "      "@,
            "      "@,
            "      "@,
            "      "@,
            "      "@,
        ]
    } else if i == 1 {
        seq![
            " ***  "@,
            "*   * "@,
            "*   * "@,
            "*   * "@,
            "*   * "@,
            " ***  "@,
        ]
    } else if i == 2 {
        seq![
            "  *   "@,
            " **   "@,
            "* *   "@,
            "  *   "@,
            "  *   "@,
            "***** "@,
        ]
    } else if i == 3 {
        seq![
            " ***  "@,
            "*   * "@,
            "   *  "@,
            "  *   "@,
            " *    "@,
            "***** "@,
        ]
    } else if i == 4 {
        seq![
            " ***  "@,
            "*   * "@,
            "  **  "@,
            "    * "@,
            "*   * "@,
            " ***  "@,
        ]
    } else if i == 5 {
        seq![
            "   *  "@,
            "  *   "@,
            " *    "@,
            "*  *  "@,
            "***** "@,
            "   *  "@,
        ]
    } else if i == 6 {
        seq![
            "***** "@,
            "*     "@,
            "****  "@,
            "    * "@,
            "*   * "@,
            " ***  "@,
        ]
    } else if i == 7 {
        seq![
            " **** "@,
            "*     "@,
            "****  "@,
            "*   * "@,
            "*   * "@,
            " ***  "@,
        ]
    } else if i == 8 {
        seq![
            "***** "@,
            "    * "@,
            "   *  "@,
            "  *   "@,
            " *    "@,
            "*     "@,
        ]
    } else if i == 9 {
        seq![
            " ***  "@,
            "*   * "@,
            " ***  "@,
            "*   * "@,
            "*   * "@,
            " ***  "@,
        ]
    } else if i == 10 {
        seq![
            " ***  "@,
            "*   * "@,
            "*   * "@,
            " **** "@,
            "   *  "@,
            "  *   "@,
        ]
    } else if i == 11 {
        seq![
            " ***  "@,
            "*   * "@,
            "   *  "@,
            "  *   "@,
            "      "@,
            "  *   "@,
        ]
    } else if i == 12 {
        seq![
            "  *   "@,
            " * *  "@,
            "*   * "@,
            "***** "@,
            "*   * "@,
            "*   * "@,
        ]
    } else if i == 13 {
        seq![
            "****  "@,
            "*   * "@,
            "****  "@,
            "*   * "@,
            "*   * "@,
            "****  "@,
        ]
    } else if i == 14 {
        seq![
            " ***  "@,
            "*   * "@,
            "*     "@,
            "*     "@,
            "*   * "@,
            " ***  "@,
        ]
    } else if i == 15 {
        seq![
            "****  "@,
            "*   * "@,
            "*   * "@,
            "*   * "@,
            "*   * "@,
            "****  "@,
        ]
    } else if i == 16 {
        seq![
            "***** "@,
            "*     "@,
            "***   "@,
            "*     "@,
            "*     "@,
            "***** "@,
        ]
    } else if i == 17 {
        seq![
            "***** "@,
            "*     "@,
            "****  "@,
            "*     "@,
            "*     "@,
            "*     "@,
        ]
    } else if i == 18 {
        seq![
            " ***  "@,
            "*   * "@,
            "*     "@,
            "*  ** "@,
            "*   * "@,
            " ***  "@,
        ]
    } else if i == 19 {
        seq![
            "*   * "@,
            "*   * "@,
            "***** "@,
            "*   * "@,
            "*   * "@,
            "*   * "@,
        ]
    } else if i == 20 {
        seq![
            "***** "@,
            "  *   "@,
            "  *   "@,
            "  *   "@,
            "  *   "@,
            "***** "@,
        ]
    } else if i == 21 {
        seq![
            "***** "@,
            "   *  "@,
            "   *  "@,
            "   *  "@,
            "*  *  "@,
            " **   "@,
        ]
    } else if i == 22 {
        seq![
            "*   * "@,
            "*  *  "@,
            "* *   "@,
            "**    "@,
            "* *   "@,
            "*  *  "@,
        ]
    } else if i == 23 {
        seq![
            "*     "@,
            "*     "@,
            "*     "@,
            "*     "@,
            "*     "@,
            "***** "@,
        ]
    } else if i == 24 {
        seq![
            "*   * "@,
            "** ** "@,
            "* * * "@,
            "*   * "@,
            "*   * "@,
            "*   * "@,
        ]
    } else if i == 25 {
        seq![
            "*   * "@,
            "**  * "@,
            "* * * "@,
            "*  ** "@,
            "*   * "@,
            "*   * "@,
        ]
    } else if i == 26 {
        seq![
            " ***  "@,
            "*   * "@,
            "*   * "@,
            "*   * "@,
            "*   * "@,
            " ***  "@,
        ]
    } else if i == 27 {
        seq![
            "****  "@,
            "*   * "@,
            "*   * "@,
            "****  "@,
            "*     "@,
            "*     "@,
        ]
    } else if i == 28 {
        seq![
            " ***  "@,
            "*   * "@,
            "*   * "@,
            "*   * "@,
            "*  *  "@,
            " ** * "@,
        ]
    } else if i == 29 {
        seq![
            "****  "@,
            "*   * "@,
            "*   * "@,
            "****  "@,
            "* *   "@,
            "*  *  "@,
        ]
    } else if i == 30 {
        seq![
            " ***  "@,
            "*   * "@,
            " **   "@,
            "   *  "@,
            "*   * "@,
            " ***  "@,
        ]
    } else if i == 31 {
        seq![
            "***** "@,
            "  *   "@,
            "  *   "@,
            "  *   "@,
            "  *   "@,
            "  *   "@,
        ]
    } else if i == 32 {
        seq![
            "*   * "@,
            "*   * "@,
            "*   * "@,
            "*   * "@,
            "*   * "@,
            " ***  "@,
        ]
    } else if i == 33 {
        seq![
            "*   * "@,
            "*   * "@,
            "*   * "@,
            "*   * "@,
            " * *  "@,
            "  *   "@,
        ]
    } else if i == 34 {
        seq![
            "*   * "@,
            "*   * "@,
            "*   * "@,
            "* * * "@,
            "* * * "@,
            " * *  "@,
        ]
    } else if i == 35 {
        seq![
            "*   * "@,
            "*   * "@,
            " * *  "@,
            "  *   "@,
            " * *  "@,
            "*   * "@,
        ]
    } else if i == 36 {
        seq![
            "*   * "@,
            "*   * "@,
            " * *  "@,
            "  *   "@,
            "  *   "@,
            "  *   "@,
        ]
    } else {
        seq![
            "***** "@,
            "   *  "@,
            "  *   "@,
            " *    "@,
            "*     "@,
            "***** "@,
        ]
    }
}

/// The display pattern of character `i`.
pub open spec fn glyph_columns(i: int) -> u64 {
    spec_parse(glyph_art(i))
}

fn pic_spc() -> (r: u64)
    ensures
        r == glyph_columns(0),
{
    let p = [
        "      ",
        "      ",
        "      ",
        "      ",
        "      ",
        "      ",
    ];
    proof {
        reveal_strlit("      ");
        assert(wf_picture(&p));
        assert(pic_view(p) =~~= glyph_art(0));
    }
    parse(&p)
}

fn pic_d0() -> (r: u64)
    ensures
        r == glyph_columns(1),
{
    let p = [
        " ***  ",
        "*   * ",
        "*   * ",
        "*   * ",
        "*   * ",
        " ***  ",
    ];
    proof {
        reveal_strlit(" ***  ");
        reveal_strlit("*   * ");
        assert(wf_picture(&p));
        assert(pic_view(p) =~~= glyph_art(1));
    }
    parse(&p)
}

fn pic_d1() -> (r: u64)
    ensures
        r == glyph_columns(2),
{
    let p = [
        "  *   ",
        " **   ",
        "* *   ",
        "  *   ",
        "  *   ",
        "***** ",
    ];
    proof {
        reveal_strlit("  *   ");
        reveal_strlit(" **   ");
        reveal_strlit("* *   ");
        reveal_strlit("***** ");
        assert(wf_picture(&p));
        assert(pic_view(p) =~~= glyph_art(2));
    }
    parse(&p)
}

fn pic_d2() -> (r: u64)
    ensures
        r == glyph_columns(3),
{
    let p = [
        " ***  ",
        "*   * ",
        "   *  ",
        "  *   ",
        " *    ",
        "***** ",
    ];
    proof {
        reveal_strlit(" ***  ");
        reveal_strlit("*   * ");
        reveal_strlit("   *  ");
        reveal_strlit("  *   ");
        reveal_strlit(" *    ");
        reveal_strlit("***** ");
        assert(wf_picture(&p));
        assert(pic_view(p) =~~= glyph_art(3));
    }
    parse(&p)
}

fn pic_d3() -> (r: u64)
    ensures
        r == glyph_columns(4),
{
    let p = [
        " ***  ",
        "*   * ",
        "  **  ",
        "    * ",
        "*   * ",
        " ***  ",
    ];
    proof {
        reveal_strlit(" ***  ");
        reveal_strlit("*   * ");
        reveal_strlit("  **  ");
        reveal_strlit("    * ");
        assert(wf_picture(&p));
        assert(pic_view(p) =~~= glyph_art(4));
    }
    parse(&p)
}

fn pic_d4() -> (r: u64)
    ensures
        r == glyph_columns(5),
{
    let p = [
        "   *  ",
        "  *   ",
        " *    ",
        "*  *  ",
        "***** ",
        "   *  ",
    ];
    proof {
        reveal_strlit("   *  ");
        reveal_strlit("  *   ");
        reveal_strlit(" *    ");
        reveal_strlit("*  *  ");
        reveal_strlit("***** ");
        assert(wf_picture(&p));
        assert(pic_view(p) =~~= glyph_art(5));
    }
    parse(&p)
}

fn pic_d5() -> (r: u64)
    ensures
        r == glyph_columns(6),
{
    let p = [
        "***** ",
        "*     ",
        "****  ",
        "    * ",
        "*   * ",
        " ***  ",
    ];
    proof {
        reveal_strlit("***** ");
        reveal_strlit("*     ");
        reveal_strlit("****  ");
        reveal_strlit("    * ");
        reveal_strlit("*   * ");
        reveal_strlit(" ***  ");
        assert(wf_picture(&p));
        assert(pic_view(p) =~~= glyph_art(6));
    }
    parse(&p)
}

fn pic_d6() -> (r: u64)
    ensures
        r == glyph_columns(7),
{
    let p = [
        " **** ",
        "*     ",
        "****  ",
        "*   * ",
        "*   * ",
        " ***  ",
    ];
    proof {
        reveal_strlit(" **** ");
        reveal_strlit("*     ");
        reveal_strlit("****  ");
        reveal_strlit("*   * ");
        reveal_strlit(" ***  ");
        assert(wf_picture(&p));
        assert(pic_view(p) =~~= glyph_art(7));
    }
    parse(&p)
}

fn pic_d7() -> (r: u64)
    ensures
        r == glyph_columns(8),
{
    let p = [
        "***** ",
        "    * ",
        "   *  ",
        "  *   ",
        " *    ",
        "*     ",
    ];
    proof {
        reveal_strlit("***** ");
        reveal_strlit("    * ");
        reveal_strlit("   *  ");
        reveal_strlit("  *   ");
        reveal_strlit(" *    ");
        reveal_strlit("*     ");
        assert(wf_picture(&p));
        assert(pic_view(p) =~~= glyph_art(8));
    }
    parse(&p)
}

fn pic_d8() -> (r: u64)
    ensures
        r == glyph_columns(9),
{
    let p = [
        " ***  ",
        "*   * ",
        " ***  ",
        "*   * ",
        "*   * ",
        " ***  ",
    ];
    proof {
        reveal_strlit(" ***  ");
        reveal_strlit("*   * ");
        assert(wf_picture(&p));
        assert(pic_view(p) =~~= glyph_art(9));
    }
    parse(&p)
}

fn pic_d9() -> (r: u64)
    ensures
        r == glyph_columns(10),
{
    let p = [
        " ***  ",
        "*   * ",
        "*   * ",
        " **** ",
        "   *  ",
        "  *   ",
    ];
    proof {
        reveal_strlit(" ***  ");
        reveal_strlit("*   * ");
        reveal_strlit(" **** ");
        reveal_strlit("   *  ");
        reveal_strlit("  *   ");
        assert(wf_picture(&p));
        assert(pic_view(p) =~~= glyph_art(10));
    }
    parse(&p)
}

fn pic_question() -> (r: u64)
    ensures
        r == glyph_columns(11),
{
    let p = [
        " ***  ",
        "*   * ",
        "   *  ",
        "  *   ",
        "      ",
        "  *   ",
    ];
    proof {
        reveal_strlit(" ***  ");
        reveal_strlit("*   * ");
        reveal_strlit("   *  ");
        reveal_strlit("  *   ");
        reveal_strlit("      ");
        assert(wf_picture(&p));
        assert(pic_view(p) =~~= glyph_art(11));
    }
    parse(&p)
}

fn pic_a() -> (r: u64)
    ensures
        r == glyph_columns(12),
{
    let p = [
        "  *   ",
        " * *  ",
        "*   * ",
        "***** ",
        "*   * ",
        "*   * ",
    ];
    proof {
        reveal_strlit("  *   ");
        reveal_strlit(" * *  ");
        reveal_strlit("*   * ");
        reveal_strlit("***** ");
        assert(wf_picture(&p));
        assert(pic_view(p) =~~= glyph_art(12));
    }
    parse(&p)
}

fn pic_b() -> (r: u64)
    ensures
        r == glyph_columns(13),
{
    let p = [
        "****  ",
        "*   * ",
        "****  ",
        "*   * ",
        "*   * ",
        "****  ",
    ];
    proof {
        reveal_strlit("****  ");
        reveal_strlit("*   * ");
        assert(wf_picture(&p));
        assert(pic_view(p) =~~= glyph_art(13));
    }
    parse(&p)
}

fn pic_c() -> (r: u64)
    ensures
        r == glyph_columns(14),
{
    let p = [
        " ***  ",
        "*   * ",
        "*     ",
        "*     ",
        "*   * ",
        " ***  ",
    ];
    proof {
        reveal_strlit(" ***  ");
        reveal_strlit("*   * ");
        reveal_strlit("*     ");
        assert(wf_picture(&p));
        assert(pic_view(p) =~~= glyph_art(14));
    }
    parse(&p)
}

fn pic_d() -> (r: u64)
    ensures
        r == glyph_columns(15),
{
    let p = [
        "****  ",
        "*   * ",
        "*   * ",
        "*   * ",
        "*   * ",
        "****  ",
    ];
    proof {
        reveal_strlit("****  ");
        reveal_strlit("*   * ");
        assert(wf_picture(&p));
        assert(pic_view(p) =~~= glyph_art(15));
    }
    parse(&p)
}

fn pic_e() -> (r: u64)
    ensures
        r == glyph_columns(16),
{
    let p = [
        "***** ",
        "*     ",
        "***   ",
        "*     ",
        "*     ",
        "***** ",
    ];
    proof {
        reveal_strlit("***** ");
        reveal_strlit("*     ");
        reveal_strlit("***   ");
        assert(wf_picture(&p));
        assert(pic_view(p) =~~= glyph_art(16));
    }
    parse(&p)
}

fn pic_f() -> (r: u64)
    ensures
        r == glyph_columns(17),
{
    let p = [
        "***** ",
        "*     ",
        "****  ",
        "*     ",
        "*     ",
        "*     ",
    ];
    proof {
        reveal_strlit("***** ");
        reveal_strlit("*     ");
        reveal_strlit("****  ");
        assert(wf_picture(&p));
        assert(pic_view(p) =~~= glyph_art(17));
    }
    parse(&p)
}

fn pic_g() -> (r: u64)
    ensures
        r == glyph_columns(18),
{
    let p = [
        " ***  ",
        "*   * ",
        "*     ",
        "*  ** ",
        "*   * ",
        " ***  ",
    ];
    proof {
        reveal_strlit(" ***  ");
        reveal_strlit("*   * ");
        reveal_strlit("*     ");
        reveal_strlit("*  ** ");
        assert(wf_picture(&p));
        assert(pic_view(p) =~~= glyph_art(18));
    }
    parse(&p)
}

fn pic_h() -> (r: u64)
    ensures
        r == glyph_columns(19),
{
    let p = [
        "*   * ",
        "*   * ",
        "***** ",
        "*   * ",
        "*   * ",
        "*   * ",
    ];
    proof {
        reveal_strlit("*   * ");
        reveal_strlit("***** ");
        assert(wf_picture(&p));
        assert(pic_view(p) =~~= glyph_art(19));
    }
    parse(&p)
}

fn pic_i() -> (r: u64)
    ensures
        r == glyph_columns(20),
{
    let p = [
        "***** ",
        "  *   ",
        "  *   ",
        "  *   ",
        "  *   ",
        "***** ",
    ];
    proof {
        reveal_strlit("***** ");
        reveal_strlit("  *   ");
        assert(wf_picture(&p));
        assert(pic_view(p) =~~= glyph_art(20));
    }
    parse(&p)
}

fn pic_j() -> (r: u64)
    ensures
        r == glyph_columns(21),
{
    let p = [
        "***** ",
        "   *  ",
        "   *  ",
        "   *  ",
        "*  *  ",
        " **   ",
    ];
    proof {
        reveal_strlit("***** ");
        reveal_strlit("   *  ");
        reveal_strlit("*  *  ");
        reveal_strlit(" **   ");
        assert(wf_picture(&p));
        assert(pic_view(p) =~~= glyph_art(21));
    }
    parse(&p)
}

fn pic_k() -> (r: u64)
    ensures
        r == glyph_columns(22),
{
    let p = [
        "*   * ",
        "*  *  ",
        "* *   ",
        "**    ",
        "* *   ",
        "*  *  ",
    ];
    proof {
        reveal_strlit("*   * ");
        reveal_strlit("*  *  ");
        reveal_strlit("* *   ");
        reveal_strlit("**    ");
        assert(wf_picture(&p));
        assert(pic_view(p) =~~= glyph_art(22));
    }
    parse(&p)
}

fn pic_l() -> (r: u64)
    ensures
        r == glyph_columns(23),
{
    let p = [
        "*     ",
        "*     ",
        "*     ",
        "*     ",
        "*     ",
        "***** ",
    ];
    proof {
        reveal_strlit("*     ");
        reveal_strlit("***** ");
        assert(wf_picture(&p));
        assert(pic_view(p) =~~= glyph_art(23));
    }
    parse(&p)
}

fn pic_m() -> (r: u64)
    ensures
        r == glyph_columns(24),
{
    let p = [
        "*   * ",
        "** ** ",
        "* * * ",
        "*   * ",
        "*   * ",
        "*   * ",
    ];
    proof {
        reveal_strlit("*   * ");
        reveal_strlit("** ** ");
        reveal_strlit("* * * ");
        assert(wf_picture(&p));
        assert(pic_view(p) =~~= glyph_art(24));
    }
    parse(&p)
}

fn pic_n() -> (r: u64)
    ensures
        r == glyph_columns(25),
{
    let p = [
        "*   * ",
        "**  * ",
        "* * * ",
        "*  ** ",
        "*   * ",
        "*   * ",
    ];
    proof {
        reveal_strlit("*   * ");
        reveal_strlit("**  * ");
        reveal_strlit("* * * ");
        reveal_strlit("*  ** ");
        assert(wf_picture(&p));
        assert(pic_view(p) =~~= glyph_art(25));
    }
    parse(&p)
}

fn pic_o() -> (r: u64)
    ensures
        r == glyph_columns(26),
{
    let p = [
        " ***  ",
        "*   * ",
        "*   * ",
        "*   * ",
        "*   * ",
        " ***  ",
    ];
    proof {
        reveal_strlit(" ***  ");
        reveal_strlit("*   * ");
        assert(wf_picture(&p));
        assert(pic_view(p) =~~= glyph_art(26));
    }
    parse(&p)
}

fn pic_p() -> (r: u64)
    ensures
        r == glyph_columns(27),
{
    let p = [
        "****  ",
        "*   * ",
        "*   * ",
        "****  ",
        "*     ",
        "*     ",
    ];
    proof {
        reveal_strlit("****  ");
        reveal_strlit("*   * ");
        reveal_strlit("*     ");
        assert(wf_picture(&p));
        assert(pic_view(p) =~~= glyph_art(27));
    }
    parse(&p)
}

fn pic_q() -> (r: u64)
    ensures
        r == glyph_columns(28),
{
    let p = [
        " ***  ",
        "*   * ",
        "*   * ",
        "*   * ",
        "*  *  ",
        " ** * ",
    ];
    proof {
        reveal_strlit(" ***  ");
        reveal_strlit("*   * ");
        reveal_strlit("*  *  ");
        reveal_strlit(" ** * ");
        assert(wf_picture(&p));
        assert(pic_view(p) =~~= glyph_art(28));
    }
    parse(&p)
}

fn pic_r() -> (r: u64)
    ensures
        r == glyph_columns(29),
{
    let p = [
        "****  ",
        "*   * ",
        "*   * ",
        "****  ",
        "* *   ",
        "*  *  ",
    ];
    proof {
        reveal_strlit("****  ");
        reveal_strlit("*   * ");
        reveal_strlit("* *   ");
        reveal_strlit("*  *  ");
        assert(wf_picture(&p));
        assert(pic_view(p) =~~= glyph_art(29));
    }
    parse(&p)
}

fn pic_s() -> (r: u64)
    ensures
        r == glyph_columns(30),
{
    let p = [
        " ***  ",
        "*   * ",
        " **   ",
        "   *  ",
        "*   * ",
        " ***  ",
    ];
    proof {
        reveal_strlit(" ***  ");
        reveal_strlit("*   * ");
        reveal_strlit(" **   ");
        reveal_strlit("   *  ");
        assert(wf_picture(&p));
        assert(pic_view(p) =~~= glyph_art(30));
    }
    parse(&p)
}

fn pic_t() -> (r: u64)
    ensures
        r == glyph_columns(31),
{
    let p = [
        "***** ",
        "  *   ",
        "  *   ",
        "  *   ",
        "  *   ",
        "  *   ",
    ];
    proof {
        reveal_strlit("***** ");
        reveal_strlit("  *   ");
        assert(wf_picture(&p));
        assert(pic_view(p) =~~= glyph_art(31));
    }
    parse(&p)
}

fn pic_u() -> (r: u64)
    ensures
        r == glyph_columns(32),
{
    let p = [
        "*   * ",
        "*   * ",
        "*   * ",
        "*   * ",
        "*   * ",
        " ***  ",
    ];
    proof {
        reveal_strlit("*   * ");
        reveal_strlit(" ***  ");
        assert(wf_picture(&p));
        assert(pic_view(p) =~~= glyph_art(32));
    }
    parse(&p)
}

fn pic_v() -> (r: u64)
    ensures
        r == glyph_columns(33),
{
    let p = [
        "*   * ",
        "*   * ",
        "*   * ",
        "*   * ",
        " * *  ",
        "  *   ",
    ];
    proof {
        reveal_strlit("*   * ");
        reveal_strlit(" * *  ");
        reveal_strlit("  *   ");
        assert(wf_picture(&p));
        assert(pic_view(p) =~~= glyph_art(33));
    }
    parse(&p)
}

fn pic_w() -> (r: u64)
    ensures
        r == glyph_columns(34),
{
    let p = [
        "*   * ",
        "*   * ",
        "*   * ",
        "* * * ",
        "* * * ",
        " * *  ",
    ];
    proof {
        reveal_strlit("*   * ");
        reveal_strlit("* * * ");
        reveal_strlit(" * *  ");
        assert(wf_picture(&p));
        assert(pic_view(p) =~~= glyph_art(34));
    }
    parse(&p)
}

fn pic_x() -> (r: u64)
    ensures
        r == glyph_columns(35),
{
    let p = [
        "*   * ",
        "*   * ",
        " * *  ",
        "  *   ",
        " * *  ",
        "*   * ",
    ];
    proof {
        reveal_strlit("*   * ");
        reveal_strlit(" * *  ");
        reveal_strlit("  *   ");
        assert(wf_picture(&p));
        assert(pic_view(p) =~~= glyph_art(35));
    }
    parse(&p)
}

fn pic_y() -> (r: u64)
    ensures
        r == glyph_columns(36),
{
    let p = [
        "*   * ",
        "*   * ",
        " * *  ",
        "  *   ",
        "  *   ",
        "  *   ",
    ];
    proof {
        reveal_strlit("*   * ");
        reveal_strlit(" * *  ");
        reveal_strlit("  *   ");
        assert(wf_picture(&p));
        assert(pic_view(p) =~~= glyph_art(36));
    }
    parse(&p)
}

fn pic_z() -> (r: u64)
    ensures
        r == glyph_columns(37),
{
    let p = [
        "***** ",
        "   *  ",
        "  *   ",
        " *    ",
        "*     ",
        "***** ",
    ];
    proof {
        reveal_strlit("***** ");
        reveal_strlit("   *  ");
        reveal_strlit("  *   ");
        reveal_strlit(" *    ");
        reveal_strlit("*     ");
        assert(wf_picture(&p));
        assert(pic_view(p) =~~= glyph_art(37));
    }
    parse(&p)
}

/// The parsed display pattern of every character, by glyph index.
pub fn columns() -> (r: Vec<u64>)
    ensures
        r@.len() == NUM_CHARS,
        forall|i: int| 0 <= i < NUM_CHARS ==> #[trigger] r@[i] == glyph_columns(i),
{
    let mut r: Vec<u64> = Vec::new();
    r.push(pic_spc());
    proof {
        assert(r@ =~= Seq::new(1, |i: int| glyph_columns(i)));
    }
    r.push(pic_d0());
    proof {
        assert(r@ =~= Seq::new(2, |i: int| glyph_columns(i)));
    }
    r.push(pic_d1());
    proof {
        assert(r@ =~= Seq::new(3, |i: int| glyph_columns(i)));
    }
    r.push(pic_d2());
    proof {
        assert(r@ =~= Seq::new(4, |i: int| glyph_columns(i)));
    }
    r.push(pic_d3());
    proof {
        assert(r@ =~= Seq::new(5, |i: int| glyph_columns(i)));
    }
    r.push(pic_d4());
    proof {
        assert(r@ =~= Seq::new(6, |i: int| glyph_columns(i)));
    }
    r.push(pic_d5());
    proof {
        assert(r@ =~= Seq::new(7, |i: int| glyph_columns(i)));
    }
    r.push(pic_d6());
    proof {
        assert(r@ =~= Seq::new(8, |i: int| glyph_columns(i)));
    }
    r.push(pic_d7());
    proof {
        assert(r@ =~= Seq::new(9, |i: int| glyph_columns(i)));
    }
    r.push(pic_d8());
    proof {
        assert(r@ =~= Seq::new(10, |i: int| glyph_columns(i)));
    }
    r.push(pic_d9());
    proof {
        assert(r@ =~= Seq::new(11, |i: int| glyph_columns(i)));
    }
    r.push(pic_question());
    proof {
        assert(r@ =~= Seq::new(12, |i: int| glyph_columns(i)));
    }
    r.push(pic_a());
    proof {
        assert(r@ =~= Seq::new(13, |i: int| glyph_columns(i)));
    }
    r.push(pic_b());
    proof {
        assert(r@ =~= Seq::new(14, |i: int| glyph_columns(i)));
    }
    r.push(pic_c());
    proof {
        assert(r@ =~= Seq::new(15, |i: int| glyph_columns(i)));
    }
    r.push(pic_d());
    proof {
        assert(r@ =~= Seq::new(16, |i: int| glyph_columns(i)));
    }
    r.push(pic_e());
    proof {
        assert(r@ =~= Seq::new(17, |i: int| glyph_columns(i)));
    }
    r.push(pic_f());
    proof {
        assert(r@ =~= Seq::new(18, |i: int| glyph_columns(i)));
    }
    r.push(pic_g());
    proof {
        assert(r@ =~= Seq::new(19, |i: int| glyph_columns(i)));
    }
    r.push(pic_h());
    proof {
        assert(r@ =~= Seq::new(20, |i: int| glyph_columns(i)));
    }
    r.push(pic_i());
    proof {
        assert(r@ =~= Seq::new(21, |i: int| glyph_columns(i)));
    }
    r.push(pic_j());
    proof {
        assert(r@ =~= Seq::new(22, |i: int| glyph_columns(i)));
    }
    r.push(pic_k());
    proof {
        assert(r@ =~= Seq::new(23, |i: int| glyph_columns(i)));
    }
    r.push(pic_l());
    proof {
        assert(r@ =~= Seq::new(24, |i: int| glyph_columns(i)));
    }
    r.push(pic_m());
    proof {
        assert(r@ =~= Seq::new(25, |i: int| glyph_columns(i)));
    }
    r.push(pic_n());
    proof {
        assert(r@ =~= Seq::new(26, |i: int| glyph_columns(i)));
    }
    r.push(pic_o());
    proof {
        assert(r@ =~= Seq::new(27, |i: int| glyph_columns(i)));
    }
    r.push(pic_p());
    proof {
        assert(r@ =~= Seq::new(28, |i: int| glyph_columns(i)));
    }
    r.push(pic_q());
    proof {
        assert(r@ =~= Seq::new(29, |i: int| glyph_columns(i)));
    }
    r.push(pic_r());
    proof {
        assert(r@ =~= Seq::new(30, |i: int| glyph_columns(i)));
    }
    r.push(pic_s());
    proof {
        assert(r@ =~= Seq::new(31, |i: int| glyph_columns(i)));
    }
    r.push(pic_t());
    proof {
        assert(r@ =~= Seq::new(32, |i: int| glyph_columns(i)));
    }
    r.push(pic_u());
    proof {
        assert(r@ =~= Seq::new(33, |i: int| glyph_columns(i)));
    }
    r.push(pic_v());
    proof {
        assert(r@ =~= Seq::new(34, |i: int| glyph_columns(i)));
    }
    r.push(pic_w());
    proof {
        assert(r@ =~= Seq::new(35, |i: int| glyph_columns(i)));
    }
    r.push(pic_x());
    proof {
        assert(r@ =~= Seq::new(36, |i: int| glyph_columns(i)));
    }
    r.push(pic_y());
    proof {
        assert(r@ =~= Seq::new(37, |i: int| glyph_columns(i)));
    }
    r.push(pic_z());
    proof {
        assert(r@ =~= Seq::new(38, |i: int| glyph_columns(i)));
    }
    r
}

pub fn cdot() -> (r: u64)
    ensures
        r == spec_parse(seq!["      "@, "      "@, "  **  "@, "  **  "@, "      "@, "      "@]),
{
    let p = [
        "      ",
        "      ",
        "  **  ",
        "  **  ",
        "      ",
        "      ",
    ];
    proof {
        reveal_strlit("      ");
        reveal_strlit("  **  ");
        assert(wf_picture(&p));
        assert(pic_view(p) =~~= seq!["      "@, "      "@, "  **  "@, "  **  "@, "      "@, "      "@]);
    }
    parse(&p)
}

pub fn mdots() -> (r: u64)
    ensures
        r == spec_parse(seq![" *    "@, " *  **"@, "      "@, "      "@, "**  * "@, "    * "@]),
{
    let p = [
        " *    ",
        " *  **",
        "      ",
        "      ",
        "**  * ",
        "    * ",
    ];
    proof {
        reveal_strlit(" *    ");
        reveal_strlit(" *  **");
        reveal_strlit("      ");
        reveal_strlit("**  * ");
        reveal_strlit("    * ");
        assert(wf_picture(&p));
        assert(pic_view(p) =~~= seq![" *    "@, " *  **"@, "      "@, "      "@, "**  * "@, "    * "@]);
    }
    parse(&p)
}

pub fn corners() -> (r: u64)
    ensures
        r == spec_parse(seq!["*    *"@, "      "@, "      "@, "      "@, "      "@, "*    *"@]),
{
    let p = [
        "*    *",
        "      ",
        "      ",
        "      ",
        "      ",
        "*    *",
    ];
    proof {
        reveal_strlit("*    *");
        reveal_strlit("      ");
        assert(wf_picture(&p));
        assert(pic_view(p) =~~= seq!["*    *"@, "      "@, "      "@, "      "@, "      "@, "*    *"@]);
    }
    parse(&p)
}

pub fn love() -> (r: u64)
    ensures
        r == spec_parse(seq![" * *  "@, "* * * "@, "*   * "@, "*   * "@, " * *  "@, "  *   "@]),
{
    let p = [
        " * *  ",
        "* * * ",
        "*   * ",
        "*   * ",
        " * *  ",
        "  *   ",
    ];
    proof {
        reveal_strlit(" * *  ");
        reveal_strlit("* * * ");
        reveal_strlit("*   * ");
        reveal_strlit("  *   ");
        assert(wf_picture(&p));
        assert(pic_view(p) =~~= seq![" * *  "@, "* * * "@, "*   * "@, "*   * "@, " * *  "@, "  *   "@]);
    }
    parse(&p)
}

pub fn idots0() -> (r: u64)
    ensures
        r == spec_parse(seq!["      "@, "  *   "@, "    * "@, " *    "@, "   *  "@, "      "@]),
{
    let p = [
        "      ",
        "  *   ",
        "    * ",
        " *    ",
        "   *  ",
        "      ",
    ];
    proof {
        reveal_strlit("      ");
        reveal_strlit("  *   ");
        reveal_strlit("    * ");
        reveal_strlit(" *    ");
        reveal_strlit("   *  ");
        assert(wf_picture(&p));
        assert(pic_view(p) =~~= seq!["      "@, "  *   "@, "    * "@, " *    "@, "   *  "@, "      "@]);
    }
    parse(&p)
}

pub fn idots1() -> (r: u64)
    ensures
        r == spec_parse(seq!["      "@, "   *  "@, " *    "@, "    * "@, "  *   "@, "      "@]),
{
    let p = [
        "      ",
        "   *  ",
        " *    ",
        "    * ",
        "  *   ",
        "      ",
    ];
    proof {
        reveal_strlit("      ");
        reveal_strlit("   *  ");
        reveal_strlit(" *    ");
        reveal_strlit("    * ");
        reveal_strlit("  *   ");
        assert(wf_picture(&p));
        assert(pic_view(p) =~~= seq!["      "@, "   *  "@, " *    "@, "    * "@, "  *   "@, "      "@]);
    }
    parse(&p)
}

pub fn idots2() -> (r: u64)
    ensures
        r == spec_parse(seq!["      "@, " *  * "@, "      "@, "      "@, " *  * "@, "      "@]),
{
    let p = [
        "      ",
        " *  * ",
        "      ",
        "      ",
        " *  * ",
        "      ",
    ];
    proof {
        reveal_strlit("      ");
        reveal_strlit(" *  * ");
        assert(wf_picture(&p));
        assert(pic_view(p) =~~= seq!["      "@, " *  * "@, "      "@, "      "@, " *  * "@, "      "@]);
    }
    parse(&p)
}

pub fn odots0() -> (r: u64)
    ensures
        r == spec_parse(seq![" **   "@, "     *"@, "     *"@, "*     "@, "*     "@, "   ** "@]),
{
    let p = [
        " **   ",
        "     *",
        "     *",
        "*     ",
        "*     ",
        "   ** ",
    ];
    proof {
        reveal_strlit(" **   ");
        reveal_strlit("     *");
        reveal_strlit("*     ");
        reveal_strlit("   ** ");
        assert(wf_picture(&p));
        assert(pic_view(p) =~~= seq![" **   "@, "     *"@, "     *"@, "*     "@, "*     "@, "   ** "@]);
    }
    parse(&p)
}

pub fn odots1() -> (r: u64)
    ensures
        r == spec_parse(seq!["  **  "@, "      "@, "*    *"@, "*    *"@, "      "@, "  **  "@]),
{
    let p = [
        "  **  ",
        "      ",
        "*    *",
        "*    *",
        "      ",
        "  **  ",
    ];
    proof {
        reveal_strlit("  **  ");
        reveal_strlit("      ");
        reveal_strlit("*    *");
        assert(wf_picture(&p));
        assert(pic_view(p) =~~= seq!["  **  "@, "      "@, "*    *"@, "*    *"@, "      "@, "  **  "@]);
    }
    parse(&p)
}

pub fn odots2() -> (r: u64)
    ensures
        r == spec_parse(seq!["   ** "@, "*     "@, "*     "@, "     *"@, "     *"@, " **   "@]),
{
    let p = [
        "   ** ",
        "*     ",
        "*     ",
        "     *",
        "     *",
        " **   ",
    ];
    proof {
        reveal_strlit("   ** ");
        reveal_strlit("*     ");
        reveal_strlit("     *");
        reveal_strlit(" **   ");
        assert(wf_picture(&p));
        assert(pic_view(p) =~~= seq!["   ** "@, "*     "@, "*     "@, "     *"@, "     *"@, " **   "@]);
    }
    parse(&p)
}

pub fn odots3() -> (r: u64)
    ensures
        r == spec_parse(seq!["*   **"@, "*     "@, "      "@, "      "@, "     *"@, "**   *"@]),
{
    let p = [
        "*   **",
        "*     ",
        "      ",
        "      ",
        "     *",
        "**   *",
    ];
    proof {
        reveal_strlit("*   **");
        reveal_strlit("*     ");
        reveal_strlit("      ");
        reveal_strlit("     *");
        reveal_strlit("**   *");
        assert(wf_picture(&p));
        assert(pic_view(p) =~~= seq!["*   **"@, "*     "@, "      "@, "      "@, "     *"@, "**   *"@]);
    }
    parse(&p)
}

pub fn odots4() -> (r: u64)
    ensures
        r == spec_parse(seq!["**   *"@, "     *"@, "      "@, "      "@, "*     "@, "*   **"@]),
{
    let p = [
        "**   *",
        "     *",
        "      ",
        "      ",
        "*     ",
        "*   **",
    ];
    proof {
        reveal_strlit("**   *");
        reveal_strlit("     *");
        reveal_strlit("      ");
        reveal_strlit("*     ");
        reveal_strlit("*   **");
        assert(wf_picture(&p));
        assert(pic_view(p) =~~= seq!["**   *"@, "     *"@, "      "@, "      "@, "*     "@, "*   **"@]);
    }
    parse(&p)
}

/// The ASCII code of character `i` of the set: a space, the ten
/// digits, a question mark, then the upper-case letters, ascending.
pub open spec fn char_code(i: int) -> u8 {
    if i == 0 {
        32u8
    } else if 1 <= i <= 10 {
        (47 + i) as u8
    } else if i == 11 {
        63u8
    } else {
        (53 + i) as u8
    }
}

/// The character codes strictly ascend, as the binary search needs.
pub proof fn lemma_chars_sorted()
    ensures
        forall|i: int, j: int| 0 <= i < j < 38 ==> char_code(i) < char_code(j),
{
}

/// Whether an ASCII code belongs to the character set.
pub open spec fn in_charset(c: u8) -> bool {
    exists|i: int| 0 <= i < 38 && char_code(i) == c
}

/// The character set's codes, ascending.
pub fn chars_table() -> (r: Vec<u8>)
    ensures
        r@.len() == NUM_CHARS,
        forall|i: int| 0 <= i < NUM_CHARS ==> #[trigger] r@[i] == char_code(i),
{
    let mut r: Vec<u8> = Vec::new();
    r.push(32);
    let mut d: u8 = 0;
    while d < 10
        invariant
            d <= 10,
            r@.len() == 1 + d,
            forall|i: int| 0 <= i < r@.len() ==> #[trigger] r@[i] == char_code(i),
        decreases 10 - d,
    {
        r.push(48 + d);
        d += 1;
    }
    r.push(63);
    let mut l: u8 = 0;
    while l < 26
        invariant
            l <= 26,
            r@.len() == 12 + l,
            forall|i: int| 0 <= i < r@.len() ==> #[trigger] r@[i] == char_code(i),
        decreases 26 - l,
    {
        r.push(65 + l);
        l += 1;
    }
    r
}

/// Map an ASCII code to its glyph index by binary search.
pub fn map_char(c: u8) -> (r: u8)
    requires
        in_charset(c),
    ensures
        r < 38,
        char_code(r as int) == c,
{
    let chars = chars_table();
    let mut low: usize = 0;
    let mut high: usize = chars.len();
    while high - low > 1
        invariant
            0 <= low < high <= 38,
            chars@.len() == 38,
            forall|i: int| 0 <= i < 38 ==> #[trigger] chars@[i] == char_code(i),
            exists|i: int| low <= i < high && char_code(i) == c,
        decreases high - low,
    {
        let mid = (high + low) / 2;
        proof {
            lemma_chars_sorted();
            let i = choose|i: int| low <= i < high && char_code(i) == c;
            if c < char_code(mid as int) {
                assert(i < mid);
            } else {
                assert(i >= mid);
            }
        }
        if c < chars[mid] {
            high = mid;
        } else {
            low = mid;
        }
    }
    low as u8
}

/// Map a string of ASCII codes to glyph indexes.
pub fn map_str<const N: usize>(s: &[u8; N]) -> (r: [u8; N])
    requires
        forall|k: int| 0 <= k < N ==> in_charset(#[trigger] s@[k]),
    ensures
        forall|k: int|
            0 <= k < N ==> (#[trigger] r@[k]) < 38 && char_code(r@[k] as int) == s@[k],
{
    let mut result = [0u8; N];
    let mut i: usize = 0;
    while i < N
        invariant
            i <= N,
            forall|k: int| 0 <= k < N ==> in_charset(#[trigger] s@[k]),
            forall|k: int|
                0 <= k < i ==> (#[trigger] result@[k]) < 38 && char_code(result@[k] as int)
                    == s@[k],
        decreases N - i,
    {
        result[i] = map_char(s[i]);
        i += 1;
    }
    result
}

/// The display pattern of a character.
pub fn picture(c: char) -> (r: u64)
    requires
        (c as int) < 256,
        in_charset(c as u8),
    ensures
        exists|i: int| 0 <= i < 38 && char_code(i) == c as u8 && r == glyph_columns(i),
{
    let code = #[verifier::truncate] (c as u8);
    let idx = map_char(code);
    let cols = columns();
    cols[idx as usize]
}

} // verus!
