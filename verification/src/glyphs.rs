//! Glyphs the MQTT bridge draws on its own.
//!
//! Named patterns (play, pause, next, previous, ...) come from the glyph
//! registry (see `registry`). Only the glyphs needed before the registry is
//! hydrated (link on connect) or for parametric rendering (volume bar) are
//! kept here.
use vstd::prelude::*;
use crate::glyph::{lemma_split_lines_nonempty, split_lines, text_pixel, text_pixels, uniform_pixels, Glyph};

verus! {

broadcast use vstd::string::group_string_axioms;

/// Text of the link glyph shown when the bridge connects.
pub const LINK_PATTERN: &'static str =
    "         \n** **  \n*  * * \n*    * \n*  *  \n*    * \n* *  * \n** **  \n";

/// Row text of a lit volume-bar row.
pub const VOLUME_BAR_ROW: &'static str = "    *    ";

/// Row text of an unlit volume-bar row.
pub const VOLUME_EMPTY_ROW: &'static str = "         ";

/// Number of lit rows of the volume bar for a percentage: `percentage / 100 * 9`
/// rounded to the nearest integer, halves away from zero.
pub open spec fn volume_bars(percentage: u8) -> int {
    (9 * percentage + 50) / 100
}

/// The volume bar: column 4 lit in the `volume_bars` bottom rows.
pub open spec fn volume_pixels(percentage: u8) -> Seq<Seq<bool>> {
    Seq::new(9, |r: int| Seq::new(9, |c: int| c == 4 && 8 - r < volume_bars(percentage)))
}

/// The rows of text of the volume bar, top row first.
pub open spec fn volume_line(percentage: u8, row: int) -> Seq<char> {
    if 8 - row < volume_bars(percentage) {
        VOLUME_BAR_ROW@
    } else {
        VOLUME_EMPTY_ROW@
    }
}

proof fn lemma_split_lines_append(s: Seq<char>, t: Seq<char>)
    requires
        !t.contains('\n'),
    ensures
        split_lines(s + t) == split_lines(s).update(
            split_lines(s).len() - 1,
            split_lines(s).last() + t,
        ),
    decreases t.len(),
{
    lemma_split_lines_nonempty(s);
    if t.len() == 0 {
        assert(s + t =~= s);
        assert(split_lines(s).last() + t =~= split_lines(s).last());
        assert(split_lines(s).update(split_lines(s).len() - 1, split_lines(s).last())
            =~= split_lines(s));
    } else {
        let t0 = t.drop_last();
        assert(!t0.contains('\n')) by {
            if t0.contains('\n') {
                let i: int = choose|i: int| 0 <= i < t0.len() && t0[i] == '\n';
                assert(t[i] == '\n');
            }
        }
        lemma_split_lines_append(s, t0);
        assert((s + t).drop_last() =~= s + t0);
        assert((s + t).last() == t.last());
        assert(t.last() != '\n') by {
            assert(t[t.len() - 1] == t.last());
        }
        assert((split_lines(s).last() + t0).push(t.last()) =~= split_lines(s).last() + t);
        lemma_split_lines_nonempty(s + t0);
    }
}

/// The link glyph shown when the bridge connects.
pub fn link() -> (g: Glyph)
    ensures
        g@ == text_pixels(LINK_PATTERN@),
{
    Glyph::from_str(LINK_PATTERN)
}

/// An empty (all off) glyph.
pub fn empty() -> (g: Glyph)
    ensures
        g@ == uniform_pixels(false),
{
    Glyph::empty()
}

/// Volume bar glyph (0-100%): a vertical bar in the middle column, lit from
/// the bottom in `volume_bars(percentage)` rows (all nine above 94%).
pub fn volume(percentage: u8) -> (g: Glyph)
    ensures
        g@ == volume_pixels(percentage),
{
    let bars: u32 = (9 * (percentage as u32) + 50) / 100;
    let mut rows = String::new();
    let ghost lines = Seq::new(9, |r: int| volume_line(percentage, r));
    proof {
        reveal_strlit("    *    ");
        reveal_strlit("         ");
        reveal_strlit("\n");
        assert(!VOLUME_BAR_ROW@.contains('\n')) by {
            if VOLUME_BAR_ROW@.contains('\n') {
                let i: int = choose|i: int| 0 <= i < VOLUME_BAR_ROW@.len() && VOLUME_BAR_ROW@[i] == '\n';
            }
        }
        assert(!VOLUME_EMPTY_ROW@.contains('\n')) by {
            if VOLUME_EMPTY_ROW@.contains('\n') {
                let i: int = choose|i: int|
                    0 <= i < VOLUME_EMPTY_ROW@.len() && VOLUME_EMPTY_ROW@[i] == '\n';
            }
        }
        assert(split_lines(rows@) =~= lines.take(0).push(Seq::<char>::empty()));
    }
    let mut row: u32 = 0;
    while row < 9
        invariant
            row <= 9,
            bars == volume_bars(percentage),
            lines == Seq::new(9, |r: int| volume_line(percentage, r)),
            !VOLUME_BAR_ROW@.contains('\n'),
            !VOLUME_EMPTY_ROW@.contains('\n'),
            "\n"@ == seq!['\n'],
            split_lines(rows@) == if row < 9 {
                lines.take(row as int).push(Seq::<char>::empty())
            } else {
                lines
            },
        decreases 9 - row,
    {
        let from_bottom: u32 = 8 - row;
        let ghost before = rows@;
        if from_bottom < bars {
            rows.append(VOLUME_BAR_ROW);
        } else {
            rows.append(VOLUME_EMPTY_ROW);
        }
        proof {
            let line = volume_line(percentage, row as int);
            assert(rows@ == before + line);
            lemma_split_lines_append(before, line);
            assert(split_lines(rows@) =~= lines.take(row + 1));
        }
        if row < 8 {
            let ghost mid = rows@;
            rows.append("\n");
            proof {
                assert(rows@ =~= mid.push('\n'));
                assert(rows@.drop_last() =~= mid);
                assert(split_lines(rows@) =~= lines.take(row + 1).push(Seq::<char>::empty()));
            }
        }
        row = row + 1;
    }
    let g = Glyph::from_str(rows.as_str());
    proof {
        assert(lines.take(9) =~= lines);
        assert forall|r: int, c: int| 0 <= r < 9 && 0 <= c < 9 implies text_pixel(rows@, r, c)
            == (c == 4 && 8 - r < volume_bars(percentage)) by {
            assert(split_lines(rows@)[r] == volume_line(percentage, r));
        }
        assert(text_pixels(rows@) =~~= volume_pixels(percentage));
    }
    g
}

/// The volume bar grows with the percentage: every LED lit for a percentage
/// is lit for any higher one.
pub proof fn law_volume_monotone(low: u8, high: u8, r: int, c: int)
    requires
        low <= high,
        0 <= r < 9,
        0 <= c < 9,
        volume_pixels(low)[r][c],
    ensures
        volume_pixels(high)[r][c],
{
    assert(9 * low <= 9 * high);
}

/// The volume bar is empty below 6% and full from 95% on, and it only ever
/// lights the middle column.
pub proof fn law_volume_bounds(percentage: u8, r: int, c: int)
    requires
        0 <= r < 9,
        0 <= c < 9,
    ensures
        percentage < 6 ==> !volume_pixels(percentage)[r][c],
        percentage >= 95 ==> volume_pixels(percentage)[r][c] == (c == 4),
        c != 4 ==> !volume_pixels(percentage)[r][c],
{
}

} // verus!
