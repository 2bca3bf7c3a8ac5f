//! The 9x9 LED glyph of the Nuimo and its wire encoding.
//!
//! A glyph is modelled as a 9x9 matrix of booleans (row-major, `true` = LED
//! on). Internally each row is a 9-bit word whose bit `c` is column `c`.
use vstd::prelude::*;
use crate::gatt::{LED_BITMAP_BYTES, LED_COLS, LED_FADE_FLAG, LED_ROWS};

verus! {

broadcast use vstd::string::group_string_axioms;

/// Whether column `col` of a row word is lit.
pub open spec fn row_lit(row: u16, col: int) -> bool {
    (row >> (col as u16)) & 1u16 == 1u16
}

/// Bit `k` of a packed bitmap: bit `k % 8` of byte `k / 8`, least
/// significant bit first.
pub open spec fn bitmap_bit(bytes: Seq<u8>, k: int) -> bool {
    (bytes[k / 8] >> ((k % 8) as u8)) & 1u8 == 1u8
}

/// The lines of a text: the pieces between `'\n'` characters. A text with
/// no line break is a single line; a trailing `'\n'` opens an empty last line.
pub open spec fn split_lines(s: Seq<char>) -> Seq<Seq<char>>
    decreases s.len(),
{
    if s.len() == 0 {
        seq![Seq::<char>::empty()]
    } else {
        let prev = split_lines(s.drop_last());
        if s.last() == '\n' {
            prev.push(Seq::<char>::empty())
        } else {
            prev.update(prev.len() - 1, prev.last().push(s.last()))
        }
    }
}

/// Pixel `(r, c)` of a glyph drawn as text: on iff the `c`-th character of
/// the `r`-th line is `'*'`.
pub open spec fn text_pixel(s: Seq<char>, r: int, c: int) -> bool {
    let lines = split_lines(s);
    &&& r < lines.len()
    &&& c < lines[r].len()
    &&& lines[r][c] == '*'
}

/// The 9x9 pixel matrix drawn by a text.
pub open spec fn text_pixels(s: Seq<char>) -> Seq<Seq<bool>> {
    Seq::new(9, |r: int| Seq::new(9, |c: int| text_pixel(s, r, c)))
}

/// The 9x9 matrix with every pixel equal to `on`.
pub open spec fn uniform_pixels(on: bool) -> Seq<Seq<bool>> {
    Seq::new(9, |r: int| Seq::new(9, |c: int| on))
}

/// A 9x9 pixel matrix.
pub open spec fn is_grid(p: Seq<Seq<bool>>) -> bool {
    &&& p.len() == 9
    &&& forall|r: int| 0 <= r < 9 ==> #[trigger] p[r].len() == 9
}

/// Every pixel of `p` switched.
pub open spec fn inverted_pixels(p: Seq<Seq<bool>>) -> Seq<Seq<bool>> {
    Seq::new(9, |r: int| Seq::new(9, |c: int| !p[r][c]))
}

/// Bit `k` of the packed bitmap of the pixels `p`: pixel `k` in row-major
/// order, and 0 for the seven padding bits after the 81 pixels.
pub open spec fn packed_pixel(p: Seq<Seq<bool>>, k: int) -> bool {
    k < 81 && p[k / 9][k % 9]
}

/// The 13-byte display payload of the pixels `p` under `opts`: the packed
/// bitmap, with the fade flag (bit 84) set for an immediate transition,
/// then the brightness and the timeout in tenths of a second (at most 255).
pub open spec fn is_display_payload(bytes: Seq<u8>, p: Seq<Seq<bool>>, opts: DisplayOptions) -> bool {
    &&& bytes.len() == 13
    &&& forall|k: int|
        0 <= k < 88 ==> bitmap_bit(bytes, k) == (packed_pixel(p, k) || (k == 84 && opts.transition
            == DisplayTransition::Immediate))
    &&& bytes[11] == opts.brightness
    &&& bytes[12] == min_int(opts.timeout_ms as int, 25500) / 100
}

/// Minimum of two integers.
pub open spec fn min_int(a: int, b: int) -> int {
    if a < b {
        a
    } else {
        b
    }
}

proof fn lemma_set_bit(x: u16, c: u16, d: u16)
    by (bit_vector)
    requires
        x < 512,
        c < 9,
        d < 9,
    ensures
        (x | (1u16 << c)) < 512,
        ((x | (1u16 << c)) >> d) & 1u16 == 1u16 <==> (((x >> d) & 1u16 == 1u16) || c == d),
{
}

proof fn lemma_test_bit(x: u16, c: u16)
    by (bit_vector)
    requires
        c < 9,
    ensures
        (x & (1u16 << c) != 0u16) <==> ((x >> c) & 1u16 == 1u16),
{
}

proof fn lemma_flip_row(x: u16, d: u16)
    by (bit_vector)
    requires
        x < 512,
        d < 9,
    ensures
        (x ^ 0x1FFu16) < 512,
        ((x ^ 0x1FFu16) >> d) & 1u16 == 1u16 <==> !((x >> d) & 1u16 == 1u16),
{
}

proof fn lemma_constant_rows(d: u16)
    by (bit_vector)
    requires
        d < 9,
    ensures
        (0x1FFu16 >> d) & 1u16 == 1u16,
        !((0u16 >> d) & 1u16 == 1u16),
{
}

proof fn lemma_row_from_bits(x: u16, y: u16)
    by (bit_vector)
    requires
        x < 512,
        y < 512,
        (x >> 0u16) & 1u16 == (y >> 0u16) & 1u16,
        (x >> 1u16) & 1u16 == (y >> 1u16) & 1u16,
        (x >> 2u16) & 1u16 == (y >> 2u16) & 1u16,
        (x >> 3u16) & 1u16 == (y >> 3u16) & 1u16,
        (x >> 4u16) & 1u16 == (y >> 4u16) & 1u16,
        (x >> 5u16) & 1u16 == (y >> 5u16) & 1u16,
        (x >> 6u16) & 1u16 == (y >> 6u16) & 1u16,
        (x >> 7u16) & 1u16 == (y >> 7u16) & 1u16,
        (x >> 8u16) & 1u16 == (y >> 8u16) & 1u16,
    ensures
        x == y,
{
}

proof fn lemma_bit_is_0_or_1(x: u16, d: u16)
    by (bit_vector)
    ensures
        (x >> d) & 1u16 == 0u16 || (x >> d) & 1u16 == 1u16,
{
}

proof fn lemma_set_byte_bit(x: u8, a: u8, b: u8)
    by (bit_vector)
    requires
        a < 8,
        b < 8,
    ensures
        ((x | (1u8 << a)) >> b) & 1u8 == 1u8 <==> (((x >> b) & 1u8 == 1u8) || a == b),
{
}

proof fn lemma_zero_byte(b: u8)
    by (bit_vector)
    requires
        b < 8,
    ensures
        !((0u8 >> b) & 1u8 == 1u8),
{
}

proof fn lemma_flip_fade_flag(x: u8, b: u8)
    by (bit_vector)
    requires
        b < 8,
    ensures
        ((x ^ 0x10u8) >> b) & 1u8 == 1u8 <==> (((x >> b) & 1u8 == 1u8) != (b == 4)),
{
}

/// A text has at least one line.
pub proof fn lemma_split_lines_nonempty(s: Seq<char>)
    ensures
        split_lines(s).len() >= 1,
    decreases s.len(),
{
    if s.len() > 0 {
        lemma_split_lines_nonempty(s.drop_last());
    }
}

/// Display transition effect.
#[derive(Debug, Clone, Copy, PartialEq, Eq, Structural)]
pub enum DisplayTransition {
    Immediate,
    CrossFade,
}

/// Options for displaying a glyph.
#[derive(Debug, Clone, Copy)]
pub struct DisplayOptions {
    /// Brightness level of the LEDs, 0 (off) to 255 (full).
    pub brightness: u8,
    /// Auto-clear timeout in milliseconds (max 25500).
    pub timeout_ms: u32,
    /// Transition effect.
    pub transition: DisplayTransition,
}

impl Default for DisplayOptions {
    /// Full brightness, two seconds, cross-fade.
    fn default() -> (opts: Self)
        ensures
            opts.brightness == 255,
            opts.timeout_ms == 2000,
            opts.transition == DisplayTransition::CrossFade,
    {
        DisplayOptions { brightness: 255, timeout_ms: 2000, transition: DisplayTransition::CrossFade }
    }
}

/// A 9x9 LED glyph for the Nuimo display.
#[derive(Debug)]
pub struct Glyph {
    /// Each row is a 9-bit word; bit `c` is column `c` (bit 0 = leftmost pixel).
    rows: [u16; LED_ROWS],
}

impl View for Glyph {
    type V = Seq<Seq<bool>>;

    /// The pixel matrix: `self@[r][c]` is the LED of row `r`, column `c`.
    closed spec fn view(&self) -> Seq<Seq<bool>> {
        Seq::new(9, |r: int| Seq::new(9, |c: int| row_lit(self.rows[r], c)))
    }
}

impl Glyph {
    /// Only the nine low bits of a row word are ever set.
    #[verifier::type_invariant]
    spec fn well_formed(self) -> bool {
        forall|r: int| 0 <= r < 9 ==> #[trigger] self.rows[r] < 512
    }

    /// The pixel matrix of a glyph is 9x9.
    pub broadcast proof fn lemma_view_is_grid(g: Glyph)
        ensures
            #[trigger] is_grid(g@),
    {
    }

    /// Create a glyph from a string representation.
    ///
    /// Each line represents a row (up to 9 lines). Use `*` for on, anything else for off.
    /// Lines are separated by newlines; a `'\r'` before a newline, like any
    /// other character but `*`, is an unlit pixel.
    pub fn from_str(s: &str) -> (g: Self)
        ensures
            g@ == text_pixels(s@),
    {
        let mut rows = [0u16; LED_ROWS];
        let mut row: usize = 0;
        let mut col: usize = 0;
        proof {
            reveal_with_fuel(split_lines, 2);
            assert(s@.take(0) =~= Seq::<char>::empty());
            assert forall|r: int, c: int| 0 <= r < 9 && 0 <= c < 9 implies #[trigger] row_lit(rows[r], c) == text_pixel(s@.take(0), r, c) by {
                lemma_constant_rows(c as u16);
            }
        }
        for ch in it: s.chars()
            invariant
                it.seq() == s@,
                split_lines(s@.take(it.index())).len() >= 1,
                row as int == min_int(split_lines(s@.take(it.index())).len() - 1, 9),
                col as int == min_int(split_lines(s@.take(it.index())).last().len() as int, 9),
                forall|r: int| 0 <= r < 9 ==> #[trigger] rows[r] < 512,
                forall|r: int, c: int|
                    0 <= r < 9 && 0 <= c < 9 ==> #[trigger] row_lit(rows[r], c) == text_pixel(
                        s@.take(it.index()),
                        r,
                        c,
                    ),
        {
            let ghost i: int = it.index();
            let ghost prev = s@.take(i);
            let ghost next = s@.take(i + 1);
            let ghost old_rows = rows;
            let ghost old_col: usize = col;
            proof {
                assert(next.drop_last() =~= prev);
                assert(next.last() == ch);
                lemma_split_lines_nonempty(prev);
            }
            if ch == '\n' {
                if row < LED_ROWS {
                    row = row + 1;
                }
                col = 0;
                proof {
                    assert(split_lines(next) == split_lines(prev).push(Seq::<char>::empty()));
                    assert forall|r: int, c: int| 0 <= r < 9 && 0 <= c < 9 implies #[trigger] row_lit(rows[r], c) == text_pixel(next, r, c) by {
                        assert(row_lit(rows[r], c) == text_pixel(prev, r, c));
                    }
                }
            } else {
                let ghost old_row: usize = row;
                let ghost lit = row < LED_ROWS && col < LED_COLS && ch == '*';
                if row < LED_ROWS && col < LED_COLS && ch == '*' {
                    let bit: u16 = 1u16 << (col as u16);
                    rows[row] = rows[row] | bit;
                }
                if col < LED_COLS {
                    col = col + 1;
                }
                proof {
                    let lines = split_lines(prev);
                    let n: int = lines.len() - 1;
                    let nl = split_lines(next);
                    assert(nl == lines.update(n, lines.last().push(ch)));
                    assert forall|r: int| 0 <= r < 9 implies #[trigger] rows[r] < 512 by {
                        if lit && r == old_row {
                            lemma_set_bit(old_rows[r], old_col as u16, 0);
                        }
                    }
                    assert forall|r: int, c: int| 0 <= r < 9 && 0 <= c < 9 implies #[trigger] row_lit(rows[r], c) == text_pixel(next, r, c) by {
                        assert(row_lit(old_rows[r], c) == text_pixel(prev, r, c));
                        if r == n {
                            assert(nl[r] == lines[r].push(ch));
                            assert(old_row == n);
                        } else if r < lines.len() {
                            assert(nl[r] == lines[r]);
                        }
                        if lit && r == old_row {
                            lemma_set_bit(old_rows[r], old_col as u16, c as u16);
                        } else {
                            assert(rows[r] == old_rows[r]);
                        }
                    }
                }
            }
        }
        proof {
            assert(s@.take(s@.len() as int) =~= s@);
        }
        let g = Glyph { rows };
        assert(g@ =~~= text_pixels(s@));
        g
    }

    /// Create an empty (all off) glyph.
    pub fn empty() -> (g: Self)
        ensures
            g@ == uniform_pixels(false),
    {
        let g = Glyph { rows: [0u16; LED_ROWS] };
        proof {
            assert forall|r: int, c: int| 0 <= r < 9 && 0 <= c < 9 implies g@[r][c] == false by {
                lemma_constant_rows(c as u16);
            }
        }
        assert(g@ =~~= uniform_pixels(false));
        g
    }

    /// Create a filled (all on) glyph.
    pub fn filled() -> (g: Self)
        ensures
            g@ == uniform_pixels(true),
    {
        let g = Glyph { rows: [0x1FFu16; LED_ROWS] };
        proof {
            assert forall|r: int, c: int| 0 <= r < 9 && 0 <= c < 9 implies g@[r][c] == true by {
                lemma_constant_rows(c as u16);
            }
        }
        assert(g@ =~~= uniform_pixels(true));
        g
    }

    /// Invert all pixels.
    pub fn invert(&self) -> (g: Self)
        ensures
            g@ == inverted_pixels(self@),
    {
        proof {
            use_type_invariant(self);
        }
        let mut rows = self.rows;
        let mut i: usize = 0;
        while i < LED_ROWS
            invariant
                0 <= i <= 9,
                forall|r: int| 0 <= r < 9 ==> #[trigger] self.rows[r] < 512,
                forall|r: int| 0 <= r < 9 ==> #[trigger] rows[r] < 512,
                forall|r: int| i <= r < 9 ==> #[trigger] rows[r] == self.rows[r],
                forall|r: int, c: int|
                    0 <= r < i && 0 <= c < 9 ==> #[trigger] row_lit(rows[r], c) == !row_lit(
                        self.rows[r],
                        c,
                    ),
            decreases 9 - i,
        {
            rows[i] = rows[i] ^ 0x1FF;
            proof {
                lemma_flip_row(self.rows[i as int], 0);
                assert forall|c: int| 0 <= c < 9 implies #[trigger] row_lit(rows[i as int], c)
                    == !row_lit(self.rows[i as int], c) by {
                    lemma_flip_row(self.rows[i as int], c as u16);
                }
            }
            i = i + 1;
        }
        let g = Glyph { rows };
        assert(g@ =~~= inverted_pixels(self@));
        g
    }

    /// Encode the glyph as an 11-byte bitmap for the LED characteristic:
    /// pixel `k` in row-major order is bit `k % 8` of byte `k / 8`; the
    /// seven bits after the 81 pixels are 0.
    pub fn to_bitmap(&self) -> (bitmap: [u8; LED_BITMAP_BYTES])
        ensures
            forall|k: int| 0 <= k < 88 ==> bitmap_bit(bitmap@, k) == packed_pixel(self@, k),
    {
        proof {
            use_type_invariant(self);
        }
        let mut buf = [0u8; LED_BITMAP_BYTES];
        proof {
            assert forall|j: int| 0 <= j < 88 implies !bitmap_bit(buf@, j) by {
                lemma_zero_byte((j % 8) as u8);
            }
        }
        let mut bit_pos: usize = 0;
        while bit_pos < 81
            invariant
                bit_pos <= 81,
                forall|j: int| 0 <= j < bit_pos ==> bitmap_bit(buf@, j) == packed_pixel(self@, j),
                forall|j: int| bit_pos <= j < 88 ==> !bitmap_bit(buf@, j),
            decreases 81 - bit_pos,
        {
            let row: u16 = self.rows[bit_pos / LED_COLS];
            let col: u16 = (bit_pos % LED_COLS) as u16;
            let ghost old_buf = buf;
            proof {
                lemma_test_bit(row, col);
            }
            if row & (1u16 << col) != 0 {
                let byte: usize = bit_pos / 8;
                buf[byte] = buf[byte] | (1u8 << ((bit_pos % 8) as u8));
                proof {
                    assert forall|j: int| 0 <= j < 88 implies bitmap_bit(buf@, j) == (bitmap_bit(
                        old_buf@,
                        j,
                    ) || j == bit_pos) by {
                        if j / 8 == bit_pos / 8 {
                            lemma_set_byte_bit(
                                old_buf[j / 8],
                                (bit_pos % 8) as u8,
                                (j % 8) as u8,
                            );
                        }
                    }
                }
            }
            bit_pos = bit_pos + 1;
        }
        buf
    }

    /// Encode the full display payload (13 bytes: bitmap + brightness + timeout).
    ///
    /// The fade flag is inverted on the wire: it is set for an immediate
    /// transition and clear for a cross-fade.
    pub fn to_display_bytes(&self, opts: &DisplayOptions) -> (bytes: Vec<u8>)
        ensures
            is_display_payload(bytes@, self@, *opts),
    {
        let mut bitmap = self.to_bitmap();
        let ghost plain = bitmap;
        if opts.transition == DisplayTransition::Immediate {
            bitmap[10] = bitmap[10] ^ LED_FADE_FLAG;
        }
        proof {
            assert forall|k: int| 0 <= k < 88 implies bitmap_bit(bitmap@, k) == (packed_pixel(
                self@,
                k,
            ) || (k == 84 && opts.transition == DisplayTransition::Immediate)) by {
                assert(bitmap_bit(plain@, k) == packed_pixel(self@, k));
                if opts.transition == DisplayTransition::Immediate && k / 8 == 10 {
                    lemma_flip_fade_flag(plain[10], (k % 8) as u8);
                    assert(bitmap_bit(plain@, 84) == false);
                }
            }
        }
        let timeout_ms: u32 = if opts.timeout_ms < 25500 {
            opts.timeout_ms
        } else {
            25500
        };
        let timeout: u8 = (timeout_ms / 100) as u8;
        let mut buf: Vec<u8> = Vec::with_capacity(13);
        let mut i: usize = 0;
        while i < LED_BITMAP_BYTES
            invariant
                i <= 11,
                buf@ =~= bitmap@.take(i as int),
            decreases 11 - i,
        {
            buf.push(bitmap[i]);
            i = i + 1;
        }
        buf.push(opts.brightness);
        buf.push(timeout);
        proof {
            assert forall|k: int| 0 <= k < 88 implies bitmap_bit(buf@, k) == bitmap_bit(
                bitmap@,
                k,
            ) by {
                assert(buf@[k / 8] == bitmap@[k / 8]);
            }
        }
        buf
    }
}

/// Inverting twice gives back the glyph.
pub proof fn law_invert_involution(p: Seq<Seq<bool>>)
    requires
        is_grid(p),
    ensures
        inverted_pixels(inverted_pixels(p)) == p,
{
    assert forall|r: int| 0 <= r < 9 implies #[trigger] inverted_pixels(inverted_pixels(p))[r]
        =~= p[r] by {}
    assert(inverted_pixels(inverted_pixels(p)) =~= p);
}

/// A final line ending changes nothing: a text ending in `'\n'` draws the
/// same glyph as the text without it.
pub proof fn law_final_newline_is_optional(s: Seq<char>)
    ensures
        text_pixels(s.push('\n')) == text_pixels(s),
{
    lemma_split_lines_nonempty(s);
    assert(s.push('\n').drop_last() =~= s);
    assert(text_pixels(s.push('\n')) =~~= text_pixels(s));
}

/// Characters other than `'*'` and `'\n'` are unlit pixels: appending one,
/// such as the `'\r'` of a CRLF line ending, draws the same glyph.
pub proof fn law_other_characters_are_dark(s: Seq<char>, x: char)
    requires
        x != '*',
        x != '\n',
    ensures
        text_pixels(s.push(x)) == text_pixels(s),
{
    lemma_split_lines_nonempty(s);
    let t = s.push(x);
    assert(t.drop_last() =~= s);
    let lines = split_lines(s);
    assert forall|r: int, c: int| 0 <= r < 9 && 0 <= c < 9 implies text_pixel(t, r, c) == text_pixel(
        s,
        r,
        c,
    ) by {
        if r == lines.len() - 1 {
            assert(split_lines(t)[r] == lines[r].push(x));
        } else if r < lines.len() {
            assert(split_lines(t)[r] == lines[r]);
        }
    }
    assert(text_pixels(t) =~~= text_pixels(s));
}

/// The filled glyph is the inverse of the empty one, and the other way round.
pub proof fn law_empty_filled_inverse()
    ensures
        inverted_pixels(uniform_pixels(false)) == uniform_pixels(true),
        inverted_pixels(uniform_pixels(true)) == uniform_pixels(false),
{
    assert(inverted_pixels(uniform_pixels(false)) =~~= uniform_pixels(true));
    assert(inverted_pixels(uniform_pixels(true)) =~~= uniform_pixels(false));
}

/// The packed bitmap loses nothing: two glyphs with the same bitmap bits
/// have the same pixels.
pub proof fn law_bitmap_is_faithful(p: Seq<Seq<bool>>, q: Seq<Seq<bool>>)
    requires
        is_grid(p),
        is_grid(q),
        forall|k: int| 0 <= k < 88 ==> packed_pixel(p, k) == packed_pixel(q, k),
    ensures
        p == q,
{
    assert forall|r: int| 0 <= r < 9 implies #[trigger] p[r] =~= q[r] by {
        assert forall|c: int| 0 <= c < 9 implies p[r][c] == q[r][c] by {
            let k: int = 9 * r + c;
            assert(k / 9 == r && k % 9 == c);
            assert(packed_pixel(p, k) == packed_pixel(q, k));
        }
    }
    assert(p =~= q);
}

/// The fade flag of a display payload is set exactly for an immediate
/// transition, and every other bit of its first eleven bytes is the
/// glyph's bitmap bit.
pub proof fn law_fade_flag_is_transition(bytes: Seq<u8>, p: Seq<Seq<bool>>, opts: DisplayOptions)
    requires
        is_display_payload(bytes, p, opts),
    ensures
        bitmap_bit(bytes, 84) == (opts.transition == DisplayTransition::Immediate),
        forall|k: int| 0 <= k < 88 && k != 84 ==> bitmap_bit(bytes, k) == packed_pixel(p, k),
{
    assert(bitmap_bit(bytes, 84) == (packed_pixel(p, 84) || opts.transition
        == DisplayTransition::Immediate));
}

/// The display timeout byte counts tenths of a second and saturates at
/// 25.5 seconds.
pub proof fn law_timeout_saturates(bytes: Seq<u8>, p: Seq<Seq<bool>>, opts: DisplayOptions)
    requires
        is_display_payload(bytes, p, opts),
    ensures
        opts.timeout_ms >= 25500 ==> bytes[12] == 255,
        opts.timeout_ms < 25500 ==> bytes[12] == opts.timeout_ms / 100,
{
}

/// Number of set bits among the first `n` bits of a packed bitmap.
pub open spec fn set_bit_count(bytes: Seq<u8>, n: int) -> nat
    decreases n,
{
    if n <= 0 {
        0
    } else {
        set_bit_count(bytes, n - 1) + if bitmap_bit(bytes, n - 1) {
            1nat
        } else {
            0nat
        }
    }
}

/// Number of lit pixels among the first `n` pixels in row-major order.
pub open spec fn lit_pixel_count(p: Seq<Seq<bool>>, n: int) -> nat
    decreases n,
{
    if n <= 0 {
        0
    } else {
        lit_pixel_count(p, n - 1) + if packed_pixel(p, n - 1) {
            1nat
        } else {
            0nat
        }
    }
}

proof fn lemma_counts_agree(bytes: Seq<u8>, p: Seq<Seq<bool>>, n: int)
    requires
        0 <= n <= 88,
        forall|k: int| 0 <= k < 88 ==> bitmap_bit(bytes, k) == packed_pixel(p, k),
    ensures
        set_bit_count(bytes, n) == lit_pixel_count(p, n),
    decreases n,
{
    if n > 0 {
        lemma_counts_agree(bytes, p, n - 1);
    }
}

proof fn lemma_uniform_count(on: bool, n: int)
    requires
        0 <= n <= 81,
    ensures
        lit_pixel_count(uniform_pixels(on), n) == if on {
            n as nat
        } else {
            0nat
        },
    decreases n,
{
    if n > 0 {
        lemma_uniform_count(on, n - 1);
        let k: int = n - 1;
        assert(0 <= k / 9 < 9 && 0 <= k % 9 < 9);
    }
}

/// The bitmap has exactly as many set bits as the glyph has lit pixels; in
/// particular a filled glyph sets 81 bits and an empty one none.
pub proof fn law_bitmap_bit_count(bytes: Seq<u8>, p: Seq<Seq<bool>>)
    requires
        forall|k: int| 0 <= k < 88 ==> bitmap_bit(bytes, k) == packed_pixel(p, k),
    ensures
        set_bit_count(bytes, 88) == lit_pixel_count(p, 81),
        p == uniform_pixels(true) ==> set_bit_count(bytes, 88) == 81,
        p == uniform_pixels(false) ==> set_bit_count(bytes, 88) == 0,
{
    lemma_counts_agree(bytes, p, 88);
    assert(lit_pixel_count(p, 88) == lit_pixel_count(p, 81)) by {
        reveal_with_fuel(lit_pixel_count, 8);
    }
    lemma_uniform_count(true, 81);
    lemma_uniform_count(false, 81);
}

impl PartialEq for Glyph {
    fn eq(&self, other: &Self) -> (same: bool) {
        proof {
            use_type_invariant(self);
            use_type_invariant(other);
        }
        let mut i: usize = 0;
        while i < LED_ROWS
            invariant
                i <= 9,
                forall|r: int| 0 <= r < 9 ==> #[trigger] self.rows[r] < 512,
                forall|r: int| 0 <= r < 9 ==> #[trigger] other.rows[r] < 512,
                forall|r: int| 0 <= r < i ==> self.rows[r] == other.rows[r],
            decreases 9 - i,
        {
            if self.rows[i] != other.rows[i] {
                proof {
                    if self@ == other@ {
                        let a: u16 = self.rows[i as int];
                        let b: u16 = other.rows[i as int];
                        assert(a < 512 && b < 512);
                        assert forall|c: int| 0 <= c < 9 implies row_lit(a, c) == row_lit(b, c) by {
                            assert(self@[i as int][c] == other@[i as int][c]);
                        }
                        assert forall|d: u16| d < 9 implies (a >> d) & 1u16 == (b >> d) & 1u16 by {
                            lemma_bit_is_0_or_1(a, d);
                            lemma_bit_is_0_or_1(b, d);
                            assert(row_lit(a, d as int) == row_lit(b, d as int));
                        }
                        lemma_row_from_bits(a, b);
                    }
                }
                return false;
            }
            i = i + 1;
        }
        proof {
            assert(self@ =~= other@);
        }
        true
    }
}

impl vstd::std_specs::cmp::PartialEqSpecImpl for Glyph {
    open spec fn obeys_eq_spec() -> bool {
        true
    }

    open spec fn eq_spec(&self, other: &Self) -> bool {
        self@ == other@
    }
}

impl Clone for Glyph {
    fn clone(&self) -> (g: Self)
        ensures
            g@ == self@,
    {
        proof {
            use_type_invariant(self);
        }
        Glyph { rows: self.rows }
    }
}

impl Eq for Glyph {

}

} // verus!
