//! Glyph logic of the score display: decimal digits of a score and the lit
//! segments of each digit's seven-segment glyph.
use vstd::prelude::*;

verus! {

/// Number of segments of a seven-segment glyph. Their order is: top,
/// top-right, bottom-right, bottom, bottom-left, top-left, middle.
pub const SEGMENT_COUNT: usize = 7;

/// The lit segments of `ch`'s glyph, in the order top, top-right,
/// bottom-right, bottom, bottom-left, top-left, middle. A character that is
/// not a decimal digit lights nothing.
pub open spec fn segment_table(ch: char) -> Seq<bool> {
    if ch == '0' {
        seq![true, true, true, true, true, true, false]
    } else if ch == '1' {
        seq![false, true, true, false, false, false, false]
    } else if ch == '2' {
        seq![true, true, false, true, true, false, true]
    } else if ch == '3' {
        seq![true, true, true, true, false, false, true]
    } else if ch == '4' {
        seq![false, true, true, false, false, true, true]
    } else if ch == '5' {
        seq![true, false, true, true, false, true, true]
    } else if ch == '6' {
        seq![true, false, true, true, true, true, true]
    } else if ch == '7' {
        seq![true, true, true, false, false, false, false]
    } else if ch == '8' {
        seq![true, true, true, true, true, true, true]
    } else if ch == '9' {
        seq![true, true, true, true, false, true, true]
    } else {
        seq![false, false, false, false, false, false, false]
    }
}

/// The lit segments of `ch`'s seven-segment glyph.
pub fn digit_segments(ch: char) -> (segs: [bool; 7])
    ensures
        segs@ == segment_table(ch),
{
    let segs: [bool; 7] = match ch {
        '0' => [true, true, true, true, true, true, false],
        '1' => [false, true, true, false, false, false, false],
        '2' => [true, true, false, true, true, false, true],
        '3' => [true, true, true, true, false, false, true],
        '4' => [false, true, true, false, false, true, true],
        '5' => [true, false, true, true, false, true, true],
        '6' => [true, false, true, true, true, true, true],
        '7' => [true, true, true, false, false, false, false],
        '8' => [true, true, true, true, true, true, true],
        '9' => [true, true, true, true, false, true, true],
        _ => [false; 7],
    };
    assert(segs@ =~= segment_table(ch));
    segs
}

/// Every decimal digit's glyph lights at least two segments, and `8` lights
/// all seven; any other character lights none.
pub proof fn lemma_glyphs_visible(ch: char)
    ensures
        segment_table(ch).len() == SEGMENT_COUNT,
        is_digit_char(ch) ==> exists|i: int, j: int|
            0 <= i < j < SEGMENT_COUNT && segment_table(ch)[i] && segment_table(ch)[j],
        ch == '8' ==> forall|i: int| 0 <= i < SEGMENT_COUNT ==> segment_table(ch)[i],
        !is_digit_char(ch) ==> forall|i: int|
            0 <= i < SEGMENT_COUNT ==> !segment_table(ch)[i],
{
    if is_digit_char(ch) {
        if ch == '0' || ch == '1' || ch == '3' || ch == '4' || ch == '7' || ch == '8' || ch == '9' {
            assert(segment_table(ch)[1] && segment_table(ch)[2]);
        } else {
            assert(segment_table(ch)[0] && segment_table(ch)[3]);
        }
    }
}

/// How the digit glyphs relate: `0`, `6` and `9` are `8` with one segment
/// dark (middle, top-right and bottom-left); `1` lights only the right
/// side; the lit segments grow along `1`, `7`, `3`, `9`, `8`, and `5` is
/// `6` without the bottom-left segment.
pub proof fn lemma_glyph_relations()
    ensures
        forall|k: int| 0 <= k < 7 ==> segment_table('8')[k],
        forall|k: int| 0 <= k < 7 ==> (segment_table('0')[k] <==> k != 6),
        forall|k: int| 0 <= k < 7 ==> (segment_table('6')[k] <==> k != 1),
        forall|k: int| 0 <= k < 7 ==> (segment_table('9')[k] <==> k != 4),
        forall|k: int| 0 <= k < 7 ==> (segment_table('1')[k] <==> (k == 1 || k == 2)),
        forall|k: int| 0 <= k < 7 ==> (segment_table('7')[k] <==> (k == 0 || k == 1 || k == 2)),
        forall|k: int|
            0 <= k < 7 ==> (segment_table('3')[k] <==> (k == 0 || k == 1 || k == 2 || k == 3
                || k == 6)),
        forall|k: int|
            0 <= k < 7 ==> (segment_table('4')[k] <==> (k == 1 || k == 2 || k == 5 || k == 6)),
        forall|k: int|
            0 <= k < 7 ==> (segment_table('2')[k] <==> (k == 0 || k == 1 || k == 3 || k == 4
                || k == 6)),
        forall|k: int| 0 <= k < 7 ==> (segment_table('5')[k] <==> (segment_table('6')[k] && k != 4)),
{
}

/// The last character of `n`'s decimal digits is the digit of `n % 10`, and
/// the digits before it are those of `n / 10` (none for a single digit).
pub proof fn lemma_decimal_digits(n: nat)
    ensures
        decimal(n).last() as int == 48 + n % 10,
        n < 10 ==> decimal(n).len() == 1,
        n >= 10 ==> decimal(n).drop_last() == decimal(n / 10),
{
}

/// The character of decimal digit `d` (below ten).
pub open spec fn digit_char(d: nat) -> char {
    (48 + d) as char
}

/// The value of a decimal digit character.
pub open spec fn char_value(c: char) -> int {
    (c as int) - 48
}

/// `c` is one of the characters `0` to `9`.
pub open spec fn is_digit_char(c: char) -> bool {
    '0' <= c <= '9'
}

/// The decimal representation of `n`, most significant digit first, without
/// leading zeros (zero is the single digit `0`).
pub open spec fn decimal(n: nat) -> Seq<char>
    decreases n,
{
    if n < 10 {
        seq![digit_char(n)]
    } else {
        decimal(n / 10).push(digit_char(n % 10))
    }
}

/// The number that a string of decimal digits spells.
pub open spec fn digits_value(s: Seq<char>) -> int
    decreases s.len(),
{
    if s.len() == 0 {
        0
    } else {
        digits_value(s.drop_last()) * 10 + char_value(s.last())
    }
}

/// The decimal digits of `score`, most significant first, as `to_string`
/// writes them.
pub fn score_digits(score: u32) -> (digits: Vec<char>)
    ensures
        digits@ == decimal(score as nat),
    decreases score,
{
    let d: u8 = (score % 10) as u8;
    let c: char = (48u8 + d) as char;
    if score < 10 {
        let mut v: Vec<char> = Vec::new();
        v.push(c);
        proof {
            assert(v@ =~= decimal(score as nat));
        }
        v
    } else {
        let mut v = score_digits(score / 10);
        v.push(c);
        v
    }
}

/// Decimal representations round-trip: the digits of `n` are decimal digit
/// characters, the first is `0` only for zero itself, and they spell `n`.
pub proof fn lemma_decimal_round_trip(n: nat)
    ensures
        decimal(n).len() >= 1,
        forall|i: int| 0 <= i < decimal(n).len() ==> is_digit_char(#[trigger] decimal(n)[i]),
        n > 0 ==> decimal(n)[0] != '0',
        digits_value(decimal(n)) == n,
    decreases n,
{
    assert(char_value(digit_char(n % 10)) == n % 10);
    if n < 10 {
        assert(decimal(n).drop_last() =~= Seq::<char>::empty());
        assert(digits_value(Seq::<char>::empty()) == 0);
    } else {
        lemma_decimal_round_trip(n / 10);
        let s = decimal(n);
        assert(s.drop_last() =~= decimal(n / 10));
        assert forall|i: int| 0 <= i < s.len() implies is_digit_char(#[trigger] s[i]) by {
            if i < s.len() - 1 {
                assert(s[i] == decimal(n / 10)[i]);
            }
        }
    }
}

} // verus!
