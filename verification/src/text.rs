//! Cutting the text of a mesh description into lines, words and indices.
//!
//! The text is a sequence of bytes, in UTF-8. Lines end at a line feed;
//! words are the longest runs of bytes in which no white space begins. White
//! space is every character that Unicode calls so: six of one byte, two of
//! two bytes and seventeen of three. Places in the text are given as spans,
//! so nothing is copied.

use vstd::prelude::*;

verus! {

/// The bytes of the text from `start` up to, not including, `end`.
#[derive(Clone, Copy, PartialEq, Eq, Structural, Debug)]
pub struct Span {
    pub start: usize,
    pub end: usize,
}

pub const LINE_FEED: u8 = 10;

pub const SLASH: u8 = 47;

pub const PLUS: u8 = 43;

pub const MINUS: u8 = 45;

pub const DIGIT_ZERO: u8 = 48;

pub const DIGIT_NINE: u8 = 57;

/// White space of one byte: the blank, and tab to carriage return.
pub open spec fn is_space(b: u8) -> bool {
    b == 32 || (9 <= b && b <= 13)
}

/// White space of two bytes: next line (U+0085) and the no-break space
/// (U+00A0).
pub open spec fn is_space_of_two(a: u8, b: u8) -> bool {
    a == 0xC2 && (b == 0x85 || b == 0xA0)
}

/// White space of three bytes: the ogham space mark (U+1680), the spaces
/// from en quad to hair space (U+2000 to U+200A), the line and the paragraph
/// separator (U+2028, U+2029), the narrow no-break space (U+202F), the medium
/// mathematical space (U+205F) and the ideographic space (U+3000).
pub open spec fn is_space_of_three(a: u8, b: u8, c: u8) -> bool {
    ||| a == 0xE1 && b == 0x9A && c == 0x80
    ||| a == 0xE2 && b == 0x80 && ((0x80 <= c && c <= 0x8A) || c == 0xA8 || c == 0xA9 || c == 0xAF)
    ||| a == 0xE2 && b == 0x81 && c == 0x9F
    ||| a == 0xE3 && b == 0x80 && c == 0x80
}

/// How many bytes the white space takes that begins at `at` and ends at or
/// before `to`; 0 where none begins there.
pub open spec fn space_at(s: Seq<u8>, at: int, to: int) -> nat {
    if at < 0 || at >= to || to > s.len() {
        0
    } else if is_space(s[at]) {
        1
    } else if at + 1 < to && is_space_of_two(s[at], s[at + 1]) {
        2
    } else if at + 2 < to && is_space_of_three(s[at], s[at + 1], s[at + 2]) {
        3
    } else {
        0
    }
}

/// Whether white space ends right before `at`, having begun at or after
/// `from`.
pub open spec fn space_before(s: Seq<u8>, at: int, from: int, to: int) -> bool {
    ||| at - 1 >= from && space_at(s, at - 1, to) == 1
    ||| at - 2 >= from && space_at(s, at - 2, to) == 2
    ||| at - 3 >= from && space_at(s, at - 3, to) == 3
}

/// Whether the byte at `at` belongs to white space that begins at or after
/// `from`.
pub open spec fn in_space(s: Seq<u8>, at: int, from: int, to: int) -> bool {
    ||| space_at(s, at, to) >= 1
    ||| at - 1 >= from && space_at(s, at - 1, to) >= 2
    ||| at - 2 >= from && space_at(s, at - 2, to) >= 3
}

/// How many bytes from `from` on, and before `to`, come before the first
/// byte `stop`.
pub open spec fn run_until(s: Seq<u8>, stop: u8, from: int, to: int) -> nat
    decreases to - from,
{
    if from >= to || from < 0 || to > s.len() || s[from] == stop {
        0
    } else {
        1 + run_until(s, stop, from + 1, to)
    }
}

/// How many bytes from `from` on, and before `to`, come before the first
/// white space.
pub open spec fn run_of_word(s: Seq<u8>, from: int, to: int) -> nat
    decreases to - from,
{
    if from >= to || from < 0 || to > s.len() || space_at(s, from, to) > 0 {
        0
    } else {
        1 + run_of_word(s, from + 1, to)
    }
}

/// The lines of the text between `from` and `to`, in order: each runs up to
/// the next line feed, which belongs to no line. Text that ends in a line
/// feed has no empty line after it.
pub open spec fn lines(s: Seq<u8>, from: int, to: int) -> Seq<Span>
    decreases to - from,
{
    if from >= to {
        Seq::empty()
    } else {
        let end = from + run_until(s, LINE_FEED, from, to);
        let line = Span { start: from as usize, end: end as usize };
        if end >= to {
            seq![line]
        } else {
            seq![line] + lines(s, end + 1, to)
        }
    }
}

/// The words of the text between `from` and `to`, in order.
pub open spec fn words(s: Seq<u8>, from: int, to: int) -> Seq<Span>
    decreases to - from,
{
    if from >= to || from < 0 || to > s.len() {
        Seq::empty()
    } else if space_at(s, from, to) > 0 {
        words(s, from + space_at(s, from, to), to)
    } else {
        let end = from + 1 + run_of_word(s, from + 1, to);
        let word = Span { start: from as usize, end: end as usize };
        if end >= to {
            seq![word]
        } else {
            seq![word] + words(s, end, to)
        }
    }
}

/// A run ends before `to`, on the byte that stops it or at `to` itself.
pub proof fn run_until_ends(s: Seq<u8>, stop: u8, from: int, to: int)
    requires
        0 <= from <= to <= s.len(),
    ensures
        from + run_until(s, stop, from, to) <= to,
        from + run_until(s, stop, from, to) < to ==> s[from + run_until(s, stop, from, to)] == stop,
        forall|k: int| from <= k < from + run_until(s, stop, from, to) ==> s[k] != stop,
    decreases to - from,
{
    if from < to && s[from] != stop {
        run_until_ends(s, stop, from + 1, to);
    }
}

/// A word ends before `to`, where white space begins or at `to` itself, and
/// no white space begins in it.
pub proof fn run_of_word_ends(s: Seq<u8>, from: int, to: int)
    requires
        0 <= from <= to <= s.len(),
    ensures
        from + run_of_word(s, from, to) <= to,
        from + run_of_word(s, from, to) < to ==> space_at(
            s,
            from + run_of_word(s, from, to),
            to,
        ) > 0,
        forall|k: int| from <= k < from + run_of_word(s, from, to) ==> space_at(s, k, to) == 0,
    decreases to - from,
{
    if from < to && space_at(s, from, to) == 0 {
        run_of_word_ends(s, from + 1, to);
    }
}

/// Every line lies between `from` and `to` and holds no line feed. The first
/// begins at `from`; each ends at `to` or on a line feed, and the next begins
/// right after that line feed.
pub proof fn lines_are_lines(s: Seq<u8>, from: int, to: int)
    requires
        0 <= from <= to <= s.len(),
        to <= usize::MAX,
    ensures
        from < to ==> lines(s, from, to).len() > 0 && lines(s, from, to)[0].start == from,
        forall|k: int|
            0 <= k < lines(s, from, to).len() ==> {
                let l = #[trigger] lines(s, from, to)[k];
                &&& from <= l.start <= l.end <= to
                &&& forall|j: int| l.start <= j < l.end ==> s[j] != LINE_FEED
                &&& (l.end == to || s[l.end as int] == LINE_FEED)
            },
        forall|k: int|
            0 <= k < lines(s, from, to).len() - 1 ==> (#[trigger] lines(s, from, to)[k]).end + 1
                == lines(s, from, to)[k + 1].start,
    decreases to - from,
{
    if from < to {
        run_until_ends(s, LINE_FEED, from, to);
        let end = from + run_until(s, LINE_FEED, from, to);
        let first = Span { start: from as usize, end: end as usize };
        let all = lines(s, from, to);
        if end < to {
            lines_are_lines(s, end + 1, to);
            let rest = lines(s, end + 1, to);
            assert(all == seq![first] + rest);
            assert(all[0] == first);
            assert forall|k: int| 0 <= k < all.len() implies {
                let l = #[trigger] all[k];
                &&& from <= l.start <= l.end <= to
                &&& forall|j: int| l.start <= j < l.end ==> s[j] != LINE_FEED
                &&& (l.end == to || s[l.end as int] == LINE_FEED)
            } by {
                if k > 0 {
                    assert(all[k] == rest[k - 1]);
                }
            }
            assert forall|k: int| 0 <= k < all.len() - 1 implies (#[trigger] all[k]).end + 1
                == all[k + 1].start by {
                assert(all[k + 1] == rest[k]);
                if k > 0 {
                    assert(all[k] == rest[k - 1]);
                }
            }
        } else {
            assert(all == seq![first]);
            assert(all[0] == first);
        }
    }
}

/// What holds of a word `w` of the text between `from` and `to`.
pub open spec fn is_word(s: Seq<u8>, from: int, to: int, w: Span) -> bool {
    &&& from <= w.start < w.end <= to
    &&& forall|j: int| w.start <= j < w.end ==> space_at(s, j, to) == 0
    &&& (w.start == from || space_before(s, w.start as int, from, to))
    &&& (w.end == to || space_at(s, w.end as int, to) > 0)
}

/// Every word lies between `from` and `to` and is not empty; no white space
/// begins in it; it begins at `from` or where white space ends, and ends at
/// `to` or where white space begins. The words come in order, with white
/// space between one and the next.
pub proof fn words_are_words(s: Seq<u8>, from: int, to: int)
    requires
        0 <= from <= to <= s.len(),
        to <= usize::MAX,
    ensures
        forall|k: int|
            0 <= k < words(s, from, to).len() ==> is_word(s, from, to, #[trigger] words(s, from, to)[k]),
        forall|k: int|
            0 <= k < words(s, from, to).len() - 1 ==> (#[trigger] words(s, from, to)[k]).end < words(
                s,
                from,
                to,
            )[k + 1].start,
    decreases to - from,
{
    if from < to {
        let all = words(s, from, to);
        let n = space_at(s, from, to);
        if n > 0 {
            words_are_words(s, from + n, to);
            assert(all == words(s, from + n, to));
            assert forall|k: int| 0 <= k < all.len() implies is_word(s, from, to, #[trigger] all[k]) by {
                let w = all[k];
                assert(is_word(s, from + n, to, w));
                if w.start == from + n {
                    assert(space_before(s, w.start as int, from, to));
                } else {
                    assert(space_before(s, w.start as int, from + n, to));
                }
            }
        } else {
            run_of_word_ends(s, from + 1, to);
            let end = from + 1 + run_of_word(s, from + 1, to);
            let first = Span { start: from as usize, end: end as usize };
            assert(is_word(s, from, to, first));
            if end < to {
                words_are_words(s, end, to);
                let rest = words(s, end, to);
                assert(all == seq![first] + rest);
                assert forall|k: int| 0 <= k < all.len() implies is_word(
                    s,
                    from,
                    to,
                    #[trigger] all[k],
                ) by {
                    if k > 0 {
                        assert(all[k] == rest[k - 1]);
                        let w = rest[k - 1];
                        assert(is_word(s, end, to, w));
                        assert(space_at(s, w.start as int, to) == 0);
                        assert(w.start != end);
                        assert(space_before(s, w.start as int, end, to));
                    } else {
                        assert(all[0] == first);
                    }
                }
                assert forall|k: int| 0 <= k < all.len() - 1 implies (#[trigger] all[k]).end
                    < all[k + 1].start by {
                    if k == 0 {
                        assert(all[0] == first);
                        assert(all[1] == rest[0]);
                        assert(is_word(s, end, to, rest[0]));
                        assert(space_at(s, rest[0].start as int, to) == 0);
                    } else {
                        assert(all[k] == rest[k - 1]);
                        assert(all[k + 1] == rest[k]);
                    }
                }
            } else {
                assert(all == seq![first]);
                assert(all[0] == first);
            }
        }
    }
}

/// Every byte between `from` and `to` that belongs to no white space lies in
/// a word.
pub proof fn words_hold_every_byte(s: Seq<u8>, from: int, to: int, at: int)
    requires
        0 <= from <= at < to <= s.len(),
        to <= usize::MAX,
        !in_space(s, at, from, to),
    ensures
        exists|k: int|
            0 <= k < words(s, from, to).len() && (#[trigger] words(s, from, to)[k]).start <= at
                < words(s, from, to)[k].end,
    decreases to - from,
{
    let all = words(s, from, to);
    let n = space_at(s, from, to);
    if n > 0 {
        assert(at >= from + n);
        words_hold_every_byte(s, from + n, to, at);
        let rest = words(s, from + n, to);
        let k = choose|k: int| 0 <= k < rest.len() && (#[trigger] rest[k]).start <= at < rest[k].end;
        assert(all == rest);
        assert(all[k].start <= at < all[k].end);
    } else {
        run_of_word_ends(s, from + 1, to);
        let end = from + 1 + run_of_word(s, from + 1, to);
        let first = Span { start: from as usize, end: end as usize };
        if at < end {
            assert(all[0] == first);
            assert(all[0].start <= at < all[0].end);
        } else {
            words_hold_every_byte(s, end, to, at);
            let rest = words(s, end, to);
            let k = choose|k: int| 0 <= k < rest.len() && (#[trigger] rest[k]).start <= at < rest[k].end;
            assert(all == seq![first] + rest);
            assert(all[k + 1] == rest[k]);
            assert(all[k + 1].start <= at < all[k + 1].end);
        }
    }
}

/// No white space begins within other white space: the bytes after the
/// first of a white space of two or three bytes begin none themselves.
pub proof fn spaces_do_not_overlap(s: Seq<u8>, at: int, to: int)
    ensures
        space_at(s, at, to) >= 2 ==> space_at(s, at + 1, to) == 0,
        space_at(s, at, to) >= 3 ==> space_at(s, at + 2, to) == 0,
{
}

/// Whether the byte is white space of one byte.
pub fn is_whitespace(b: u8) -> (r: bool)
    ensures
        r == is_space(b),
{
    b == 32 || (9 <= b && b <= 13)
}

/// How many bytes the white space takes that begins at `at`; 0 where none
/// begins there.
pub fn space_len(s: &[u8], at: usize, to: usize) -> (r: usize)
    requires
        at <= to <= s@.len(),
    ensures
        r == space_at(s@, at as int, to as int),
        at + r <= to,
{
    if at >= to {
        return 0;
    }
    let a = s[at];
    if is_whitespace(a) {
        return 1;
    }
    if to - at < 2 {
        return 0;
    }
    let b = s[at + 1];
    if a == 0xC2 && (b == 0x85 || b == 0xA0) {
        return 2;
    }
    if to - at < 3 {
        return 0;
    }
    let c = s[at + 2];
    let three = (a == 0xE1 && b == 0x9A && c == 0x80) || (a == 0xE2 && b == 0x80 && ((0x80 <= c
        && c <= 0x8A) || c == 0xA8 || c == 0xA9 || c == 0xAF)) || (a == 0xE2 && b == 0x81 && c
        == 0x9F) || (a == 0xE3 && b == 0x80 && c == 0x80);
    if three {
        3
    } else {
        0
    }
}

/// The place of the first byte `stop` at or after `from`, or `to` if there
/// is none before it.
pub fn find_byte(s: &[u8], stop: u8, from: usize, to: usize) -> (r: usize)
    requires
        from <= to <= s@.len(),
    ensures
        r == from + run_until(s@, stop, from as int, to as int),
        from <= r <= to,
{
    let mut i: usize = from;
    while i < to && s[i] != stop
        invariant
            from <= i <= to <= s@.len(),
            run_until(s@, stop, from as int, to as int) == (i - from) + run_until(
                s@,
                stop,
                i as int,
                to as int,
            ),
        decreases to - i,
    {
        i += 1;
    }
    i
}

/// The place where the first white space begins at or after `from`, or `to`
/// if none begins before it.
pub fn find_space(s: &[u8], from: usize, to: usize) -> (r: usize)
    requires
        from <= to <= s@.len(),
    ensures
        r == from + run_of_word(s@, from as int, to as int),
        from <= r <= to,
{
    let mut i: usize = from;
    while i < to && space_len(s, i, to) == 0
        invariant
            from <= i <= to <= s@.len(),
            run_of_word(s@, from as int, to as int) == (i - from) + run_of_word(
                s@,
                i as int,
                to as int,
            ),
        decreases to - i,
    {
        i += 1;
    }
    i
}

/// Cuts the text between `from` and `to` into its lines.
pub fn split_lines(s: &[u8], from: usize, to: usize) -> (r: Vec<Span>)
    requires
        from <= to <= s@.len(),
    ensures
        r@ == lines(s@, from as int, to as int),
        forall|k: int| 0 <= k < r@.len() ==> from <= (#[trigger] r@[k]).start <= r@[k].end <= to,
{
    let mut out: Vec<Span> = Vec::new();
    let mut pos: usize = from;
    while pos < to
        invariant
            from <= pos <= to <= s@.len(),
            lines(s@, from as int, to as int) == out@ + lines(s@, pos as int, to as int),
            forall|k: int| 0 <= k < out@.len() ==> from <= (#[trigger] out@[k]).start <= out@[k].end <= to,
        decreases to - pos,
    {
        let end = find_byte(s, LINE_FEED, pos, to);
        let line = Span { start: pos, end };
        let next: usize = if end < to { end + 1 } else { to };
        proof {
            assert(lines(s@, pos as int, to as int) == seq![line] + lines(s@, next as int, to as int));
            assert(out@.push(line) + lines(s@, next as int, to as int) == out@ + (seq![line]
                + lines(s@, next as int, to as int)));
        }
        out.push(line);
        pos = next;
    }
    proof {
        assert(lines(s@, pos as int, to as int) == Seq::<Span>::empty());
        assert(out@ + Seq::<Span>::empty() == out@);
    }
    out
}

/// Cuts the text between `from` and `to` into its words.
pub fn split_whitespace(s: &[u8], from: usize, to: usize) -> (r: Vec<Span>)
    requires
        from <= to <= s@.len(),
    ensures
        r@ == words(s@, from as int, to as int),
        forall|k: int| 0 <= k < r@.len() ==> from <= (#[trigger] r@[k]).start < r@[k].end <= to,
{
    let mut out: Vec<Span> = Vec::new();
    let mut pos: usize = from;
    while pos < to
        invariant
            from <= pos <= to <= s@.len(),
            words(s@, from as int, to as int) == out@ + words(s@, pos as int, to as int),
            forall|k: int| 0 <= k < out@.len() ==> from <= (#[trigger] out@[k]).start < out@[k].end <= to,
        decreases to - pos,
    {
        let n = space_len(s, pos, to);
        if n > 0 {
            pos += n;
        } else {
            let end = find_space(s, pos + 1, to);
            let word = Span { start: pos, end };
            proof {
                assert(words(s@, pos as int, to as int) == seq![word] + words(
                    s@,
                    end as int,
                    to as int,
                ));
                assert(out@.push(word) + words(s@, end as int, to as int) == out@ + (seq![word]
                    + words(s@, end as int, to as int)));
            }
            out.push(word);
            pos = end;
        }
    }
    proof {
        assert(words(s@, pos as int, to as int) == Seq::<Span>::empty());
        assert(out@ + Seq::<Span>::empty() == out@);
    }
    out
}

/// A decimal digit.
pub open spec fn is_digit(b: u8) -> bool {
    DIGIT_ZERO <= b && b <= DIGIT_NINE
}

/// What a digit counts for; a byte that is no digit counts for nothing.
pub open spec fn digit_value(b: u8) -> nat {
    if is_digit(b) {
        (b - DIGIT_ZERO) as nat
    } else {
        0
    }
}

pub open spec fn all_digits(t: Seq<u8>) -> bool {
    forall|k: int| 0 <= k < t.len() ==> is_digit(#[trigger] t[k])
}

/// The number that a run of digits writes in base ten.
pub open spec fn digits_value(t: Seq<u8>) -> nat
    decreases t.len(),
{
    if t.len() == 0 {
        0
    } else {
        digits_value(t.drop_last()) * 10 + digit_value(t.last())
    }
}

/// The index that a piece of text writes: an optional sign, `+` or `-`, and
/// then one digit or more, nothing else, the number within the range of
/// `isize`. Any other text writes no index.
pub open spec fn index_of(t: Seq<u8>) -> Option<isize> {
    let signed = t.len() > 0 && (t[0] == PLUS || t[0] == MINUS);
    let negative = t.len() > 0 && t[0] == MINUS;
    let digits = if signed {
        t.skip(1)
    } else {
        t
    };
    let value = if negative {
        -(digits_value(digits) as int)
    } else {
        digits_value(digits) as int
    };
    if digits.len() > 0 && all_digits(digits) && isize::MIN <= value <= isize::MAX {
        Some(value as isize)
    } else {
        None
    }
}

/// A run of digits writes at least what any of its beginnings writes.
pub proof fn digits_value_grows(t: Seq<u8>, n: int)
    requires
        0 <= n <= t.len(),
    ensures
        digits_value(t.take(n)) <= digits_value(t),
    decreases t.len(),
{
    if n == t.len() {
        assert(t.take(n) == t);
    } else {
        digits_value_grows(t.drop_last(), n);
        assert(t.drop_last().take(n) == t.take(n));
    }
}

/// Reads the text between `from` and `to` as an index.
#[verifier::loop_isolation(false)]
pub fn parse_index(s: &[u8], from: usize, to: usize) -> (r: Option<isize>)
    requires
        from <= to <= s@.len(),
    ensures
        r == index_of(s@.subrange(from as int, to as int)),
{
    if from >= to {
        return None;
    }
    let ghost t = s@.subrange(from as int, to as int);
    let first = s[from];
    assert(first == t[0]);
    let negative = first == MINUS;
    let start: usize = if first == PLUS || first == MINUS {
        from + 1
    } else {
        from
    };
    let ghost digits = s@.subrange(start as int, to as int);
    assert(digits == if start > from { t.skip(1) } else { t });
    if start >= to {
        return None;
    }
    let limit: u64 = if negative {
        isize::MAX as u64 + 1
    } else {
        isize::MAX as u64
    };
    let mut acc: u64 = 0;
    let mut i: usize = start;
    while i < to
        invariant
            start <= i <= to <= s@.len(),
            digits == s@.subrange(start as int, to as int),
            acc == digits_value(digits.take(i - start)),
            all_digits(digits.take(i - start)),
            acc <= limit,
            limit <= 0x8000_0000_0000_0000,
        decreases to - i,
    {
        let b = s[i];
        assert(b == digits[i - start]);
        if b < DIGIT_ZERO || b > DIGIT_NINE {
            return None;
        }
        proof {
            assert(digits.take(i + 1 - start).drop_last() == digits.take(i - start));
            assert(digits.take(i + 1 - start).last() == b);
        }
        let next: u128 = (acc as u128) * 10 + ((b - DIGIT_ZERO) as u128);
        if next > limit as u128 {
            proof {
                digits_value_grows(digits, i + 1 - start);
            }
            return None;
        }
        acc = next as u64;
        i += 1;
    }
    proof {
        assert(digits.take(i - start) == digits);
    }
    if negative {
        if acc == limit {
            Some(isize::MIN)
        } else {
            Some(-(acc as isize))
        }
    } else {
        Some(acc as isize)
    }
}

} // verus!
