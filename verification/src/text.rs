//! Character-level helpers on strings.

use vstd::prelude::*;

verus! {

/// Whether two strings hold the same characters.
pub fn str_eq(a: &str, b: &str) -> (r: bool)
    ensures
        r == (a@ == b@),
{
    let n = a.unicode_len();
    let m = b.unicode_len();
    if n != m {
        return false;
    }
    let mut i: usize = 0;
    while i < n
        invariant
            n == a@.len(),
            m == b@.len(),
            n == m,
            i <= n,
            forall|j: int| 0 <= j < i ==> a@[j] == b@[j],
        decreases n - i,
    {
        if a.get_char(i) != b.get_char(i) {
            return false;
        }
        i = i + 1;
    }
    assert(a@ =~= b@);
    true
}

/// The characters of a string, in order.
pub fn chars_of(s: &str) -> (r: Vec<char>)
    ensures
        r@ == s@,
{
    let n = s.unicode_len();
    let mut out: Vec<char> = Vec::new();
    let mut i: usize = 0;
    while i < n
        invariant
            n == s@.len(),
            i <= n,
            out@ == s@.subrange(0, i as int),
        decreases n - i,
    {
        out.push(s.get_char(i));
        i = i + 1;
        assert(out@ =~= s@.subrange(0, i as int));
    }
    assert(out@ =~= s@);
    out
}

/// Whether `c` is white space in Unicode's sense (the characters that
/// `char::is_whitespace` recognises).
pub open spec fn is_space(c: char) -> bool {
    ||| c == ' '
    ||| ('\u{9}' <= c && c <= '\u{d}')
    ||| c == '\u{85}'
    ||| c == '\u{a0}'
    ||| c == '\u{1680}'
    ||| ('\u{2000}' <= c && c <= '\u{200a}')
    ||| c == '\u{2028}'
    ||| c == '\u{2029}'
    ||| c == '\u{202f}'
    ||| c == '\u{205f}'
    ||| c == '\u{3000}'
}

/// Whether a character is white space.
pub fn is_whitespace(c: char) -> (r: bool)
    ensures
        r == is_space(c),
{
    c == ' ' || ('\u{9}' <= c && c <= '\u{d}') || c == '\u{85}' || c == '\u{a0}' || c
        == '\u{1680}' || ('\u{2000}' <= c && c <= '\u{200a}') || c == '\u{2028}' || c
        == '\u{2029}' || c == '\u{202f}' || c == '\u{205f}' || c == '\u{3000}'
}

/// The words of `s`: its maximal runs of characters that are not white
/// space, in order.
pub open spec fn words(s: Seq<char>) -> Seq<Seq<char>>
    decreases s.len(),
{
    if s.len() == 0 {
        seq![]
    } else {
        let w = words(s.drop_last());
        let c = s.last();
        if is_space(c) {
            w
        } else if s.len() >= 2 && !is_space(s[s.len() - 2]) {
            w.update(w.len() - 1, w.last().push(c))
        } else {
            w.push(seq![c])
        }
    }
}

/// The pieces of `s` between occurrences of `sep` (one more than there are
/// separators; pieces may be empty).
pub open spec fn pieces(s: Seq<char>, sep: char) -> Seq<Seq<char>>
    decreases s.len(),
{
    if s.len() == 0 {
        seq![seq![]]
    } else {
        let p = pieces(s.drop_last(), sep);
        if s.last() == sep {
            p.push(seq![])
        } else {
            p.update(p.len() - 1, p.last().push(s.last()))
        }
    }
}

/// The strings that character ranges of `s` cover.
pub open spec fn span_texts(s: Seq<char>, spans: Seq<(usize, usize)>) -> Seq<Seq<char>> {
    spans.map_values(|sp: (usize, usize)| s.subrange(sp.0 as int, sp.1 as int))
}

/// Whether every range lies in order within `0..=bound`.
pub open spec fn spans_within(spans: Seq<(usize, usize)>, bound: int) -> bool {
    forall|k: int| #![trigger spans[k]] 0 <= k < spans.len() ==> spans[k].0 <= spans[k].1 <= bound
}

/// Ranges within a bound stay within a larger one, and setting or adding a
/// range within it keeps them all within it.
proof fn lemma_spans_within(
    spans: Seq<(usize, usize)>,
    bound: int,
    new_bound: int,
    idx: int,
    v: (usize, usize),
)
    requires
        spans_within(spans, bound),
        bound <= new_bound,
        v.0 <= v.1 <= new_bound,
    ensures
        spans_within(spans, new_bound),
        0 <= idx < spans.len() ==> spans_within(spans.update(idx, v), new_bound),
        spans_within(spans.push(v), new_bound),
{
    assert forall|k: int| #![trigger spans[k]] 0 <= k < spans.len() implies spans[k].0 <= spans[k].1
        <= new_bound by {
        assert(spans[k].0 <= spans[k].1 <= bound);
    }
    if 0 <= idx < spans.len() {
        let u = spans.update(idx, v);
        assert forall|k: int| #![trigger u[k]] 0 <= k < u.len() implies u[k].0 <= u[k].1 <= new_bound by {
            if k != idx {
                assert(spans[k].0 <= spans[k].1 <= bound);
            }
        }
    }
    let p = spans.push(v);
    assert forall|k: int| #![trigger p[k]] 0 <= k < p.len() implies p[k].0 <= p[k].1 <= new_bound by {
        if k < spans.len() {
            assert(spans[k].0 <= spans[k].1 <= bound);
        }
    }
}

/// The views of a list of strings.
pub open spec fn str_views(v: Seq<&str>) -> Seq<Seq<char>> {
    v.map_values(|t: &str| t@)
}

/// Every string has at least one piece.
proof fn lemma_pieces_nonempty(s: Seq<char>, sep: char)
    ensures
        pieces(s, sep).len() > 0,
    decreases s.len(),
{
    if s.len() > 0 {
        lemma_pieces_nonempty(s.drop_last(), sep);
    }
}

/// The substrings of `s` that the ranges cover.
fn texts_of<'a>(s: &'a str, spans: &Vec<(usize, usize)>) -> (r: Vec<&'a str>)
    requires
        spans_within(spans@, s@.len() as int),
    ensures
        str_views(r@) == span_texts(s@, spans@),
{
    let mut out: Vec<&'a str> = Vec::new();
    let mut k: usize = 0;
    while k < spans.len()
        invariant
            k <= spans@.len(),
            spans_within(spans@, s@.len() as int),
            str_views(out@) == span_texts(s@, spans@.subrange(0, k as int)),
        decreases spans@.len() - k,
    {
        let (a, b) = spans[k];
        let ghost before = str_views(out@);
        let piece = s.substring_char(a, b);
        out.push(piece);
        assert(str_views(out@) =~= before.push(piece@));
        assert(spans@.subrange(0, k + 1) =~= spans@.subrange(0, k as int).push(spans@[k as int]));
        k = k + 1;
        assert(str_views(out@) =~= span_texts(s@, spans@.subrange(0, k as int)));
    }
    assert(spans@.subrange(0, k as int) =~= spans@);
    out
}

/// Splits `s` into its words, as `str::split_whitespace` does.
pub fn split_whitespace<'a>(s: &'a str) -> (r: Vec<&'a str>)
    ensures
        str_views(r@) == words(s@),
{
    let n = s.unicode_len();
    let mut spans: Vec<(usize, usize)> = Vec::new();
    let mut i: usize = 0;
    while i < n
        invariant
            n == s@.len(),
            i <= n,
            span_texts(s@, spans@) == words(s@.take(i as int)),
            spans_within(spans@, i as int),
            i > 0 && !is_space(s@[i - 1]) ==> spans@.len() > 0 && spans@.last().1 == i,
        decreases n - i,
    {
        let c = s.get_char(i);
        let ghost t = s@.take(i as int + 1);
        assert(t.drop_last() =~= s@.take(i as int));
        assert(t.last() == c);
        if is_whitespace(c) {
            proof {
                lemma_spans_within(spans@, i as int, i + 1, 0, (0, 0));
            }
        } else if i > 0 && !is_whitespace(s.get_char(i - 1)) {
            assert(t[t.len() - 2] == s@[i - 1]);
            let last = spans.len() - 1;
            let (a, _) = spans[last];
            let ghost before = span_texts(s@, spans@);
            proof {
                assert(spans@[last as int].0 <= spans@[last as int].1 <= i);
                lemma_spans_within(spans@, i as int, i + 1, last as int, (a, (i + 1) as usize));
            }
            spans.set(last, (a, i + 1));
            assert(s@.subrange(a as int, i + 1) =~= s@.subrange(a as int, i as int).push(c));
            assert(span_texts(s@, spans@) =~= before.update(before.len() - 1, before.last().push(c)));
        } else {
            let ghost before = span_texts(s@, spans@);
            proof {
                lemma_spans_within(spans@, i as int, i + 1, 0, (i, (i + 1) as usize));
            }
            spans.push((i, i + 1));
            assert(s@.subrange(i as int, i + 1) =~= seq![c]);
            assert(span_texts(s@, spans@) =~= before.push(seq![c]));
        }
        i = i + 1;
    }
    assert(s@.take(n as int) =~= s@);
    texts_of(s, &spans)
}

/// Splits `s` at every `sep`, as `str::split` with a character does.
pub fn split_char<'a>(s: &'a str, sep: char) -> (r: Vec<&'a str>)
    ensures
        str_views(r@) == pieces(s@, sep),
{
    let n = s.unicode_len();
    let mut spans: Vec<(usize, usize)> = Vec::new();
    spans.push((0, 0));
    let mut i: usize = 0;
    assert(s@.take(0) =~= Seq::<char>::empty());
    assert(s@.subrange(0, 0) =~= Seq::<char>::empty());
    assert(span_texts(s@, spans@) =~= seq![Seq::<char>::empty()]);
    while i < n
        invariant
            n == s@.len(),
            i <= n,
            span_texts(s@, spans@) == pieces(s@.take(i as int), sep),
            spans_within(spans@, i as int),
            spans@.len() > 0,
            spans@.last().1 == i,
        decreases n - i,
    {
        let c = s.get_char(i);
        let ghost t = s@.take(i as int + 1);
        assert(t.drop_last() =~= s@.take(i as int));
        assert(t.last() == c);
        let ghost before = span_texts(s@, spans@);
        if c == sep {
            proof {
                lemma_spans_within(spans@, i as int, i + 1, 0, ((i + 1) as usize, (i + 1) as usize));
            }
            spans.push((i + 1, i + 1));
            assert(s@.subrange(i + 1, i + 1) =~= Seq::<char>::empty());
            assert(span_texts(s@, spans@) =~= before.push(seq![]));
        } else {
            let last = spans.len() - 1;
            let (a, _) = spans[last];
            proof {
                assert(spans@[last as int].0 <= spans@[last as int].1 <= i);
                lemma_spans_within(spans@, i as int, i + 1, last as int, (a, (i + 1) as usize));
            }
            spans.set(last, (a, i + 1));
            assert(s@.subrange(a as int, i + 1) =~= s@.subrange(a as int, i as int).push(c));
            assert(span_texts(s@, spans@) =~= before.update(before.len() - 1, before.last().push(c)));
        }
        i = i + 1;
    }
    assert(s@.take(n as int) =~= s@);
    texts_of(s, &spans)
}

/// The value of a digit character in bases up to 36: 0-9, then a-z or A-Z
/// for 10-35; 36 for any other character.
pub open spec fn digit_value(c: char) -> int {
    if '0' <= c && c <= '9' {
        c as int - '0' as int
    } else if 'a' <= c && c <= 'z' {
        c as int - 'a' as int + 10
    } else if 'A' <= c && c <= 'Z' {
        c as int - 'A' as int + 10
    } else {
        36
    }
}

/// The number the digits of `s` spell in base `radix`.
pub open spec fn digits_value(s: Seq<char>, radix: int) -> int
    decreases s.len(),
{
    if s.len() == 0 {
        0
    } else {
        digits_value(s.drop_last(), radix) * radix + digit_value(s.last())
    }
}

/// Whether every character of `s` is a digit of base `radix`.
pub open spec fn all_digits(s: Seq<char>, radix: int) -> bool {
    forall|i: int| 0 <= i < s.len() ==> digit_value(s[i]) < radix
}

/// What an unsigned `from_str_radix` gives for `s`: an optional leading `+`,
/// then at least one digit of base `radix`, spelling a number up to `max`.
pub open spec fn radix_value(s: Seq<char>, radix: int, max: int) -> Option<int> {
    let body = if s.len() > 0 && s[0] == '+' {
        s.drop_first()
    } else {
        s
    };
    if body.len() > 0 && all_digits(body, radix) && digits_value(body, radix) <= max {
        Some(digits_value(body, radix))
    } else {
        None
    }
}

/// A longer run of digits spells at least as much as its prefix.
proof fn lemma_digits_monotone(s: Seq<char>, radix: int, k: int)
    requires
        radix >= 2,
        0 <= k <= s.len(),
        all_digits(s, radix),
    ensures
        0 <= digits_value(s.take(k), radix) <= digits_value(s, radix),
    decreases s.len(),
{
    if s.len() == 0 {
        assert(s.take(k) =~= s);
    } else if k == s.len() {
        assert(s.take(k) =~= s);
        lemma_digits_monotone(s.drop_last(), radix, k - 1);
        assert(s.drop_last().take(k - 1) =~= s.drop_last());
        let d = digits_value(s.drop_last(), radix);
        assert(d * radix >= d) by (nonlinear_arith)
            requires
                d >= 0,
                radix >= 2,
        ;
    } else {
        lemma_digits_monotone(s.drop_last(), radix, k);
        assert(s.drop_last().take(k) =~= s.take(k));
        lemma_digits_monotone(s.drop_last(), radix, s.len() - 1);
        assert(s.drop_last().take(s.len() - 1) =~= s.drop_last());
        let d = digits_value(s.drop_last(), radix);
        assert(d * radix >= d) by (nonlinear_arith)
            requires
                d >= 0,
                radix >= 2,
        ;
    }
}

/// The value of a digit character, computed.
fn digit_of(c: char) -> (r: u32)
    ensures
        r == digit_value(c),
{
    if '0' <= c && c <= '9' {
        (c as u32) - ('0' as u32)
    } else if 'a' <= c && c <= 'z' {
        (c as u32) - ('a' as u32) + 10
    } else if 'A' <= c && c <= 'Z' {
        (c as u32) - ('A' as u32) + 10
    } else {
        36
    }
}

/// Parses an unsigned number of base `radix` no greater than `max`, as the
/// unsigned integer types' `from_str_radix` does; `None` where it fails.
pub fn parse_radix(s: &str, radix: u32, max: u32) -> (r: Option<u32>)
    requires
        2 <= radix <= 36,
        max <= 0xffff,
    ensures
        match radix_value(s@, radix as int, max as int) {
            Some(v) => r == Some(v as u32) && 0 <= v <= max,
            None => r is None,
        },
{
    let n = s.unicode_len();
    let start: usize = if n > 0 && s.get_char(0) == '+' {
        1
    } else {
        0
    };
    let ghost body = if s@.len() > 0 && s@[0] == '+' {
        s@.drop_first()
    } else {
        s@
    };
    assert(body =~= s@.subrange(start as int, n as int));
    if start == n {
        return None;
    }
    let mut value: u32 = 0;
    let mut i: usize = start;
    assert(body.take(0) =~= Seq::<char>::empty());
    while i < n
        invariant
            n == s@.len(),
            start <= i <= n,
            start < n,
            2 <= radix <= 36,
            max <= 0xffff,
            body == s@.subrange(start as int, n as int),
            body == (if s@.len() > 0 && s@[0] == '+' {
                s@.drop_first()
            } else {
                s@
            }),
            all_digits(body.take(i - start), radix as int),
            value == digits_value(body.take(i - start), radix as int),
            value <= max,
        decreases n - i,
    {
        let c = s.get_char(i);
        let d = digit_of(c);
        let k = i - start;
        assert(body[k as int] == c);
        if d >= radix {
            assert(!all_digits(body, radix as int));
            assert(radix_value(s@, radix as int, max as int) is None);
            return None;
        }
        assert(body.take(k + 1).drop_last() =~= body.take(k as int));
        assert(body.take(k + 1).last() == c);
        assert(value * radix <= 0xffff * 36) by (nonlinear_arith)
            requires
                value <= 0xffff,
                radix <= 36,
        ;
        value = value * radix + d;
        i = i + 1;
        assert(all_digits(body.take(i - start), radix as int));
        if value > max {
            proof {
                if all_digits(body, radix as int) {
                    lemma_digits_monotone(body, radix as int, (i - start) as int);
                }
            }
            assert(radix_value(s@, radix as int, max as int) is None);
            return None;
        }
    }
    assert(body.take(n - start) =~= body);
    Some(value)
}

} // verus!
