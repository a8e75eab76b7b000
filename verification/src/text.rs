//! Strings as sequences of characters: the few operations the rest of the
//! crate needs, each stated over `Seq<char>`.

use crate::views::lemma_deep_view_push;
use vstd::prelude::*;

verus! {

/// The pieces of `s` that lie between the occurrences of `sep`: one more
/// than there are occurrences, some of them possibly empty.
pub open spec fn split(s: Seq<char>, sep: char) -> Seq<Seq<char>>
    decreases s.len(),
{
    if s.len() == 0 {
        seq![Seq::empty()]
    } else {
        let before = split(s.drop_last(), sep);
        if s.last() == sep {
            before.push(Seq::empty())
        } else {
            before.drop_last().push(before.last().push(s.last()))
        }
    }
}

/// What stands in `s` before the first occurrence of `pattern`: all of `s`
/// where there is none.
pub open spec fn before(s: Seq<char>, pattern: Seq<char>) -> Seq<char>
    decreases s.len(),
{
    if s.len() == 0 || pattern.is_prefix_of(s) {
        Seq::empty()
    } else {
        seq![s.first()] + before(s.drop_first(), pattern)
    }
}

/// The parts one after the other, with `sep` between each two.
pub open spec fn joined(parts: Seq<Seq<char>>, sep: Seq<char>) -> Seq<char>
    decreases parts.len(),
{
    if parts.len() == 0 {
        Seq::empty()
    } else if parts.len() == 1 {
        parts[0]
    } else {
        joined(parts.drop_last(), sep) + sep + parts.last()
    }
}

/// `String::push` appends one character at the end and touches nothing else.
pub assume_specification[ String::push ](s: &mut String, c: char)
    ensures
        final(s)@ == old(s)@.push(c),
;

/// The characters of `s`, in order.
pub fn chars_of(s: &str) -> (v: Vec<char>)
    ensures
        v@ == s@,
{
    let mut v: Vec<char> = Vec::new();
    for c in it: s.chars()
        invariant
            v@ == it.seq().take(it.index() as int),
            it.seq() == s@,
    {
        v.push(c);
    }
    v
}

/// The string made of `v[from..to]`.
pub(crate) fn text_of(v: &Vec<char>, from: usize, to: usize) -> (s: String)
    requires
        from <= to <= v.len(),
    ensures
        s@ == v@.subrange(from as int, to as int),
{
    let mut s = String::new();
    let mut i: usize = from;
    while i < to
        invariant
            from <= i <= to <= v.len(),
            s@ == v@.subrange(from as int, i as int),
        decreases to - i,
    {
        s.push(v[i]);
        i += 1;
    }
    s
}

/// Whether two strings hold the same characters.
pub fn same_text(a: &str, b: &str) -> (r: bool)
    ensures
        r == (a@ == b@),
{
    let x = a.as_bytes();
    let y = b.as_bytes();
    if x.len() != y.len() {
        return false;
    }
    let mut i: usize = 0;
    while i < x.len()
        invariant
            i <= x.len(),
            x.len() == y.len(),
            x@ == vstd::utf8::encode_utf8(a@),
            y@ == vstd::utf8::encode_utf8(b@),
            forall|j: int| 0 <= j < i ==> x@[j] == y@[j],
        decreases x.len() - i,
    {
        if x[i] != y[i] {
            return false;
        }
        i += 1;
    }
    proof {
        assert(x@ =~= y@);
        vstd::utf8::encode_utf8_decode_utf8(a@);
        vstd::utf8::encode_utf8_decode_utf8(b@);
    }
    true
}

/// Whether `v[from..]` starts with `pattern`.
pub(crate) fn matches_at(v: &Vec<char>, from: usize, pattern: &Vec<char>) -> (r: bool)
    requires
        from <= v.len(),
    ensures
        r == pattern@.is_prefix_of(v@.skip(from as int)),
{
    if pattern.len() > v.len() - from {
        return false;
    }
    let mut i: usize = 0;
    while i < pattern.len()
        invariant
            from <= v.len(),
            i <= pattern.len() <= v.len() - from,
            forall|j: int| 0 <= j < i ==> pattern@[j] == v@[from + j],
        decreases pattern.len() - i,
    {
        if pattern[i] != v[from + i] {
            proof {
                let tail = v@.skip(from as int);
                assert(tail.subrange(0, pattern@.len() as int)[i as int] == v@[from + i]);
            }
            return false;
        }
        i += 1;
    }
    proof {
        let tail = v@.skip(from as int);
        assert(pattern@ =~= tail.subrange(0, pattern@.len() as int));
    }
    true
}

/// Whether `text` ends with `suffix`.
pub fn ends_with(text: &str, suffix: &str) -> (r: bool)
    ensures
        r == suffix@.is_suffix_of(text@),
{
    let t = chars_of(text);
    let s = chars_of(suffix);
    if s.len() > t.len() {
        return false;
    }
    let from = t.len() - s.len();
    let r = matches_at(&t, from, &s);
    proof {
        let tail = t@.skip(from as int);
        assert(tail.subrange(0, s@.len() as int) =~= t@.subrange(from as int, t@.len() as int));
    }
    r
}

/// `split` has at least one piece.
pub proof fn lemma_split_nonempty(s: Seq<char>, sep: char)
    ensures
        split(s, sep).len() >= 1,
    decreases s.len(),
{
    if s.len() > 0 {
        lemma_split_nonempty(s.drop_last(), sep);
    }
}

/// The pieces of `text` between the occurrences of `sep`.
pub fn split_text(text: &str, sep: char) -> (pieces: Vec<String>)
    ensures
        pieces.deep_view() == split(text@, sep),
{
    let v = chars_of(text);
    let mut pieces: Vec<String> = Vec::new();
    let mut start: usize = 0;
    let mut i: usize = 0;
    proof {
        assert(v@.take(0) =~= Seq::<char>::empty());
        assert(pieces.deep_view().push(v@.subrange(0, 0)) =~= seq![Seq::<char>::empty()]);
    }
    while i < v.len()
        invariant
            start <= i <= v.len(),
            split(v@.take(i as int), sep) == pieces.deep_view().push(
                v@.subrange(start as int, i as int),
            ),
        decreases v.len() - i,
    {
        proof {
            let next = v@.take(i + 1);
            assert(next.drop_last() =~= v@.take(i as int));
            assert(next.last() == v@[i as int]);
        }
        if v[i] == sep {
            let piece = text_of(&v, start, i);
            let ghost earlier = pieces;
            pieces.push(piece);
            proof {
                lemma_deep_view_push(earlier, pieces, piece);
                assert(v@.subrange(i + 1, i + 1) =~= Seq::<char>::empty());
            }
            start = i + 1;
        } else {
            proof {
                let sofar = pieces.deep_view().push(v@.subrange(start as int, i as int));
                assert(sofar.drop_last() =~= pieces.deep_view());
                assert(v@.subrange(start as int, i as int).push(v@[i as int]) =~= v@.subrange(
                    start as int,
                    i + 1,
                ));
            }
        }
        i += 1;
    }
    let piece = text_of(&v, start, i);
    let ghost earlier = pieces;
    pieces.push(piece);
    proof {
        lemma_deep_view_push(earlier, pieces, piece);
        assert(v@.take(i as int) =~= v@);
    }
    pieces
}

/// Where `pattern` does not occur at any of the first `n` places of `s`,
/// what stands before it starts with those `n` characters.
proof fn lemma_before_skips(s: Seq<char>, pattern: Seq<char>, n: int)
    requires
        0 <= n <= s.len(),
        forall|j: int| 0 <= j < n ==> !pattern.is_prefix_of(#[trigger] s.skip(j)),
    ensures
        before(s, pattern) == s.take(n) + before(s.skip(n), pattern),
    decreases n,
{
    if n == 0 {
        assert(s.skip(0) =~= s);
        assert(s.take(0) + before(s, pattern) =~= before(s, pattern));
    } else {
        assert(s.skip(0) =~= s);
        let tail = s.drop_first();
        assert forall|j: int| 0 <= j < n - 1 implies !pattern.is_prefix_of(
            #[trigger] tail.skip(j),
        ) by {
            assert(tail.skip(j) =~= s.skip(j + 1));
        }
        lemma_before_skips(tail, pattern, n - 1);
        assert(tail.skip(n - 1) =~= s.skip(n));
        assert(seq![s.first()] + tail.take(n - 1) =~= s.take(n));
        assert(seq![s.first()] + (tail.take(n - 1) + before(s.skip(n), pattern)) =~= s.take(n)
            + before(s.skip(n), pattern));
    }
}

/// What stands before the first occurrence of a pattern is the text up
/// to a place where the pattern occurs, or all of the text, and the
/// pattern occurs at no earlier place.
pub proof fn lemma_before_first_occurrence(s: Seq<char>, pattern: Seq<char>)
    ensures
        before(s, pattern).len() <= s.len(),
        before(s, pattern) == s.take(before(s, pattern).len() as int),
        before(s, pattern).len() < s.len() ==> pattern.is_prefix_of(
            s.skip(before(s, pattern).len() as int),
        ),
        forall|j: int|
            0 <= j < before(s, pattern).len() ==> !pattern.is_prefix_of(#[trigger] s.skip(j)),
    decreases s.len(),
{
    if s.len() == 0 || pattern.is_prefix_of(s) {
        assert(s.take(0) =~= Seq::<char>::empty());
        assert(s.skip(0) =~= s);
    } else {
        let tail = s.drop_first();
        let n = before(tail, pattern).len() as int;
        lemma_before_first_occurrence(tail, pattern);
        assert(seq![s.first()] + tail.take(n) =~= s.take(n + 1));
        assert(tail.skip(n) =~= s.skip(n + 1));
        assert forall|j: int| 0 <= j < n + 1 implies !pattern.is_prefix_of(
            #[trigger] s.skip(j),
        ) by {
            if j == 0 {
                assert(s.skip(0) =~= s);
            } else {
                assert(tail.skip(j - 1) =~= s.skip(j));
            }
        }
    }
}

/// What stands in `text` before the first occurrence of `pattern`.
pub fn text_before(text: &str, pattern: &str) -> (r: String)
    ensures
        r@ == before(text@, pattern@),
{
    let v = chars_of(text);
    let p = chars_of(pattern);
    let mut i: usize = 0;
    while i < v.len() && !matches_at(&v, i, &p)
        invariant
            i <= v.len(),
            forall|j: int| 0 <= j < i ==> !p@.is_prefix_of(#[trigger] v@.skip(j)),
        decreases v.len() - i,
    {
        i += 1;
    }
    proof {
        lemma_before_skips(v@, p@, i as int);
        assert(v@.take(i as int) + Seq::<char>::empty() =~= v@.subrange(0, i as int));
    }
    text_of(&v, 0, i)
}

/// `itertools::Itertools::join` on the strings of `parts`: the first one,
/// then for each further one the separator and the string.
#[verifier::external_body]
pub(crate) fn join(parts: &Vec<String>, sep: &str) -> (r: String)
    ensures
        r@ == joined(parts.deep_view(), sep@),
{
    itertools::Itertools::join(&mut parts.iter(), sep)
}

/// The character that writes a digit.
pub open spec fn digit_char(d: nat) -> char {
    ('0' as u8 + d) as char
}

/// A number written in base ten, without a sign and without leading
/// zeros.
pub open spec fn decimal_digits(n: nat) -> Seq<char>
    decreases n,
{
    if n < 10 {
        seq![digit_char(n)]
    } else {
        decimal_digits(n / 10).push(digit_char(n % 10))
    }
}

/// Writes `n` in base ten at the end of `s`.
pub fn push_decimal(s: &mut String, n: u64)
    ensures
        final(s)@ == old(s)@ + decimal_digits(n as nat),
    decreases n,
{
    if n >= 10 {
        push_decimal(s, n / 10);
    }
    let d: u8 = (n % 10) as u8;
    s.push((48u8 + d) as char);
    proof {
        assert('0' as u8 == 48u8);
        if n >= 10 {
            assert(final(s)@ =~= old(s)@ + decimal_digits(n as nat));
        } else {
            assert(final(s)@ =~= old(s)@ + decimal_digits(n as nat));
        }
    }
}

/// `n` in base ten.
pub fn decimal_text(n: u64) -> (r: String)
    ensures
        r@ == decimal_digits(n as nat),
{
    let mut r = String::new();
    push_decimal(&mut r, n);
    assert(Seq::<char>::empty() + decimal_digits(n as nat) =~= decimal_digits(n as nat));
    r
}

/// A copy of a list of strings.
pub fn clone_strings(strings: &Vec<String>) -> (r: Vec<String>)
    ensures
        r.deep_view() == strings.deep_view(),
{
    let mut r: Vec<String> = Vec::new();
    let mut i: usize = 0;
    while i < strings.len()
        invariant
            i <= strings.len(),
            r.deep_view() =~= strings.deep_view().take(i as int),
        decreases strings.len() - i,
    {
        let ghost before = r;
        let s = strings[i].clone();
        r.push(s);
        proof {
            lemma_deep_view_push(before, r, s);
        }
        i += 1;
    }
    assert(strings.deep_view().take(i as int) =~= strings.deep_view());
    r
}

/// A text without the separator is one piece.
pub proof fn lemma_split_without_separator(s: Seq<char>, sep: char)
    requires
        !s.contains(sep),
    ensures
        split(s, sep) == seq![s],
    decreases s.len(),
{
    if s.len() == 0 {
        assert(s =~= Seq::empty());
    } else {
        let shorter = s.drop_last();
        assert(s.last() != sep) by {
            assert(s[s.len() - 1] == s.last());
        }
        assert(!shorter.contains(sep)) by {
            if shorter.contains(sep) {
                let i = choose|i: int| 0 <= i < shorter.len() && shorter[i] == sep;
                assert(s[i] == sep);
            }
        }
        lemma_split_without_separator(shorter, sep);
        assert(seq![shorter].drop_last().push(shorter.push(s.last())) =~= seq![s]) by {
            assert(shorter.push(s.last()) =~= s);
        }
    }
}

/// What follows the last separator is the last piece, and what stands
/// before that separator gives the pieces before it.
pub proof fn lemma_split_at_last_separator(a: Seq<char>, sep: char, b: Seq<char>)
    requires
        !b.contains(sep),
    ensures
        split(a + seq![sep] + b, sep) == split(a, sep).push(b),
    decreases b.len(),
{
    let whole = a + seq![sep] + b;
    if b.len() == 0 {
        assert(whole.drop_last() =~= a);
        assert(whole.last() == sep);
        assert(b =~= Seq::empty());
    } else {
        let shorter = b.drop_last();
        assert(b.last() != sep) by {
            assert(b[b.len() - 1] == b.last());
        }
        assert(!shorter.contains(sep)) by {
            if shorter.contains(sep) {
                let i = choose|i: int| 0 <= i < shorter.len() && shorter[i] == sep;
                assert(b[i] == sep);
            }
        }
        lemma_split_at_last_separator(a, sep, shorter);
        assert(whole.drop_last() =~= a + seq![sep] + shorter);
        assert(whole.last() == b.last());
        assert(shorter.push(b.last()) =~= b);
        assert(split(a, sep).push(shorter).drop_last() =~= split(a, sep));
    }
}

/// Joining the pieces of a text with the separator gives the text back.
pub proof fn lemma_split_joins_back(s: Seq<char>, sep: char)
    ensures
        joined(split(s, sep), seq![sep]) == s,
    decreases s.len(),
{
    if s.len() == 0 {
        assert(joined(seq![Seq::<char>::empty()], seq![sep]) =~= s);
    } else {
        let shorter = s.drop_last();
        let pieces = split(shorter, sep);
        lemma_split_joins_back(shorter, sep);
        lemma_split_nonempty(shorter, sep);
        if s.last() == sep {
            let more = pieces.push(Seq::empty());
            assert(more.drop_last() =~= pieces);
            assert(joined(more, seq![sep]) =~= joined(pieces, seq![sep]) + seq![sep]
                + Seq::<char>::empty());
            assert(shorter + seq![sep] =~= s);
        } else {
            let grown = pieces.last().push(s.last());
            let more = pieces.drop_last().push(grown);
            assert(more.drop_last() =~= pieces.drop_last());
            if pieces.len() == 1 {
                assert(joined(pieces, seq![sep]) == pieces[0]);
                assert(joined(more, seq![sep]) == grown);
                assert(shorter.push(s.last()) =~= s);
            } else {
                assert(joined(pieces, seq![sep]) == joined(pieces.drop_last(), seq![sep]) + seq![
                    sep,
                ] + pieces.last());
                assert(joined(more, seq![sep]) == joined(pieces.drop_last(), seq![sep]) + seq![
                    sep,
                ] + grown);
                assert(joined(pieces.drop_last(), seq![sep]) + seq![sep] + grown =~= (joined(
                    pieces.drop_last(),
                    seq![sep],
                ) + seq![sep] + pieces.last()).push(s.last()));
                assert(shorter.push(s.last()) =~= s);
            }
        }
    }
}

/// A number in base ten is made of digits, at least one.
pub proof fn lemma_decimal_digits_are_digits(n: nat)
    ensures
        decimal_digits(n).len() >= 1,
        forall|i: int|
            0 <= i < decimal_digits(n).len() ==> '0' <= #[trigger] decimal_digits(n)[i] <= '9',
    decreases n,
{
    if n >= 10 {
        lemma_decimal_digits_are_digits(n / 10);
    }
}

} // verus!
