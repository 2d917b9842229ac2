//! Text primitives over sequences of characters.
//!
//! Every function here is stated over `Seq<char>`, the view of `str` and
//! `String`, so that the contracts of the modules built on top can speak of
//! substrings, lines and joins exactly.

use crate::seqs::views;
use vstd::prelude::*;

verus! {

/// `String::push` appends exactly one character.
pub assume_specification[ String::push ](s: &mut String, c: char)
    ensures
        final(s)@ == old(s)@.push(c),
;

/// `p` occurs in `s` starting at index `i`.
pub open spec fn occurs_at(s: Seq<char>, p: Seq<char>, i: int) -> bool {
    0 <= i && i + p.len() <= s.len() && s.subrange(i, i + p.len()) == p
}

/// `p` occurs somewhere in `s`.
pub open spec fn contains(s: Seq<char>, p: Seq<char>) -> bool {
    exists|i: int| occurs_at(s, p, i)
}

/// `s` begins with `p`.
pub open spec fn starts_with(s: Seq<char>, p: Seq<char>) -> bool {
    occurs_at(s, p, 0)
}

/// `s` with every occurrence of `from` replaced by `to`, scanning from the
/// left and never re-reading replaced text. An empty `from` replaces nothing.
pub open spec fn replace_all(s: Seq<char>, from: Seq<char>, to: Seq<char>) -> Seq<char>
    decreases s.len(),
{
    if from.len() == 0 || s.len() < from.len() {
        s
    } else if occurs_at(s, from, 0) {
        to + replace_all(s.skip(from.len() as int), from, to)
    } else {
        seq![s[0]] + replace_all(s.skip(1), from, to)
    }
}

/// Collects the characters of a string slice.
pub fn chars_of(s: &str) -> (v: Vec<char>)
    ensures
        v@ == s@,
{
    let mut v: Vec<char> = Vec::new();
    for c in it: s.chars()
        invariant
            v@ == it.seq().take(it.index()),
            it.seq() == s@,
    {
        v.push(c);
    }
    v
}

/// Builds the string holding `v[from..to]`.
pub(crate) fn string_of_range(v: &Vec<char>, from: usize, to: usize) -> (s: String)
    requires
        from <= to <= v.len(),
    ensures
        s@ == v@.subrange(from as int, to as int),
{
    let mut s = String::new();
    let mut i: usize = from;
    while i < to
        invariant
            from <= i <= to <= v.len(),
            s@ == v@.subrange(from as int, i as int),
        decreases to - i,
    {
        s.push(v[i]);
        i += 1;
    }
    s
}

/// Whether `p` occurs in `s` at index `i`.
pub fn matches_at(s: &Vec<char>, p: &Vec<char>, i: usize) -> (r: bool)
    ensures
        r == occurs_at(s@, p@, i as int),
{
    if p.len() > s.len() || i > s.len() - p.len() {
        return false;
    }
    let mut k: usize = 0;
    while k < p.len()
        invariant
            k <= p.len(),
            i + p.len() <= s.len(),
            forall|j: int| 0 <= j < k ==> s@[i + j] == p@[j],
        decreases p.len() - k,
    {
        if s[i + k] != p[k] {
            assert(s@.subrange(i as int, i + p.len())[k as int] == s@[i + k]);
            return false;
        }
        k += 1;
    }
    assert(s@.subrange(i as int, i + p.len()) =~= p@);
    true
}

/// The first index at or after `start` where `p` occurs in `s`.
pub fn find_from(s: &Vec<char>, p: &Vec<char>, start: usize) -> (r: Option<usize>)
    ensures
        match r {
            Some(i) => start <= i && occurs_at(s@, p@, i as int) && forall|j: int|
                start <= j < i ==> !occurs_at(s@, p@, j),
            None => forall|j: int| start <= j ==> !occurs_at(s@, p@, j),
        },
{
    if p.len() > s.len() {
        return None;
    }
    let last: usize = s.len() - p.len();
    let mut i: usize = start;
    while i <= last
        invariant
            start <= i,
            last == s.len() - p.len(),
            forall|j: int| start <= j < i ==> !occurs_at(s@, p@, j),
        decreases last - i,
    {
        if matches_at(s, p, i) {
            return Some(i);
        }
        if i == last {
            return None;
        }
        i += 1;
    }
    None
}

/// Whether `p` occurs in `s`, both given as characters.
pub fn contains_chars(s: &Vec<char>, p: &Vec<char>) -> (r: bool)
    ensures
        r == contains(s@, p@),
{
    find_from(s, p, 0).is_some()
}

/// Whether `p` occurs in `s`.
pub fn str_contains(s: &str, p: &str) -> (r: bool)
    ensures
        r == contains(s@, p@),
{
    let sv = chars_of(s);
    let pv = chars_of(p);
    contains_chars(&sv, &pv)
}

/// Whether `s` begins with `p`.
pub fn str_starts_with(s: &str, p: &str) -> (r: bool)
    ensures
        r == starts_with(s@, p@),
{
    let sv = chars_of(s);
    let pv = chars_of(p);
    matches_at(&sv, &pv, 0)
}

/// Replaces every occurrence of `from` in `s` by `to`.
pub fn str_replace(s: &str, from: &str, to: &str) -> (r: String)
    ensures
        r@ == replace_all(s@, from@, to@),
{
    let sv = chars_of(s);
    let fv = chars_of(from);
    let mut out = String::new();
    if fv.len() == 0 {
        return String::from_str(s);
    }
    let mut i: usize = 0;
    assert(sv@.skip(0) =~= sv@);
    assert(out@ + replace_all(sv@, fv@, to@) =~= replace_all(sv@, fv@, to@));
    while i < sv.len()
        invariant
            i <= sv.len(),
            fv.len() > 0,
            fv@ == from@,
            sv@ == s@,
            out@ + replace_all(sv@.skip(i as int), fv@, to@) == replace_all(sv@, fv@, to@),
        decreases sv.len() - i,
    {
        let ghost rest = sv@.skip(i as int);
        if sv.len() - i < fv.len() {
            // Too short for a further match: the rest is copied as it is.
            let tail = string_of_range(&sv, i, sv.len());
            assert(sv@.subrange(i as int, sv@.len() as int) =~= rest);
            assert(sv@.skip(sv@.len() as int) =~= Seq::<char>::empty());
            assert(out@ + rest =~= (out@ + rest) + Seq::<char>::empty());
            out.append(tail.as_str());
            i = sv.len();
        } else if matches_at(&sv, &fv, i) {
            assert(rest.subrange(0, fv@.len() as int) =~= sv@.subrange(i as int, i + fv@.len()));
            assert(rest.skip(fv@.len() as int) =~= sv@.skip(i + fv@.len()));
            assert(out@ + (to@ + replace_all(rest.skip(fv@.len() as int), fv@, to@)) =~= (out@
                + to@) + replace_all(rest.skip(fv@.len() as int), fv@, to@));
            out.append(to);
            i += fv.len();
        } else {
            assert(rest.subrange(0, fv@.len() as int) =~= sv@.subrange(i as int, i + fv@.len()));
            assert(rest.skip(1) =~= sv@.skip(i + 1));
            assert(out@ + (seq![rest[0]] + replace_all(rest.skip(1), fv@, to@)) =~= out@.push(
                sv@[i as int],
            ) + replace_all(rest.skip(1), fv@, to@));
            out.push(sv[i]);
            i += 1;
        }
    }
    assert(sv@.skip(sv@.len() as int) =~= Seq::<char>::empty());
    assert(out@ + Seq::<char>::empty() =~= out@);
    out
}

/// Whether two strings hold the same characters.
pub fn str_eq(a: &str, b: &str) -> (r: bool)
    ensures
        r == (a@ == b@),
{
    let av = chars_of(a);
    let bv = chars_of(b);
    if av.len() != bv.len() {
        return false;
    }
    let r = matches_at(&av, &bv, 0);
    assert(av@.subrange(0, av@.len() as int) =~= av@);
    r
}

/// The concatenation of two strings.
pub fn cat(a: &str, b: &str) -> (r: String)
    ensures
        r@ == a@ + b@,
{
    let mut r = String::from_str(a);
    r.append(b);
    r
}

/// Characters with the Unicode property White_Space.
pub open spec fn is_whitespace(c: char) -> bool {
    let u = c as u32;
    ||| 0x09 <= u <= 0x0D
    ||| u == 0x20
    ||| u == 0x85
    ||| u == 0xA0
    ||| u == 0x1680
    ||| 0x2000 <= u <= 0x200A
    ||| u == 0x2028
    ||| u == 0x2029
    ||| u == 0x202F
    ||| u == 0x205F
    ||| u == 0x3000
}

/// Whether `c` is white space.
pub fn char_is_whitespace(c: char) -> (r: bool)
    ensures
        r == is_whitespace(c),
{
    let u: u32 = c as u32;
    (0x09 <= u && u <= 0x0D) || u == 0x20 || u == 0x85 || u == 0xA0 || u == 0x1680 || (0x2000 <= u
        && u <= 0x200A) || u == 0x2028 || u == 0x2029 || u == 0x202F || u == 0x205F || u == 0x3000
}

/// The number of white-space characters at the start of `s`.
pub open spec fn leading_ws(s: Seq<char>) -> nat
    decreases s.len(),
{
    if s.len() > 0 && is_whitespace(s[0]) {
        1 + leading_ws(s.drop_first())
    } else {
        0
    }
}

/// The number of white-space characters at the end of `s`.
pub open spec fn trailing_ws(s: Seq<char>) -> nat
    decreases s.len(),
{
    if s.len() > 0 && is_whitespace(s.last()) {
        1 + trailing_ws(s.drop_last())
    } else {
        0
    }
}

/// `s` without its leading white space.
pub open spec fn trim_start(s: Seq<char>) -> Seq<char> {
    s.skip(leading_ws(s) as int)
}

/// `s` without its trailing white space.
pub open spec fn trim_end(s: Seq<char>) -> Seq<char> {
    s.take(s.len() - trailing_ws(s))
}

/// `s` without leading and trailing white space.
pub open spec fn trim(s: Seq<char>) -> Seq<char> {
    trim_end(trim_start(s))
}

/// A run of `a` white-space characters followed by none pins `leading_ws`.
pub proof fn lemma_leading_ws(s: Seq<char>, a: int)
    requires
        0 <= a <= s.len(),
        forall|j: int| 0 <= j < a ==> is_whitespace(s[j]),
        a == s.len() || !is_whitespace(s[a]),
    ensures
        leading_ws(s) == a,
    decreases a,
{
    if a > 0 {
        let t = s.drop_first();
        assert forall|j: int| 0 <= j < a - 1 implies is_whitespace(t[j]) by {
            assert(t[j] == s[j + 1]);
        }
        lemma_leading_ws(t, a - 1);
    }
}

/// A final run of `n` white-space characters preceded by none pins `trailing_ws`.
pub proof fn lemma_trailing_ws(s: Seq<char>, n: int)
    requires
        0 <= n <= s.len(),
        forall|j: int| s.len() - n <= j < s.len() ==> is_whitespace(s[j]),
        n == s.len() || !is_whitespace(s[s.len() - n - 1]),
    ensures
        trailing_ws(s) == n,
    decreases n,
{
    if n > 0 {
        let t = s.drop_last();
        lemma_trailing_ws(t, n - 1);
    }
}

/// The bounds of `s` without leading and trailing white space.
pub fn trim_bounds(s: &Vec<char>) -> (r: (usize, usize))
    ensures
        r.0 <= r.1 <= s.len(),
        s@.subrange(r.0 as int, r.1 as int) == trim(s@),
{
    let mut a: usize = 0;
    while a < s.len() && char_is_whitespace(s[a])
        invariant
            a <= s.len(),
            forall|j: int| 0 <= j < a ==> is_whitespace(s@[j]),
        decreases s.len() - a,
    {
        a += 1;
    }
    let mut b: usize = s.len();
    while b > a && char_is_whitespace(s[b - 1])
        invariant
            a <= b <= s.len(),
            forall|j: int| b <= j < s.len() ==> is_whitespace(s@[j]),
        decreases b,
    {
        b -= 1;
    }
    proof {
        lemma_leading_ws(s@, a as int);
        let t = s@.skip(a as int);
        assert(t.len() == s.len() - a);
        assert forall|j: int| t.len() - (s.len() - b) <= j < t.len() implies is_whitespace(
            t[j],
        ) by {
            assert(t[j] == s@[j + a]);
        }
        if b > a {
            assert(t[b - a - 1] == s@[b - 1]);
        }
        lemma_trailing_ws(t, s.len() - b);
        assert(t.take(t.len() - (s.len() - b)) =~= s@.subrange(a as int, b as int));
    }
    (a, b)
}

/// `s` without leading and trailing white space.
pub fn str_trim(s: &str) -> (r: String)
    ensures
        r@ == trim(s@),
{
    let sv = chars_of(s);
    let (a, b) = trim_bounds(&sv);
    string_of_range(&sv, a, b)
}

/// `s` without one final carriage return.
pub open spec fn strip_cr(s: Seq<char>) -> Seq<char> {
    if s.len() > 0 && s.last() == '\r' {
        s.drop_last()
    } else {
        s
    }
}

/// The lines of `s`, read character by character with `cur` the line begun
/// so far. A line ends at `'\n'`; one carriage return just before it belongs
/// to the line ending. Text after the last `'\n'` is a line if it is not empty.
pub open spec fn lines_from(s: Seq<char>, cur: Seq<char>) -> Seq<Seq<char>>
    decreases s.len(),
{
    if s.len() == 0 {
        if cur.len() > 0 {
            seq![cur]
        } else {
            Seq::empty()
        }
    } else if s[0] == '\n' {
        seq![strip_cr(cur)] + lines_from(s.drop_first(), Seq::empty())
    } else {
        lines_from(s.drop_first(), cur.push(s[0]))
    }
}

/// The lines of `s`, without their line endings.
pub open spec fn lines(s: Seq<char>) -> Seq<Seq<char>> {
    lines_from(s, Seq::empty())
}

/// The lines of `s`, without their line endings.
pub fn str_lines(s: &str) -> (r: Vec<String>)
    ensures
        views(r@) == lines(s@),
{
    let sv = chars_of(s);
    let mut out: Vec<String> = Vec::new();
    let mut start: usize = 0;
    let mut i: usize = 0;
    assert(sv@.skip(0) =~= sv@);
    assert(sv@.subrange(0, 0) =~= Seq::<char>::empty());
    assert(views(out@) + lines(sv@) =~= lines(sv@));
    while i < sv.len()
        invariant
            start <= i <= sv.len(),
            sv@ == s@,
            views(out@) + lines_from(sv@.skip(i as int), sv@.subrange(start as int, i as int))
                == lines(sv@),
        decreases sv.len() - i,
    {
        let ghost rest = sv@.skip(i as int);
        let ghost cur = sv@.subrange(start as int, i as int);
        assert(rest.drop_first() =~= sv@.skip(i + 1));
        if sv[i] == '\n' {
            let end: usize = if i > start && sv[i - 1] == '\r' {
                i - 1
            } else {
                i
            };
            let line = string_of_range(&sv, start, end);
            assert(line@ =~= strip_cr(cur));
            assert(views(out@.push(line)) =~= views(out@).push(line@));
            assert(views(out@) + (seq![strip_cr(cur)] + lines_from(
                rest.drop_first(),
                Seq::empty(),
            )) =~= views(out@).push(line@) + lines_from(rest.drop_first(), Seq::empty()));
            assert(sv@.subrange(i + 1, i + 1) =~= Seq::<char>::empty());
            out.push(line);
            start = i + 1;
        } else {
            assert(cur.push(rest[0]) =~= sv@.subrange(start as int, i + 1));
        }
        i += 1;
    }
    assert(sv@.skip(sv@.len() as int) =~= Seq::<char>::empty());
    if start < sv.len() {
        let line = string_of_range(&sv, start, sv.len());
        assert(views(out@.push(line)) =~= views(out@).push(line@));
        assert(views(out@) + seq![line@] =~= views(out@).push(line@));
        out.push(line);
    } else {
        assert(views(out@) + Seq::<Seq<char>>::empty() =~= views(out@));
    }
    out
}

/// The words of `s`, read character by character with `cur` the word begun
/// so far: the maximal runs of characters that are not white space.
pub open spec fn words_from(s: Seq<char>, cur: Seq<char>) -> Seq<Seq<char>>
    decreases s.len(),
{
    let done = if cur.len() > 0 {
        seq![cur]
    } else {
        Seq::empty()
    };
    if s.len() == 0 {
        done
    } else if is_whitespace(s[0]) {
        done + words_from(s.drop_first(), Seq::empty())
    } else {
        words_from(s.drop_first(), cur.push(s[0]))
    }
}

/// The words of `s`: its maximal runs of characters that are not white space.
pub open spec fn words(s: Seq<char>) -> Seq<Seq<char>> {
    words_from(s, Seq::empty())
}

/// The words of `s`, split at white space.
pub fn str_words(s: &str) -> (r: Vec<String>)
    ensures
        views(r@) == words(s@),
{
    let sv = chars_of(s);
    let mut out: Vec<String> = Vec::new();
    let mut start: usize = 0;
    let mut i: usize = 0;
    assert(sv@.skip(0) =~= sv@);
    assert(sv@.subrange(0, 0) =~= Seq::<char>::empty());
    assert(views(out@) + words(sv@) =~= words(sv@));
    while i < sv.len()
        invariant
            start <= i <= sv.len(),
            sv@ == s@,
            views(out@) + words_from(sv@.skip(i as int), sv@.subrange(start as int, i as int))
                == words(sv@),
        decreases sv.len() - i,
    {
        let ghost rest = sv@.skip(i as int);
        let ghost cur = sv@.subrange(start as int, i as int);
        assert(rest.drop_first() =~= sv@.skip(i + 1));
        if char_is_whitespace(sv[i]) {
            assert(sv@.subrange(i + 1, i + 1) =~= Seq::<char>::empty());
            if start < i {
                let word = string_of_range(&sv, start, i);
                assert(views(out@.push(word)) =~= views(out@).push(word@));
                assert(views(out@) + (seq![cur] + words_from(rest.drop_first(), Seq::empty()))
                    =~= views(out@).push(word@) + words_from(rest.drop_first(), Seq::empty()));
                out.push(word);
            } else {
                assert(views(out@) + (Seq::<Seq<char>>::empty() + words_from(
                    rest.drop_first(),
                    Seq::empty(),
                )) =~= views(out@) + words_from(rest.drop_first(), Seq::empty()));
            }
            start = i + 1;
        } else {
            assert(cur.push(rest[0]) =~= sv@.subrange(start as int, i + 1));
        }
        i += 1;
    }
    assert(sv@.skip(sv@.len() as int) =~= Seq::<char>::empty());
    if start < sv.len() {
        let word = string_of_range(&sv, start, sv.len());
        assert(views(out@.push(word)) =~= views(out@).push(word@));
        assert(views(out@) + seq![word@] =~= views(out@).push(word@));
        out.push(word);
    } else {
        assert(views(out@) + Seq::<Seq<char>>::empty() =~= views(out@));
    }
    out
}

/// The items of `parts` with `sep` between each two neighbours.
pub open spec fn join(parts: Seq<Seq<char>>, sep: Seq<char>) -> Seq<char>
    decreases parts.len(),
{
    if parts.len() == 0 {
        Seq::empty()
    } else if parts.len() == 1 {
        parts[0]
    } else {
        join(parts.drop_last(), sep) + sep + parts.last()
    }
}

/// Joins `parts[..upto]` with `sep`.
pub(crate) fn join_prefix(parts: &Vec<String>, upto: usize, sep: &str) -> (r: String)
    requires
        upto <= parts.len(),
    ensures
        r@ == join(views(parts@).take(upto as int), sep@),
{
    let mut out = String::new();
    let mut i: usize = 0;
    while i < upto
        invariant
            i <= upto <= parts.len(),
            out@ == join(views(parts@).take(i as int), sep@),
        decreases upto - i,
    {
        let ghost next = views(parts@).take(i + 1);
        assert(next.drop_last() =~= views(parts@).take(i as int));
        assert(next.last() == parts@[i as int]@);
        if i > 0 {
            out.append(sep);
        } else {
            assert(out@ + parts@[i as int]@ =~= parts@[i as int]@);
        }
        out.append(parts[i].as_str());
        i += 1;
    }
    out
}

/// Joins `parts` with `sep`.
pub fn str_join(parts: &Vec<String>, sep: &str) -> (r: String)
    ensures
        r@ == join(views(parts@), sep@),
{
    assert(views(parts@).take(parts@.len() as int) =~= views(parts@));
    join_prefix(parts, parts.len(), sep)
}

/// The character of a decimal digit.
pub open spec fn digit_char(d: nat) -> char
    recommends
        d < 10,
{
    ((48 + d) as u8) as char
}

/// The decimal notation of `n`, without leading zeros.
pub open spec fn decimal(n: nat) -> Seq<char>
    decreases n,
{
    if n < 10 {
        seq![digit_char(n)]
    } else {
        decimal(n / 10).push(digit_char(n % 10))
    }
}

/// The decimal notation of `n`.
pub fn decimal_string(n: u128) -> (r: String)
    ensures
        r@ == decimal(n as nat),
    decreases n,
{
    let d: u8 = (n % 10) as u8;
    let c: char = (48u8 + d) as char;
    if n < 10 {
        let mut r = String::new();
        r.push(c);
        assert(r@ =~= seq![digit_char(n as nat)]);
        r
    } else {
        let mut r = decimal_string(n / 10);
        r.push(c);
        r
    }
}

/// An ASCII character.
pub open spec fn is_ascii_char(c: char) -> bool {
    (c as u32) < 128
}

/// The lower-case form of an ASCII character.
pub open spec fn ascii_lower(c: char) -> char {
    if 'A' <= c && c <= 'Z' {
        ((c as u8) + 32) as char
    } else {
        c
    }
}

/// The lower-case form of `s` by the Unicode rules that `str::to_lowercase`
/// applies.
pub uninterp spec fn lowercase(s: Seq<char>) -> Seq<char>;

/// Whether `c` is alphabetic or numeric by the Unicode rules that
/// `char::is_alphanumeric` applies.
pub uninterp spec fn alphanumeric(c: char) -> bool;

/// Calls `str::to_lowercase`; the result is the one named by `lowercase`.
/// Text made of ASCII characters only is lowered character by character.
#[verifier::external_body]
pub(crate) fn to_lowercase(s: &str) -> (r: String)
    ensures
        r@ == lowercase(s@),
        (forall|i: int| 0 <= i < s@.len() ==> is_ascii_char(s@[i])) ==> r@ == s@.map_values(
            |c: char| ascii_lower(c),
        ),
{
    s.to_lowercase()
}

/// Calls `char::is_alphanumeric`; the result is the one named by
/// `alphanumeric`. An ASCII character is alphanumeric exactly when it is a
/// digit or a letter.
#[verifier::external_body]
pub(crate) fn char_is_alphanumeric(c: char) -> (r: bool)
    ensures
        r == alphanumeric(c),
        is_ascii_char(c) ==> r == (('0' <= c && c <= '9') || ('a' <= c && c <= 'z') || ('A' <= c
            && c <= 'Z')),
{
    c.is_alphanumeric()
}

/// A character that is not white space bounds the leading white space.
pub proof fn lemma_leading_ws_bound(s: Seq<char>, j: int)
    requires
        0 <= j < s.len(),
        !is_whitespace(s[j]),
    ensures
        leading_ws(s) <= j,
    decreases j,
{
    if j > 0 && is_whitespace(s[0]) {
        assert(s.drop_first()[j - 1] == s[j]);
        lemma_leading_ws_bound(s.drop_first(), j - 1);
    }
}

/// A character that is not white space bounds the trailing white space.
pub proof fn lemma_trailing_ws_bound(s: Seq<char>, j: int)
    requires
        0 <= j < s.len(),
        !is_whitespace(s[j]),
    ensures
        trailing_ws(s) <= s.len() - 1 - j,
    decreases s.len() - j,
{
    if j < s.len() - 1 && is_whitespace(s.last()) {
        assert(s.drop_last()[j] == s[j]);
        lemma_trailing_ws_bound(s.drop_last(), j);
    }
}

/// Trimming keeps every occurrence of a text that neither starts nor ends
/// with white space.
pub proof fn lemma_trim_keeps_occurrence(s: Seq<char>, p: Seq<char>)
    requires
        contains(s, p),
        p.len() > 0,
        !is_whitespace(p[0]),
        !is_whitespace(p.last()),
    ensures
        contains(trim(s), p),
{
    let i = choose|i: int| occurs_at(s, p, i);
    assert(s.subrange(i, i + p.len())[0] == s[i]);
    assert(s.subrange(i, i + p.len())[p.len() - 1] == s[i + p.len() - 1]);
    lemma_leading_ws_bound(s, i);
    let a = leading_ws(s) as int;
    let t = s.skip(a);
    assert(t[i - a + p.len() - 1] == s[i + p.len() - 1]);
    lemma_trailing_ws_bound(t, i - a + p.len() - 1);
    let u = trim(s);
    assert(u.subrange(i - a, i - a + p.len()) =~= s.subrange(i, i + p.len()));
    assert(occurs_at(u, p, i - a));
}

/// Lowering ASCII text character by character keeps every occurrence of a
/// text that is in lower case already.
pub proof fn lemma_ascii_lower_keeps_occurrence(s: Seq<char>, p: Seq<char>)
    requires
        contains(s, p),
        forall|k: int| 0 <= k < p.len() ==> ascii_lower(#[trigger] p[k]) == p[k],
    ensures
        contains(s.map_values(|c: char| ascii_lower(c)), p),
{
    let i = choose|i: int| occurs_at(s, p, i);
    let low = s.map_values(|c: char| ascii_lower(c));
    assert forall|k: int| 0 <= k < p.len() implies low.subrange(i, i + p.len())[k] == p[k] by {
        assert(s.subrange(i, i + p.len())[k] == s[i + k]);
    }
    assert(low.subrange(i, i + p.len()) =~= p);
    assert(occurs_at(low, p, i));
}

/// The white space counted at either end is no longer than the text.
pub proof fn lemma_ws_counts_bounded(s: Seq<char>)
    ensures
        leading_ws(s) <= s.len(),
        trailing_ws(s) <= s.len(),
    decreases s.len(),
{
    if s.len() > 0 {
        lemma_ws_counts_bounded(s.drop_first());
        lemma_ws_counts_bounded(s.drop_last());
    }
}

/// The trimmed text is the part of the text between its leading and its
/// trailing white space.
pub proof fn lemma_trim_is_subrange(s: Seq<char>)
    ensures
        leading_ws(s) + trailing_ws(trim_start(s)) <= s.len(),
        trim(s) == s.subrange(leading_ws(s) as int, s.len() - trailing_ws(trim_start(s))),
{
    lemma_ws_counts_bounded(s);
    lemma_ws_counts_bounded(trim_start(s));
    assert(trim(s) =~= s.subrange(leading_ws(s) as int, s.len() - trailing_ws(trim_start(s))));
}

/// The value of a decimal digit.
pub open spec fn digit_value(c: char) -> Option<nat> {
    if '0' <= c && c <= '9' {
        Some(((c as u32) - 48) as nat)
    } else {
        None
    }
}

/// The number that a non-empty run of decimal digits denotes.
pub open spec fn digits_value(s: Seq<char>) -> Option<nat>
    decreases s.len(),
{
    if s.len() == 0 {
        None
    } else if s.len() == 1 {
        digit_value(s[0])
    } else {
        match (digits_value(s.drop_last()), digit_value(s.last())) {
            (Some(high), Some(low)) => Some(high * 10 + low),
            _ => None,
        }
    }
}

/// The number that `s` denotes as a `u32`: decimal digits behind an optional
/// plus sign, of a value that fits.
pub open spec fn parsed_u32(s: Seq<char>) -> Option<u32> {
    let digits = if s.len() > 0 && s[0] == '+' {
        s.drop_first()
    } else {
        s
    };
    match digits_value(digits) {
        Some(v) => if v <= u32::MAX {
            Some(v as u32)
        } else {
            None
        },
        None => None,
    }
}

/// A run of digits denotes at least what any of its prefixes denotes.
pub proof fn lemma_digits_value_grows(s: Seq<char>, k: int)
    requires
        0 < k <= s.len(),
        digits_value(s) is Some,
    ensures
        digits_value(s.take(k)) is Some,
        digits_value(s.take(k)).unwrap() <= digits_value(s).unwrap(),
    decreases s.len() - k,
{
    if k == s.len() {
        assert(s.take(k) =~= s);
    } else {
        assert(s.drop_last().take(k) =~= s.take(k));
        lemma_digits_value_grows(s.drop_last(), k);
    }
}

/// A run that holds anything but digits denotes no number.
pub proof fn lemma_digits_value_needs_digits(s: Seq<char>, k: int)
    requires
        0 <= k < s.len(),
        digit_value(s[k]) is None,
    ensures
        digits_value(s) is None,
    decreases s.len(),
{
    if s.len() > 1 && k < s.len() - 1 {
        assert(s.drop_last()[k] == s[k]);
        lemma_digits_value_needs_digits(s.drop_last(), k);
    }
}

/// Reads `s` as a `u32`.
pub fn parse_u32(s: &str) -> (r: Option<u32>)
    ensures
        r == parsed_u32(s@),
{
    let sv = chars_of(s);
    let start: usize = if sv.len() > 0 && sv[0] == '+' {
        1
    } else {
        0
    };
    let ghost digits = sv@.skip(start as int);
    assert(start == 1 ==> digits =~= sv@.drop_first());
    assert(start == 0 ==> digits =~= sv@);
    if start == sv.len() {
        return None;
    }
    let mut acc: u64 = 0;
    let mut i: usize = start;
    while i < sv.len()
        invariant
            start <= i <= sv.len(),
            start < sv.len(),
            sv@ == s@,
            digits == sv@.skip(start as int),
            digits == if s@.len() > 0 && s@[0] == '+' {
                s@.drop_first()
            } else {
                s@
            },
            acc <= u32::MAX,
            i > start ==> digits_value(digits.take(i - start)) == Some(acc as nat),
            i == start ==> acc == 0,
        decreases sv.len() - i,
    {
        let c = sv[i];
        let ghost next = digits.take(i + 1 - start);
        assert(next.drop_last() =~= digits.take(i - start));
        assert(next.last() == c);
        if !('0' <= c && c <= '9') {
            proof {
                lemma_digits_value_needs_digits(digits, i - start);
            }
            return None;
        }
        let d: u64 = (c as u32 - 48) as u64;
        let value: u64 = acc * 10 + d;
        if value > u32::MAX as u64 {
            proof {
                if digits_value(digits) is Some {
                    lemma_digits_value_grows(digits, i + 1 - start);
                }
            }
            return None;
        }
        acc = value;
        i += 1;
    }
    assert(digits.take(digits.len() as int) =~= digits);
    Some(acc as u32)
}

/// The least index at or after `from` of an item of `needles` that occurs in `hay`.
pub open spec fn first_contained(hay: Seq<char>, needles: Seq<Seq<char>>, from: int) -> Option<int>
    decreases needles.len() - from,
{
    if from < 0 || from >= needles.len() {
        None
    } else if contains(hay, needles[from]) {
        Some(from)
    } else {
        first_contained(hay, needles, from + 1)
    }
}

/// Whether an item of `needles` occurs in `hay`.
pub open spec fn contains_any(hay: Seq<char>, needles: Seq<Seq<char>>) -> bool {
    first_contained(hay, needles, 0) is Some
}

/// The first item of `needles` that occurs in `hay`.
pub fn find_contained(hay: &Vec<char>, needles: &Vec<&'static str>) -> (r: Option<usize>)
    ensures
        match r {
            Some(i) => first_contained(hay@, views(needles@), 0) == Some(i as int) && i
                < needles@.len(),
            None => first_contained(hay@, views(needles@), 0) is None,
        },
{
    let mut i: usize = 0;
    while i < needles.len()
        invariant
            i <= needles.len(),
            first_contained(hay@, views(needles@), 0) == first_contained(
                hay@,
                views(needles@),
                i as int,
            ),
        decreases needles.len() - i,
    {
        let needle = chars_of(needles[i]);
        if contains_chars(hay, &needle) {
            return Some(i);
        }
        i += 1;
    }
    None
}

/// Whether `items` holds `wanted`.
pub fn list_has(items: &Vec<String>, wanted: &str) -> (r: bool)
    ensures
        r == views(items@).contains(wanted@),
{
    let mut i: usize = 0;
    while i < items.len()
        invariant
            i <= items.len(),
            forall|j: int| 0 <= j < i ==> views(items@)[j] != wanted@,
        decreases items.len() - i,
    {
        if str_eq(items[i].as_str(), wanted) {
            assert(views(items@)[i as int] == wanted@);
            return true;
        }
        i += 1;
    }
    false
}

/// Whether `a` comes before `b` in the order of strings: character by
/// character, by code point, a proper prefix first.
pub open spec fn text_lt(a: Seq<char>, b: Seq<char>) -> bool
    decreases a.len(),
{
    if b.len() == 0 {
        false
    } else if a.len() == 0 {
        true
    } else if a[0] != b[0] {
        (a[0] as u32) < (b[0] as u32)
    } else {
        text_lt(a.drop_first(), b.drop_first())
    }
}

/// Whether `a` comes before `b` in the order of strings.
pub fn chars_less(a: &Vec<char>, b: &Vec<char>) -> (r: bool)
    ensures
        r == text_lt(a@, b@),
{
    let mut i: usize = 0;
    assert(a@.skip(0) =~= a@ && b@.skip(0) =~= b@);
    while i < a.len() && i < b.len()
        invariant
            i <= a.len(),
            i <= b.len(),
            text_lt(a@, b@) == text_lt(a@.skip(i as int), b@.skip(i as int)),
        decreases a.len() - i,
    {
        assert(a@.skip(i as int).drop_first() =~= a@.skip(i + 1));
        assert(b@.skip(i as int).drop_first() =~= b@.skip(i + 1));
        if a[i] != b[i] {
            return (a[i] as u32) < (b[i] as u32);
        }
        i += 1;
    }
    i < b.len()
}

/// Whether `a` comes before `b` in the order of strings.
pub fn str_less(a: &str, b: &str) -> (r: bool)
    ensures
        r == text_lt(a@, b@),
{
    chars_less(&chars_of(a), &chars_of(b))
}

/// The sorted list `s` with `x` put in its place, unless it is there already.
pub open spec fn insert_unique(s: Seq<Seq<char>>, x: Seq<char>) -> Seq<Seq<char>>
    decreases s.len(),
{
    if s.len() == 0 {
        seq![x]
    } else if s.last() == x {
        s
    } else if text_lt(s.last(), x) {
        s.push(x)
    } else {
        insert_unique(s.drop_last(), x).push(s.last())
    }
}

/// The first `upto` items of `items` in the order of strings, each once.
pub open spec fn sorted_unique(items: Seq<Seq<char>>, upto: int) -> Seq<Seq<char>>
    decreases upto,
{
    if upto <= 0 {
        Seq::empty()
    } else {
        insert_unique(sorted_unique(items, upto - 1), items[upto - 1])
    }
}

/// Puts `x` in its place in the sorted list `list`, unless it is there already.
pub fn insert_sorted(list: &mut Vec<String>, x: String)
    ensures
        views(final(list)@) == insert_unique(views(old(list)@), x@),
{
    let ghost s = views(list@);
    let mut j: usize = list.len();
    assert(s.take(j as int) =~= s);
    assert(s.skip(j as int) =~= Seq::<Seq<char>>::empty());
    assert(insert_unique(s, x@) + Seq::<Seq<char>>::empty() =~= insert_unique(s, x@));
    let mut placed = false;
    while j > 0 && !placed
        invariant
            j <= list.len(),
            list@ == old(list)@,
            s == views(list@),
            insert_unique(s, x@) == insert_unique(s.take(j as int), x@) + s.skip(j as int),
            placed ==> j > 0 && s[j - 1] != x@ && text_lt(s[j - 1], x@),
        decreases j, (if placed { 0int } else { 1int }),
    {
        let ghost head = s.take(j as int);
        assert(head.last() == list@[j - 1]@);
        assert(head.drop_last() =~= s.take(j - 1));
        if str_eq(list[j - 1].as_str(), x.as_str()) {
            assert(head + s.skip(j as int) =~= s);
            return ;
        }
        if str_less(list[j - 1].as_str(), x.as_str()) {
            placed = true;
        } else {
            assert(insert_unique(head.drop_last(), x@).push(head.last()) + s.skip(j as int)
                =~= insert_unique(head.drop_last(), x@) + s.skip(j - 1));
            j -= 1;
        }
    }
    proof {
        let head = s.take(j as int);
        if j > 0 {
            assert(head.last() == s[j - 1]);
            assert(insert_unique(head, x@) == head.push(x@));
        } else {
            assert(insert_unique(head, x@) =~= head.push(x@));
        }
        lemma_views_insert(list@, j as int, x);
        assert(head.push(x@) + s.skip(j as int) =~= s.insert(j as int, x@));
    }
    list.insert(j, x);
}

/// The views of `v` with `x` inserted are the views of `v` with the view of `x` inserted.
pub proof fn lemma_views_insert(v: Seq<String>, i: int, x: String)
    requires
        0 <= i <= v.len(),
    ensures
        views(v.insert(i, x)) == views(v).insert(i, x@),
{
    assert(views(v.insert(i, x)) =~= views(v).insert(i, x@));
}

/// The items of `items` in the order of strings, each once.
pub fn sort_unique(items: &Vec<String>) -> (r: Vec<String>)
    ensures
        views(r@) == sorted_unique(views(items@), items@.len() as int),
{
    let mut out: Vec<String> = Vec::new();
    let mut i: usize = 0;
    assert(views(out@) =~= Seq::<Seq<char>>::empty());
    while i < items.len()
        invariant
            i <= items.len(),
            views(out@) == sorted_unique(views(items@), i as int),
        decreases items.len() - i,
    {
        assert(views(items@)[i as int] == items@[i as int]@);
        insert_sorted(&mut out, items[i].clone());
        i += 1;
    }
    out
}

/// The first `limit` items of `items`, separated by commas.
pub open spec fn shown(items: Seq<Seq<char>>, limit: nat) -> Seq<char> {
    join(
        items.take(
            if items.len() < limit {
                items.len() as int
            } else {
                limit as int
            },
        ),
        ", "@,
    )
}

/// The words that tell how many of `n` items a list of `limit` leaves out.
pub open spec fn and_more(n: nat, limit: nat) -> Seq<char> {
    if n > limit {
        " and "@ + decimal((n - limit) as nat) + " more"@
    } else {
        Seq::empty()
    }
}

/// The first `limit` items of `items`, separated by commas, and the words
/// that tell how many were left out.
pub fn show_some(items: &Vec<String>, limit: usize) -> (r: String)
    ensures
        r@ == shown(views(items@), limit as nat) + and_more(items@.len(), limit as nat),
{
    let n: usize = if items.len() < limit {
        items.len()
    } else {
        limit
    };
    let mut out = join_prefix(items, n, ", ");
    if items.len() > limit {
        out.append(" and ");
        out.append(decimal_string((items.len() - limit) as u128).as_str());
        out.append(" more");
        assert(out@ =~= shown(views(items@), limit as nat) + and_more(
            items@.len(),
            limit as nat,
        ));
    } else {
        assert(out@ =~= out@ + Seq::<char>::empty());
    }
    out
}

/// The part of `s` before the first `c`; all of `s` where it holds no `c`.
pub open spec fn prefix_before(s: Seq<char>, c: char) -> Seq<char>
    decreases s.len(),
{
    if s.len() == 0 || s[0] == c {
        Seq::empty()
    } else {
        seq![s[0]] + prefix_before(s.drop_first(), c)
    }
}

/// The part of `s` before the first `c`.
pub fn str_prefix_before(s: &str, c: char) -> (r: String)
    ensures
        r@ == prefix_before(s@, c),
{
    let sv = chars_of(s);
    let mut i: usize = 0;
    assert(sv@.skip(0) =~= sv@);
    assert(sv@.take(0) + prefix_before(sv@, c) =~= prefix_before(sv@, c));
    while i < sv.len() && sv[i] != c
        invariant
            i <= sv.len(),
            prefix_before(sv@, c) == sv@.take(i as int) + prefix_before(sv@.skip(i as int), c),
        decreases sv.len() - i,
    {
        let ghost rest = sv@.skip(i as int);
        assert(rest.drop_first() =~= sv@.skip(i + 1));
        assert(sv@.take(i as int) + (seq![rest[0]] + prefix_before(rest.drop_first(), c))
            =~= sv@.take(i + 1) + prefix_before(rest.drop_first(), c));
        i += 1;
    }
    assert(sv@.take(i as int) + Seq::<char>::empty() =~= sv@.take(i as int));
    string_of_range(&sv, 0, i)
}

/// The lines of `ls[..upto]`, each followed by a line feed.
pub open spec fn line_fed(ls: Seq<Seq<char>>, upto: int) -> Seq<char>
    decreases upto,
{
    if upto <= 0 {
        Seq::empty()
    } else {
        line_fed(ls, upto - 1) + ls[upto - 1] + "\n"@
    }
}

/// The lines of `ls`, each followed by a line feed.
pub fn feed_lines(ls: &Vec<String>) -> (r: String)
    ensures
        r@ == line_fed(views(ls@), ls@.len() as int),
{
    let mut out = String::new();
    let mut i: usize = 0;
    while i < ls.len()
        invariant
            i <= ls.len(),
            out@ == line_fed(views(ls@), i as int),
        decreases ls.len() - i,
    {
        assert(views(ls@)[i as int] == ls@[i as int]@);
        out.append(ls[i].as_str());
        out.append("\n");
        i += 1;
    }
    out
}

/// The text that `String::from_utf8_lossy` reads from bytes: the text they
/// encode in UTF-8, with the replacement character in the place of each
/// maximal run of bytes that encodes nothing.
pub uninterp spec fn utf8_lossy(bytes: Seq<u8>) -> Seq<char>;

/// Calls `String::from_utf8_lossy`; the result is the one named by `utf8_lossy`.
#[verifier::external_body]
pub(crate) fn lossy_text(bytes: &[u8]) -> (r: String)
    ensures
        r@ == utf8_lossy(bytes@),
{
    String::from_utf8_lossy(bytes).into_owned()
}

/// The number of characters at the start of `s` that are in `set`.
pub open spec fn leading_of(s: Seq<char>, set: Seq<char>) -> nat
    decreases s.len(),
{
    if s.len() > 0 && set.contains(s[0]) {
        1 + leading_of(s.drop_first(), set)
    } else {
        0
    }
}

/// The number of characters at the end of `s` that are in `set`.
pub open spec fn trailing_of(s: Seq<char>, set: Seq<char>) -> nat
    decreases s.len(),
{
    if s.len() > 0 && set.contains(s.last()) {
        1 + trailing_of(s.drop_last(), set)
    } else {
        0
    }
}

/// `s` without the characters of `set` at its start and at its end.
pub open spec fn stripped(s: Seq<char>, set: Seq<char>) -> Seq<char> {
    let t = s.skip(leading_of(s, set) as int);
    t.take(t.len() - trailing_of(t, set))
}

/// A run of `a` characters of `set` at the start, followed by none, pins `leading_of`.
pub proof fn lemma_leading_of(s: Seq<char>, set: Seq<char>, a: int)
    requires
        0 <= a <= s.len(),
        forall|j: int| 0 <= j < a ==> set.contains(s[j]),
        a == s.len() || !set.contains(s[a]),
    ensures
        leading_of(s, set) == a,
    decreases a,
{
    if a > 0 {
        let t = s.drop_first();
        assert forall|j: int| 0 <= j < a - 1 implies set.contains(t[j]) by {
            assert(t[j] == s[j + 1]);
        }
        lemma_leading_of(t, set, a - 1);
    }
}

/// A run of `n` characters of `set` at the end, preceded by none, pins `trailing_of`.
pub proof fn lemma_trailing_of(s: Seq<char>, set: Seq<char>, n: int)
    requires
        0 <= n <= s.len(),
        forall|j: int| s.len() - n <= j < s.len() ==> set.contains(s[j]),
        n == s.len() || !set.contains(s[s.len() - n - 1]),
    ensures
        trailing_of(s, set) == n,
    decreases n,
{
    if n > 0 {
        lemma_trailing_of(s.drop_last(), set, n - 1);
    }
}

/// Whether `set` holds `c`.
pub fn set_has(set: &Vec<char>, c: char) -> (r: bool)
    ensures
        r == set@.contains(c),
{
    let mut i: usize = 0;
    while i < set.len()
        invariant
            i <= set.len(),
            forall|j: int| 0 <= j < i ==> set@[j] != c,
        decreases set.len() - i,
    {
        if set[i] == c {
            return true;
        }
        i += 1;
    }
    false
}

/// `s` without the characters of `set` at its start and at its end.
pub fn strip_chars(s: &str, set: &Vec<char>) -> (r: String)
    ensures
        r@ == stripped(s@, set@),
{
    let sv = chars_of(s);
    let mut a: usize = 0;
    while a < sv.len() && set_has(set, sv[a])
        invariant
            a <= sv.len(),
            forall|j: int| 0 <= j < a ==> set@.contains(sv@[j]),
        decreases sv.len() - a,
    {
        a += 1;
    }
    let mut b: usize = sv.len();
    while b > a && set_has(set, sv[b - 1])
        invariant
            a <= b <= sv.len(),
            forall|j: int| b <= j < sv.len() ==> set@.contains(sv@[j]),
        decreases b,
    {
        b -= 1;
    }
    proof {
        lemma_leading_of(sv@, set@, a as int);
        let t = sv@.skip(a as int);
        assert forall|j: int| t.len() - (sv.len() - b) <= j < t.len() implies set@.contains(
            t[j],
        ) by {
            assert(t[j] == sv@[j + a]);
        }
        if b > a {
            assert(t[b - a - 1] == sv@[b - 1]);
        }
        lemma_trailing_of(t, set@, sv.len() - b);
        assert(t.take(t.len() - (sv.len() - b)) =~= sv@.subrange(a as int, b as int));
    }
    string_of_range(&sv, a, b)
}

/// `s` without every copy of `p` that it starts with, one behind the other.
pub open spec fn without_prefixes(s: Seq<char>, p: Seq<char>) -> Seq<char>
    decreases s.len(),
{
    if p.len() > 0 && starts_with(s, p) {
        without_prefixes(s.skip(p.len() as int), p)
    } else {
        s
    }
}

/// `s` without every copy of `p` that it starts with.
pub fn strip_prefixes(s: &str, p: &str) -> (r: String)
    ensures
        r@ == without_prefixes(s@, p@),
{
    let sv = chars_of(s);
    let pv = chars_of(p);
    if pv.len() == 0 {
        return String::from_str(s);
    }
    let mut i: usize = 0;
    assert(sv@.skip(0) =~= sv@);
    while matches_at(&sv, &pv, i)
        invariant
            i <= sv.len(),
            pv.len() > 0,
            without_prefixes(sv@, pv@) == without_prefixes(sv@.skip(i as int), pv@),
        decreases sv.len() - i,
    {
        let ghost rest = sv@.skip(i as int);
        assert(rest.subrange(0, pv@.len() as int) =~= sv@.subrange(i as int, i + pv@.len()));
        assert(rest.skip(pv@.len() as int) =~= sv@.skip(i + pv@.len()));
        i += pv.len();
    }
    proof {
        let rest = sv@.skip(i as int);
        if rest.len() >= pv@.len() {
            assert(rest.subrange(0, pv@.len() as int) =~= sv@.subrange(i as int, i + pv@.len()));
        }
        assert(sv@.subrange(i as int, sv@.len() as int) =~= rest);
    }
    string_of_range(&sv, i, sv.len())
}

/// The least index at or after `from` where `p` occurs in `s`.
pub open spec fn first_at(s: Seq<char>, p: Seq<char>, from: int) -> Option<int>
    decreases s.len() + 1 - from,
{
    if from < 0 || from + p.len() > s.len() {
        None
    } else if occurs_at(s, p, from) {
        Some(from)
    } else {
        first_at(s, p, from + 1)
    }
}

/// `first_at` gives the least occurrence, and none where there is none.
pub proof fn lemma_first_at(s: Seq<char>, p: Seq<char>, from: int)
    requires
        0 <= from,
    ensures
        match first_at(s, p, from) {
            Some(i) => from <= i && occurs_at(s, p, i) && forall|j: int|
                from <= j < i ==> !occurs_at(s, p, j),
            None => forall|j: int| from <= j ==> !occurs_at(s, p, j),
        },
    decreases s.len() + 1 - from,
{
    if from + p.len() <= s.len() && !occurs_at(s, p, from) {
        lemma_first_at(s, p, from + 1);
    }
}

/// The least index at or after `from` where `p` occurs in `s`.
pub fn find_first(s: &Vec<char>, p: &Vec<char>, from: usize) -> (r: Option<usize>)
    ensures
        match r {
            Some(i) => first_at(s@, p@, from as int) == Some(i as int) && i + p@.len()
                <= s@.len(),
            None => first_at(s@, p@, from as int) is None,
        },
{
    proof {
        lemma_first_at(s@, p@, from as int);
    }
    find_from(s, p, from)
}

/// The second of the parts that the occurrences of `p` split `s` into: the
/// text between the first occurrence and the next, or the end. `None`
/// where `p` does not occur.
pub open spec fn second_part(s: Seq<char>, p: Seq<char>) -> Option<Seq<char>> {
    match first_at(s, p, 0) {
        Some(i) => {
            let rest = s.skip(i + p.len());
            match first_at(rest, p, 0) {
                Some(j) => Some(rest.take(j)),
                None => Some(rest),
            }
        },
        None => None,
    }
}

/// The second of the parts that the occurrences of `p` split `s` into.
pub fn str_second_part(s: &str, p: &str) -> (r: Option<String>)
    ensures
        crate::seqs::option_view(r) == second_part(s@, p@),
{
    let sv = chars_of(s);
    let pv = chars_of(p);
    match find_first(&sv, &pv, 0) {
        Some(i) => {
            let end: usize = sv.len();
            let rest_text = string_of_range(&sv, i + pv.len(), end);
            let rest = chars_of(rest_text.as_str());
            assert(rest@ =~= sv@.skip(i + pv@.len()));
            match find_first(&rest, &pv, 0) {
                Some(j) => {
                    assert(rest@.subrange(0, j as int) =~= rest@.take(j as int));
                    Some(string_of_range(&rest, 0, j))
                },
                None => Some(rest_text),
            }
        },
        None => None,
    }
}

/// The number of times that `c` occurs in `s`.
pub open spec fn count_of(s: Seq<char>, c: char) -> nat
    decreases s.len(),
{
    if s.len() == 0 {
        0
    } else if s.last() == c {
        count_of(s.drop_last(), c) + 1
    } else {
        count_of(s.drop_last(), c)
    }
}

/// The number of times that `c` occurs in `s`.
pub fn count_char(s: &str, c: char) -> (r: usize)
    ensures
        r == count_of(s@, c),
{
    let sv = chars_of(s);
    let mut n: usize = 0;
    let mut i: usize = 0;
    assert(sv@.take(0) =~= Seq::<char>::empty());
    while i < sv.len()
        invariant
            i <= sv.len(),
            n <= i,
            n == count_of(sv@.take(i as int), c),
        decreases sv.len() - i,
    {
        assert(sv@.take(i + 1).drop_last() =~= sv@.take(i as int));
        if sv[i] == c {
            n += 1;
        }
        i += 1;
    }
    assert(sv@.take(sv@.len() as int) =~= sv@);
    n
}

/// The number that `s` denotes as an `i32`: decimal digits behind an
/// optional sign, of a value that fits.
pub open spec fn parsed_i32(s: Seq<char>) -> Option<i32> {
    if s.len() > 0 && s[0] == '-' {
        match digits_value(s.drop_first()) {
            Some(v) => if v <= 0x8000_0000 {
                Some((0 - v) as i32)
            } else {
                None
            },
            None => None,
        }
    } else {
        match parsed_u32(s) {
            Some(v) => if v <= 0x7fff_ffff {
                Some(v as i32)
            } else {
                None
            },
            None => None,
        }
    }
}

/// The number that a run of digits denotes, where it is at most `limit`.
pub(crate) fn parse_digits(sv: &Vec<char>, start: usize, limit: u64) -> (r: Option<u64>)
    requires
        start <= sv.len(),
        limit <= 0xffff_ffff,
    ensures
        match r {
            Some(v) => digits_value(sv@.skip(start as int)) == Some(v as nat) && v <= limit,
            None => match digits_value(sv@.skip(start as int)) {
                Some(v) => v > limit,
                None => true,
            },
        },
{
    let ghost digits = sv@.skip(start as int);
    if start == sv.len() {
        return None;
    }
    let mut acc: u64 = 0;
    let mut i: usize = start;
    while i < sv.len()
        invariant
            start <= i <= sv.len(),
            start < sv.len(),
            limit <= 0xffff_ffff,
            digits == sv@.skip(start as int),
            acc <= limit,
            i > start ==> digits_value(digits.take(i - start)) == Some(acc as nat),
            i == start ==> acc == 0,
        decreases sv.len() - i,
    {
        let c = sv[i];
        let ghost next = digits.take(i + 1 - start);
        assert(next.drop_last() =~= digits.take(i - start));
        assert(next.last() == c);
        if !('0' <= c && c <= '9') {
            proof {
                lemma_digits_value_needs_digits(digits, i - start);
            }
            return None;
        }
        let d: u64 = (c as u32 - 48) as u64;
        let value: u64 = acc * 10 + d;
        if value > limit {
            proof {
                if digits_value(digits) is Some {
                    lemma_digits_value_grows(digits, i + 1 - start);
                }
            }
            return None;
        }
        acc = value;
        i += 1;
    }
    assert(digits.take(digits.len() as int) =~= digits);
    Some(acc)
}

/// Reads `s` as an `i32`.
pub fn parse_i32(s: &str) -> (r: Option<i32>)
    ensures
        r == parsed_i32(s@),
{
    let sv = chars_of(s);
    if sv.len() > 0 && sv[0] == '-' {
        assert(sv@.skip(1) =~= sv@.drop_first());
        match parse_digits(&sv, 1, 0x8000_0000) {
            Some(v) => Some((0 - (v as i64)) as i32),
            None => None,
        }
    } else {
        let start: usize = if sv.len() > 0 && sv[0] == '+' {
            1
        } else {
            0
        };
        assert(start == 1 ==> sv@.skip(1) =~= sv@.drop_first());
        assert(start == 0 ==> sv@.skip(0) =~= sv@);
        match parse_digits(&sv, start, 0x7fff_ffff) {
            Some(v) => Some(v as i32),
            None => None,
        }
    }
}

/// Each item comes before every later one in the order of strings; so no
/// item occurs twice.
pub open spec fn strictly_sorted(s: Seq<Seq<char>>) -> bool {
    forall|i: int, j: int| 0 <= i < j < s.len() ==> text_lt(s[i], s[j])
}

/// No text comes before itself.
pub proof fn lemma_text_lt_irreflexive(a: Seq<char>)
    ensures
        !text_lt(a, a),
    decreases a.len(),
{
    if a.len() > 0 {
        lemma_text_lt_irreflexive(a.drop_first());
    }
}

/// The order of strings is transitive.
pub proof fn lemma_text_lt_transitive(a: Seq<char>, b: Seq<char>, c: Seq<char>)
    requires
        text_lt(a, b),
        text_lt(b, c),
    ensures
        text_lt(a, c),
    decreases a.len(),
{
    if a.len() > 0 && a[0] == b[0] && b[0] == c[0] {
        lemma_text_lt_transitive(a.drop_first(), b.drop_first(), c.drop_first());
    }
}

/// Of two different texts one comes before the other.
pub proof fn lemma_text_lt_connected(a: Seq<char>, b: Seq<char>)
    requires
        a != b,
    ensures
        text_lt(a, b) || text_lt(b, a),
    decreases a.len(),
{
    if a.len() == 0 || b.len() == 0 {
        if a.len() == 0 && b.len() == 0 {
            assert(a =~= b);
        }
    } else if a[0] == b[0] {
        if a.drop_first() == b.drop_first() {
            assert(a =~= seq![a[0]] + a.drop_first());
            assert(b =~= seq![b[0]] + b.drop_first());
        }
        lemma_text_lt_connected(a.drop_first(), b.drop_first());
    } else {
        vstd::utf8::char_u32_cast(a[0], a[0] as u32);
        vstd::utf8::char_u32_cast(b[0], b[0] as u32);
    }
}

/// Putting a text in its place keeps a sorted list sorted, and adds that
/// text and no other.
pub proof fn lemma_insert_unique(s: Seq<Seq<char>>, x: Seq<char>)
    requires
        strictly_sorted(s),
    ensures
        strictly_sorted(insert_unique(s, x)),
        forall|y: Seq<char>| insert_unique(s, x).contains(y) <==> (s.contains(y) || y == x),
    decreases s.len(),
{
    let r = insert_unique(s, x);
    if s.len() == 0 {
        assert(r[0] == x);
        assert forall|y: Seq<char>| r.contains(y) <==> (s.contains(y) || y == x) by {
            if y == x {
                assert(r[0] == y);
            }
        }
    } else if s.last() == x {
        assert(s[s.len() - 1] == x);
    } else if text_lt(s.last(), x) {
        assert forall|i: int, j: int| 0 <= i < j < r.len() implies text_lt(r[i], r[j]) by {
            if j == s.len() && i < s.len() - 1 {
                lemma_text_lt_transitive(s[i], s.last(), x);
            }
        }
        assert forall|y: Seq<char>| r.contains(y) <==> (s.contains(y) || y == x) by {
            if r.contains(y) {
                let k = choose|k: int| 0 <= k < r.len() && r[k] == y;
                if k < s.len() {
                    assert(s[k] == y);
                }
            }
            if s.contains(y) {
                let k = choose|k: int| 0 <= k < s.len() && s[k] == y;
                assert(r[k] == y);
            }
            if y == x {
                assert(r[s.len() as int] == y);
            }
        }
    } else {
        let head = s.drop_last();
        let t = insert_unique(head, x);
        assert forall|i: int, j: int| 0 <= i < j < head.len() implies text_lt(
            head[i],
            head[j],
        ) by {
            assert(text_lt(s[i], s[j]));
        }
        lemma_insert_unique(head, x);
        lemma_text_lt_connected(s.last(), x);
        assert forall|i: int, j: int| 0 <= i < j < r.len() implies text_lt(r[i], r[j]) by {
            if j == t.len() {
                let y = t[i];
                assert(t.contains(y));
                assert(head.contains(y) || y == x);
                if y != x {
                    let k = choose|k: int| 0 <= k < head.len() && head[k] == y;
                    assert(s[k] == y);
                    assert(text_lt(s[k], s[s.len() - 1]));
                }
            } else {
                assert(text_lt(t[i], t[j]));
            }
        }
        assert forall|y: Seq<char>| r.contains(y) <==> (s.contains(y) || y == x) by {
            if r.contains(y) {
                let k = choose|k: int| 0 <= k < r.len() && r[k] == y;
                if k < t.len() {
                    assert(t[k] == y);
                    assert(t.contains(y));
                    assert(head.contains(y) || y == x);
                    if y != x {
                        let m = choose|m: int| 0 <= m < head.len() && head[m] == y;
                        assert(s[m] == y);
                    }
                } else {
                    assert(s[s.len() - 1] == y);
                }
            }
            if s.contains(y) {
                let k = choose|k: int| 0 <= k < s.len() && s[k] == y;
                if k < head.len() {
                    assert(head[k] == y);
                    assert(head.contains(y));
                    assert(t.contains(y));
                    let m = choose|m: int| 0 <= m < t.len() && t[m] == y;
                    assert(r[m] == y);
                } else {
                    assert(r[t.len() as int] == y);
                }
            }
            if y == x {
                assert(t.contains(x));
                let m = choose|m: int| 0 <= m < t.len() && t[m] == x;
                assert(r[m] == y);
            }
        }
    }
}

/// In a list in which each item comes before every later one, no item
/// occurs twice.
pub proof fn law_strictly_sorted_has_no_duplicates(s: Seq<Seq<char>>)
    requires
        strictly_sorted(s),
    ensures
        forall|i: int, j: int| 0 <= i < j < s.len() ==> s[i] != s[j],
{
    assert forall|i: int, j: int| 0 <= i < j < s.len() implies s[i] != s[j] by {
        lemma_text_lt_irreflexive(s[i]);
    }
}

/// Sorting gives a list in which each item comes before every later one,
/// and which holds exactly the items that were given.
pub proof fn law_sorted_unique_is_sorted(items: Seq<Seq<char>>, n: int)
    requires
        0 <= n <= items.len(),
    ensures
        strictly_sorted(sorted_unique(items, n)),
        forall|y: Seq<char>|
            sorted_unique(items, n).contains(y) <==> (exists|i: int|
                0 <= i < n && items[i] == y),
    decreases n,
{
    if n > 0 {
        law_sorted_unique_is_sorted(items, n - 1);
        let before = sorted_unique(items, n - 1);
        lemma_insert_unique(before, items[n - 1]);
        assert forall|y: Seq<char>|
            sorted_unique(items, n).contains(y) <==> (exists|i: int|
                0 <= i < n && items[i] == y) by {
            if before.contains(y) {
                let i = choose|i: int| 0 <= i < n - 1 && items[i] == y;
                assert(0 <= i < n && items[i] == y);
            }
            if exists|i: int| 0 <= i < n && items[i] == y {
                let i = choose|i: int| 0 <= i < n && items[i] == y;
                if i < n - 1 {
                    assert(0 <= i < n - 1 && items[i] == y);
                }
            }
        }
    }
}

} // verus!
