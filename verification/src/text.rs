//! Character-level text primitives shared by the rest of the library.
//!
//! Strings are modelled by their view, a `Seq<char>`. Executable functions take
//! `&str` and return `String`; the algorithms in between work on `Vec<char>`.

use vstd::prelude::*;
use vstd::std_specs::iter::IteratorSpec;
use vstd::string::StringExecFns;

verus! {

/// `String::push`: appends one character to the end of the string.
#[verifier::external_body]
pub(crate) fn push_char(s: &mut String, c: char)
    ensures
        final(s)@ == old(s)@.push(c),
{
    s.push(c)
}

/// The characters of `s`, in order.
pub fn to_chars(s: &str) -> (out: Vec<char>)
    ensures
        out@ == s@,
{
    let mut out: Vec<char> = Vec::new();
    for c in it: s.chars()
        invariant
            it.seq() == s@,
            out@ == s@.take(it.index() as int),
    {
        out.push(c);
    }
    out
}

/// The string made of the characters `chars[from..to]`.
pub(crate) fn from_chars(chars: &Vec<char>, from: usize, to: usize) -> (out: String)
    requires
        from <= to <= chars.len(),
    ensures
        out@ == chars@.subrange(from as int, to as int),
{
    let mut out = String::new();
    let mut i: usize = from;
    while i < to
        invariant
            from <= i <= to <= chars.len(),
            out@ == chars@.subrange(from as int, i as int),
        decreases to - i,
    {
        push_char(&mut out, chars[i]);
        i += 1;
    }
    out
}

/// Whether `c` has the Unicode `White_Space` property.
pub open spec fn is_whitespace_char(c: char) -> bool {
    let n: u32 = c as u32;
    ||| 0x09 <= n <= 0x0D
    ||| n == 0x20
    ||| n == 0x85
    ||| n == 0xA0
    ||| n == 0x1680
    ||| 0x2000 <= n <= 0x200A
    ||| n == 0x2028
    ||| n == 0x2029
    ||| n == 0x202F
    ||| n == 0x205F
    ||| n == 0x3000
}

/// Whether `c` is a control character (general category `Cc`).
pub open spec fn is_control_char(c: char) -> bool {
    let n: u32 = c as u32;
    n <= 0x1F || 0x7F <= n <= 0x9F
}

/// Whether `c` is whitespace.
pub fn is_whitespace(c: char) -> (r: bool)
    ensures
        r == is_whitespace_char(c),
{
    let n: u32 = c as u32;
    (0x09 <= n && n <= 0x0D) || n == 0x20 || n == 0x85 || n == 0xA0 || n == 0x1680 || (0x2000 <= n
        && n <= 0x200A) || n == 0x2028 || n == 0x2029 || n == 0x202F || n == 0x205F || n == 0x3000
}

/// Whether `c` is a control character.
pub fn is_control(c: char) -> (r: bool)
    ensures
        r == is_control_char(c),
{
    let n: u32 = c as u32;
    n <= 0x1F || (0x7F <= n && n <= 0x9F)
}

/// `s` without its leading whitespace.
pub open spec fn trimmed_start(s: Seq<char>) -> Seq<char>
    decreases s.len(),
{
    if s.len() > 0 && is_whitespace_char(s.first()) {
        trimmed_start(s.drop_first())
    } else {
        s
    }
}

/// `s` without its trailing whitespace.
pub open spec fn trimmed_end(s: Seq<char>) -> Seq<char>
    decreases s.len(),
{
    if s.len() > 0 && is_whitespace_char(s.last()) {
        trimmed_end(s.drop_last())
    } else {
        s
    }
}

/// `s` without leading and trailing whitespace.
pub open spec fn trimmed(s: Seq<char>) -> Seq<char> {
    trimmed_end(trimmed_start(s))
}

/// The bounds of the trimmed part of `chars`: `chars[start..end]` is `trimmed(chars)`.
pub fn trim_bounds(chars: &Vec<char>) -> (bounds: (usize, usize))
    ensures
        bounds.0 <= bounds.1 <= chars.len(),
        chars@.subrange(bounds.0 as int, bounds.1 as int) == trimmed(chars@),
{
    let n: usize = chars.len();
    let mut start: usize = 0;
    assert(chars@.subrange(0, n as int) == chars@);
    while start < n && is_whitespace(chars[start])
        invariant
            start <= n == chars.len(),
            trimmed_start(chars@) == trimmed_start(chars@.subrange(start as int, n as int)),
        decreases n - start,
    {
        assert(chars@.subrange(start as int, n as int).drop_first() == chars@.subrange(
            start + 1,
            n as int,
        ));
        start += 1;
    }
    let ghost rest = chars@.subrange(start as int, n as int);
    assert(trimmed_start(chars@) == rest);
    let mut end: usize = n;
    while end > start && is_whitespace(chars[end - 1])
        invariant
            start <= end <= n == chars.len(),
            rest == chars@.subrange(start as int, n as int),
            trimmed_end(rest) == trimmed_end(chars@.subrange(start as int, end as int)),
        decreases end - start,
    {
        assert(chars@.subrange(start as int, end as int).drop_last() == chars@.subrange(
            start as int,
            end - 1,
        ));
        end -= 1;
    }
    (start, end)
}

/// `pat` occurs in `s` at index `at`.
pub open spec fn occurs_at(s: Seq<char>, pat: Seq<char>, at: int) -> bool {
    0 <= at && at + pat.len() <= s.len() && s.subrange(at, at + pat.len()) == pat
}

/// `pat` occurs somewhere in `s`.
pub open spec fn contains_text(s: Seq<char>, pat: Seq<char>) -> bool {
    exists|at: int| occurs_at(s, pat, at)
}

/// `s` begins with `pat`.
pub open spec fn has_prefix(s: Seq<char>, pat: Seq<char>) -> bool {
    occurs_at(s, pat, 0)
}

/// `s` ends with `pat`.
pub open spec fn has_suffix(s: Seq<char>, pat: Seq<char>) -> bool {
    occurs_at(s, pat, s.len() - pat.len())
}

/// Whether `pat` occurs in `chars` at index `at`.
pub fn matches_at(chars: &Vec<char>, at: usize, pat: &Vec<char>) -> (r: bool)
    ensures
        r == occurs_at(chars@, pat@, at as int),
{
    let m: usize = pat.len();
    if at > chars.len() || m > chars.len() - at {
        return false;
    }
    let mut k: usize = 0;
    while k < m
        invariant
            k <= m == pat.len(),
            at + m <= chars.len(),
            chars@.subrange(at as int, at + k) == pat@.subrange(0, k as int),
        decreases m - k,
    {
        if chars[at + k] != pat[k] {
            assert(chars@.subrange(at as int, at + m)[k as int] != pat@[k as int]);
            return false;
        }
        assert(chars@.subrange(at as int, at + k + 1) == chars@.subrange(at as int, at + k).push(
            chars@[at + k],
        ));
        assert(pat@.subrange(0, k + 1) == pat@.subrange(0, k as int).push(pat@[k as int]));
        k += 1;
    }
    assert(pat@.subrange(0, m as int) == pat@);
    true
}

/// Whether `chars` holds exactly the text `lit`.
pub fn equals_str(chars: &Vec<char>, lit: &str) -> (r: bool)
    ensures
        r == (chars@ == lit@),
{
    let pat: Vec<char> = to_chars(lit);
    if pat.len() != chars.len() {
        return false;
    }
    let r: bool = matches_at(chars, 0, &pat);
    assert(chars@.subrange(0, chars.len() as int) == chars@);
    r
}

/// Whether two strings hold the same text.
pub fn same_text(a: &str, b: &str) -> (r: bool)
    ensures
        r == (a@ == b@),
{
    let chars: Vec<char> = to_chars(a);
    equals_str(&chars, b)
}

/// Whether `pat` occurs somewhere in `chars`.
pub fn contains(chars: &Vec<char>, pat: &Vec<char>) -> (r: bool)
    ensures
        r == contains_text(chars@, pat@),
{
    let n: usize = chars.len();
    let m: usize = pat.len();
    if m > n {
        assert forall|at: int| !occurs_at(chars@, pat@, at) by {}
        return false;
    }
    let limit: usize = n - m;
    let mut at: usize = 0;
    loop
        invariant
            m <= n == chars.len(),
            m == pat.len(),
            limit == n - m,
            at <= limit,
            forall|j: int| 0 <= j < at ==> !occurs_at(chars@, pat@, j),
        ensures
            forall|j: int| 0 <= j <= limit ==> !occurs_at(chars@, pat@, j),
        decreases limit - at,
    {
        if matches_at(chars, at, pat) {
            return true;
        }
        if at == limit {
            break;
        }
        at += 1;
    }
    assert forall|j: int| !occurs_at(chars@, pat@, j) by {}
    false
}

/// Whether the text `pat` occurs somewhere in `s`.
pub fn str_contains(s: &str, pat: &str) -> (r: bool)
    ensures
        r == contains_text(s@, pat@),
{
    let chars: Vec<char> = to_chars(s);
    let p: Vec<char> = to_chars(pat);
    contains(&chars, &p)
}

/// `s` with every occurrence of `pat` replaced by `with`, scanning from the
/// left; occurrences do not overlap. An empty `pat` leaves `s` unchanged.
pub open spec fn replaced(s: Seq<char>, pat: Seq<char>, with: Seq<char>) -> Seq<char>
    decreases s.len(),
{
    if pat.len() == 0 || s.len() < pat.len() {
        s
    } else if has_prefix(s, pat) {
        with + replaced(s.skip(pat.len() as int), pat, with)
    } else {
        seq![s.first()] + replaced(s.drop_first(), pat, with)
    }
}

/// Replaces every occurrence of `pat` in `chars` by `with`.
pub fn replace(chars: &Vec<char>, pat: &Vec<char>, with: &Vec<char>) -> (out: Vec<char>)
    ensures
        out@ == replaced(chars@, pat@, with@),
{
    let n: usize = chars.len();
    let m: usize = pat.len();
    if m == 0 {
        assert(chars@.subrange(0, n as int) == chars@);
        return slice(chars, 0, n);
    }
    let mut out: Vec<char> = Vec::new();
    let mut i: usize = 0;
    assert(chars@.skip(0) == chars@);
    while i < n
        invariant
            i <= n == chars.len(),
            0 < m == pat.len(),
            out@ + replaced(chars@.skip(i as int), pat@, with@) == replaced(chars@, pat@, with@),
        decreases n - i,
    {
        let ghost rest = chars@.skip(i as int);
        let ghost before = out@;
        proof {
            if i + m <= n {
                assert(rest.subrange(0, m as int) == chars@.subrange(i as int, i + m));
            }
        }
        if matches_at(chars, i, pat) {
            let mut k: usize = 0;
            while k < with.len()
                invariant
                    k <= with.len(),
                    out@ == before + with@.subrange(0, k as int),
                decreases with.len() - k,
            {
                out.push(with[k]);
                assert(with@.subrange(0, k + 1) == with@.subrange(0, k as int).push(with@[k as int]));
                k += 1;
            }
            assert(with@.subrange(0, with.len() as int) == with@);
            assert(rest.skip(m as int) == chars@.skip(i + m));
            assert(before + (with@ + replaced(rest.skip(m as int), pat@, with@)) == (before
                + with@) + replaced(rest.skip(m as int), pat@, with@));
            i += m;
        } else {
            out.push(chars[i]);
            assert(rest.drop_first() == chars@.skip(i + 1));
            proof {
                if rest.len() < m {
                    assert(replaced(rest, pat@, with@) == rest);
                    assert(replaced(rest.drop_first(), pat@, with@) == rest.drop_first());
                    assert(rest == seq![rest.first()] + rest.drop_first());
                }
            }
            assert(before + (seq![rest.first()] + replaced(rest.drop_first(), pat@, with@)) == (
            before + seq![rest.first()]) + replaced(rest.drop_first(), pat@, with@));
            assert(before + seq![rest.first()] == before.push(chars@[i as int]));
            i += 1;
        }
    }
    assert(chars@.skip(n as int) == Seq::<char>::empty());
    assert(out@ + Seq::<char>::empty() == out@);
    out
}

/// The index of the first `c` in `s`, or `s.len()` where there is none.
pub open spec fn first_index_of(s: Seq<char>, c: char) -> int
    decreases s.len(),
{
    if s.len() == 0 || s.first() == c {
        0
    } else {
        1 + first_index_of(s.drop_first(), c)
    }
}

/// `first_index_of` is an index of `s` or its length, `c` stands there, and
/// no `c` stands before it.
pub proof fn lemma_first_index_of(s: Seq<char>, c: char)
    ensures
        0 <= first_index_of(s, c) <= s.len(),
        first_index_of(s, c) < s.len() ==> s[first_index_of(s, c)] == c,
        forall|j: int| 0 <= j < first_index_of(s, c) ==> s[j] != c,
    decreases s.len(),
{
    if s.len() == 0 || s.first() == c {
    } else {
        lemma_first_index_of(s.drop_first(), c);
        assert forall|j: int| 0 <= j < first_index_of(s, c) implies s[j] != c by {
            if j > 0 {
                assert(s[j] == s.drop_first()[j - 1]);
            }
        }
    }
}

/// The index of the first `c` in `chars[from..]`, counted from `from`.
pub(crate) fn find_char(chars: &Vec<char>, from: usize, c: char) -> (at: usize)
    requires
        from <= chars.len(),
    ensures
        from <= at <= chars.len(),
        at - from == first_index_of(chars@.skip(from as int), c),
{
    let n: usize = chars.len();
    let mut at: usize = from;
    assert(chars@.skip(from as int).skip(0) == chars@.skip(from as int));
    while at < n && chars[at] != c
        invariant
            from <= at <= n == chars.len(),
            first_index_of(chars@.skip(from as int), c) == (at - from) + first_index_of(
                chars@.skip(at as int),
                c,
            ),
        decreases n - at,
    {
        assert(chars@.skip(at as int).drop_first() == chars@.skip(at + 1));
        at += 1;
    }
    at
}

/// The character of the decimal digit `d`.
pub open spec fn digit_char(d: int) -> char {
    (48 + d) as char
}

/// The decimal representation of `n`, without leading zeros.
pub open spec fn decimal(n: nat) -> Seq<char>
    decreases n,
{
    if n < 10 {
        seq![digit_char(n as int)]
    } else {
        decimal(n / 10).push(digit_char((n % 10) as int))
    }
}

/// Appends the decimal representation of `n` to `out`.
pub fn push_decimal(out: &mut String, n: u64)
    ensures
        final(out)@ == old(out)@ + decimal(n as nat),
    decreases n,
{
    if n >= 10 {
        push_decimal(out, n / 10);
    }
    let d: u8 = (n % 10) as u8;
    let c: char = (48u8 + d) as char;
    push_char(out, c);
    proof {
        if n < 10 {
            assert(old(out)@.push(c) == old(out)@ + seq![c]);
        } else {
            assert((old(out)@ + decimal((n / 10) as nat)).push(c) == old(out)@ + decimal(
                (n / 10) as nat,
            ).push(c));
        }
    }
}

/// Appends `chars[from..to]` to `out`.
pub(crate) fn push_chars(out: &mut String, chars: &Vec<char>, from: usize, to: usize)
    requires
        from <= to <= chars.len(),
    ensures
        final(out)@ == old(out)@ + chars@.subrange(from as int, to as int),
{
    let mut i: usize = from;
    assert(old(out)@ + chars@.subrange(from as int, from as int) == old(out)@);
    while i < to
        invariant
            from <= i <= to <= chars.len(),
            out@ == old(out)@ + chars@.subrange(from as int, i as int),
        decreases to - i,
    {
        push_char(out, chars[i]);
        assert(chars@.subrange(from as int, i + 1) == chars@.subrange(from as int, i as int).push(
            chars@[i as int],
        ));
        i += 1;
    }
}

/// `s` without the run of `c` at its end.
pub open spec fn without_trailing(s: Seq<char>, c: char) -> Seq<char>
    decreases s.len(),
{
    if s.len() > 0 && s.last() == c {
        without_trailing(s.drop_last(), c)
    } else {
        s
    }
}

/// `s` without the repetitions of `pat` at its end. An empty `pat` leaves `s` unchanged.
pub open spec fn without_suffixes(s: Seq<char>, pat: Seq<char>) -> Seq<char>
    decreases s.len(),
{
    if pat.len() > 0 && has_suffix(s, pat) {
        without_suffixes(s.take(s.len() - pat.len()), pat)
    } else {
        s
    }
}

/// `s` without the leading `pat`, where it begins with `pat`.
pub open spec fn without_prefix(s: Seq<char>, pat: Seq<char>) -> Option<Seq<char>> {
    if has_prefix(s, pat) {
        Some(s.skip(pat.len() as int))
    } else {
        None
    }
}

/// The characters of `s` with leading and trailing whitespace removed.
pub fn trimmed_chars(s: &str) -> (out: Vec<char>)
    ensures
        out@ == trimmed(s@),
{
    let chars: Vec<char> = to_chars(s);
    let (start, end): (usize, usize) = trim_bounds(&chars);
    slice(&chars, start, end)
}

/// A copy of `chars[from..to]`.
pub(crate) fn slice(chars: &Vec<char>, from: usize, to: usize) -> (out: Vec<char>)
    requires
        from <= to <= chars.len(),
    ensures
        out@ == chars@.subrange(from as int, to as int),
{
    let mut out: Vec<char> = Vec::new();
    let mut i: usize = from;
    while i < to
        invariant
            from <= i <= to <= chars.len(),
            out@ == chars@.subrange(from as int, i as int),
        decreases to - i,
    {
        out.push(chars[i]);
        i += 1;
    }
    out
}

/// Removes the run of `c` at the end of `chars`.
pub fn trim_end_char(chars: &mut Vec<char>, c: char)
    ensures
        final(chars)@ == without_trailing(old(chars)@, c),
{
    let mut end: usize = chars.len();
    assert(chars@.take(end as int) == chars@);
    while end > 0 && chars[end - 1] == c
        invariant
            end <= chars.len(),
            chars@ == old(chars)@,
            without_trailing(chars@, c) == without_trailing(chars@.take(end as int), c),
        decreases end,
    {
        assert(chars@.take(end as int).drop_last() == chars@.take(end - 1));
        end -= 1;
    }
    chars.truncate(end);
    assert(old(chars)@.subrange(0, end as int) == old(chars)@.take(end as int));
}

/// Removes the repetitions of `pat` at the end of `chars`.
pub fn trim_end_text(chars: &mut Vec<char>, pat: &Vec<char>)
    ensures
        final(chars)@ == without_suffixes(old(chars)@, pat@),
{
    let m: usize = pat.len();
    if m == 0 {
        return ;
    }
    let mut end: usize = chars.len();
    assert(chars@.take(end as int) == chars@);
    loop
        invariant
            end <= chars.len(),
            0 < m == pat.len(),
            chars@ == old(chars)@,
            without_suffixes(chars@, pat@) == without_suffixes(chars@.take(end as int), pat@),
        ensures
            end <= chars.len(),
            chars@ == old(chars)@,
            without_suffixes(chars@, pat@) == chars@.take(end as int),
        decreases end,
    {
        if end < m {
            break;
        }
        assert(chars@.take(end as int).subrange(end - m, end as int) == chars@.subrange(
            end - m,
            end as int,
        ));
        if !matches_at(chars, end - m, pat) {
            break;
        }
        assert(chars@.take(end as int).take(end - m) == chars@.take(end - m));
        end -= m;
    }
    chars.truncate(end);
    assert(old(chars)@.subrange(0, end as int) == old(chars)@.take(end as int));
}

/// The texts `parts`, in order, with `sep` between each two.
pub open spec fn joined(parts: Seq<Seq<char>>, sep: Seq<char>) -> Seq<char>
    decreases parts.len(),
{
    if parts.len() == 0 {
        Seq::empty()
    } else if parts.len() == 1 {
        parts[0]
    } else {
        joined(parts.drop_last(), sep) + sep + parts.last()
    }
}

/// Joins `parts` with `sep` between each two.
pub fn join(parts: &Vec<String>, sep: &str) -> (out: String)
    ensures
        out@ == joined(parts.deep_view(), sep@),
{
    let n: usize = parts.len();
    let mut out = String::new();
    let mut i: usize = 0;
    let ghost all = parts.deep_view();
    while i < n
        invariant
            i <= n == parts.len(),
            all == parts.deep_view(),
            out@ == joined(all.take(i as int), sep@),
        decreases n - i,
    {
        assert(all.take(i + 1).drop_last() == all.take(i as int));
        assert(all.take(i + 1).last() == parts[i as int]@);
        if i > 0 {
            out.append(sep);
        } else {
            assert(all.take(1)[0] == parts[0]@);
            assert(out@ + parts[0]@ == parts[0]@);
        }
        out.append(parts[i].as_str());
        i += 1;
    }
    assert(all.take(n as int) == all);
    out
}

} // verus!
