//! Conversions between strings and character sequences, and searches on them.

use vstd::prelude::*;
use vstd::std_specs::iter::IteratorSpec;

verus! {

/// Appends one character to a string.
///
/// Trusted: `String::push` of the standard library, which appends the given
/// character to the end of the string and changes nothing else.
#[verifier::external_body]
pub(crate) fn push_char(s: &mut String, c: char)
    ensures
        final(s)@ == old(s)@.push(c),
{
    s.push(c)
}

/// The characters of `s`, in order.
pub fn to_chars(s: &str) -> (v: Vec<char>)
    ensures
        v@ == s@,
{
    let mut v: Vec<char> = Vec::new();
    let mut it = s.chars();
    let ghost whole = s@;
    proof {
        vstd::string::axiom_spec_iter(s);
    }
    loop
        invariant
            it.obeys_prophetic_iter_laws(),
            v@ + it.remaining() == whole,
            whole == s@,
            it.decrease() is Some,
        decreases it.decrease()->0,
    {
        let ghost before = it;
        let n = it.next();
        proof {
            vstd::string::next_postcondition(&before, &it, n);
        }
        match n {
            Some(c) => {
                v.push(c);
                assert(v@ + it.remaining() =~= whole);
            },
            None => {
                assert(v@ =~= whole);
                return v;
            },
        }
    }
}

/// The string made of the characters of `v`, in order.
pub fn from_chars(v: &[char]) -> (s: String)
    ensures
        s@ == v@,
{
    let mut s = String::new();
    let mut i: usize = 0;
    while i < v.len()
        invariant
            i <= v.len(),
            s@ == v@.subrange(0, i as int),
        decreases v.len() - i,
    {
        push_char(&mut s, v[i]);
        i += 1;
        assert(s@ =~= v@.subrange(0, i as int));
    }
    assert(v@.subrange(0, v.len() as int) =~= v@);
    s
}

/// Whether `c` is ASCII whitespace: space, tab, line feed, form feed or
/// carriage return.
pub open spec fn is_space(c: char) -> bool {
    c == ' ' || c == '\t' || c == '\n' || c == '\x0C' || c == '\r'
}

/// Whether `c` is an ASCII letter or digit.
pub open spec fn is_alnum(c: char) -> bool {
    ('0' <= c && c <= '9') || ('A' <= c && c <= 'Z') || ('a' <= c && c <= 'z')
}

/// Executable form of [`is_space`].
pub fn is_space_char(c: char) -> (r: bool)
    ensures
        r == is_space(c),
{
    c == ' ' || c == '\t' || c == '\n' || c == '\x0C' || c == '\r'
}

/// Executable form of [`is_alnum`].
pub fn is_alnum_char(c: char) -> (r: bool)
    ensures
        r == is_alnum(c),
{
    ('0' <= c && c <= '9') || ('A' <= c && c <= 'Z') || ('a' <= c && c <= 'z')
}

/// Whether `pat` stands in `s` at index `i`.
pub open spec fn matches_at(s: Seq<char>, i: int, pat: Seq<char>) -> bool {
    0 <= i && i + pat.len() <= s.len() && s.subrange(i, i + pat.len()) == pat
}

/// Whether `pat` occurs somewhere in `s`.
pub open spec fn occurs_in(s: Seq<char>, pat: Seq<char>) -> bool {
    exists|i: int| matches_at(s, i, pat)
}

/// The first index at or after `start` where `pat` stands in `s`.
pub open spec fn first_match(s: Seq<char>, start: int, pat: Seq<char>) -> Option<int>
    decreases s.len() - start,
{
    if start < 0 || start + pat.len() > s.len() {
        None
    } else if matches_at(s, start, pat) {
        Some(start)
    } else if start >= s.len() {
        None
    } else {
        first_match(s, start + 1, pat)
    }
}

/// `first_match` returns the least matching index, or `None` where there is
/// no match at or after `start`.
pub proof fn lemma_first_match(s: Seq<char>, start: int, pat: Seq<char>)
    requires
        0 <= start,
    ensures
        match first_match(s, start, pat) {
            Some(p) => start <= p && matches_at(s, p, pat) && forall|q: int|
                start <= q < p ==> !matches_at(s, q, pat),
            None => forall|q: int| start <= q ==> !matches_at(s, q, pat),
        },
    decreases s.len() - start,
{
    if start + pat.len() > s.len() {
    } else if matches_at(s, start, pat) {
    } else if start >= s.len() {
        assert(s.subrange(start, start + pat.len()) =~= pat);
    } else {
        lemma_first_match(s, start + 1, pat);
    }
}

/// Whether `pat` stands in `s` at index `i`.
pub fn starts_with_at(s: &[char], i: usize, pat: &[char]) -> (r: bool)
    ensures
        r == matches_at(s@, i as int, pat@),
{
    if pat.len() > s.len() || i > s.len() - pat.len() {
        return false;
    }
    let mut k: usize = 0;
    while k < pat.len()
        invariant
            k <= pat.len(),
            i + pat.len() <= s.len(),
            forall|j: int| 0 <= j < k ==> s@[i + j] == pat@[j],
        decreases pat.len() - k,
    {
        if s[i + k] != pat[k] {
            proof {
                let sub = s@.subrange(i as int, i + pat.len());
                assert(sub[k as int] == s@[i + k]);
            }
            return false;
        }
        k += 1;
    }
    assert(s@.subrange(i as int, i + pat.len()) =~= pat@);
    true
}

/// The first index at or after `start` where `pat` stands in `s`.
pub fn find_from(s: &[char], start: usize, pat: &[char]) -> (r: Option<usize>)
    ensures
        match r {
            Some(p) => first_match(s@, start as int, pat@) == Some(p as int),
            None => first_match(s@, start as int, pat@) is None,
        },
{
    if pat.len() > s.len() {
        return None;
    }
    let last: usize = s.len() - pat.len();
    let mut i: usize = start;
    while i <= last
        invariant
            start <= i,
            last + pat.len() == s.len(),
            first_match(s@, start as int, pat@) == first_match(s@, i as int, pat@),
        decreases last + 1 - i,
    {
        if starts_with_at(s, i, pat) {
            return Some(i);
        }
        if i == last {
            assert(first_match(s@, i + 1, pat@) is None);
            return None;
        }
        i += 1;
    }
    None
}

/// Whether `pat` occurs somewhere in `s`.
pub fn contains_chars(s: &[char], pat: &[char]) -> (r: bool)
    ensures
        r == occurs_in(s@, pat@),
{
    let f = find_from(s, 0, pat);
    proof {
        lemma_first_match(s@, 0, pat@);
    }
    f.is_some()
}

/// Whether `pat` occurs somewhere in `s`.
pub fn str_contains(s: &str, pat: &str) -> (r: bool)
    ensures
        r == occurs_in(s@, pat@),
{
    let a = to_chars(s);
    let b = to_chars(pat);
    contains_chars(a.as_slice(), b.as_slice())
}

/// Whether two strings hold the same characters.
pub fn str_eq(a: &str, b: &str) -> (r: bool)
    ensures
        r == (a@ == b@),
{
    let x = to_chars(a);
    let y = to_chars(b);
    chars_eq(x.as_slice(), y.as_slice())
}

/// Whether two character slices hold the same characters.
pub fn chars_eq(a: &[char], b: &[char]) -> (r: bool)
    ensures
        r == (a@ == b@),
{
    if a.len() != b.len() {
        return false;
    }
    let mut i: usize = 0;
    while i < a.len()
        invariant
            i <= a.len(),
            a.len() == b.len(),
            forall|j: int| 0 <= j < i ==> a@[j] == b@[j],
        decreases a.len() - i,
    {
        if a[i] != b[i] {
            return false;
        }
        i += 1;
    }
    assert(a@ =~= b@);
    true
}

/// Appends the characters of `src` to `dst`.
pub fn append_chars(dst: &mut Vec<char>, src: &[char])
    ensures
        final(dst)@ == old(dst)@ + src@,
{
    let mut i: usize = 0;
    let ghost start = dst@;
    while i < src.len()
        invariant
            i <= src.len(),
            dst@ == start + src@.subrange(0, i as int),
        decreases src.len() - i,
    {
        dst.push(src[i]);
        i += 1;
        assert(dst@ =~= start + src@.subrange(0, i as int));
    }
    assert(src@.subrange(0, src.len() as int) =~= src@);
}

/// Appends the characters of the string `src` to `dst`.
pub fn append_str(dst: &mut Vec<char>, src: &str)
    ensures
        final(dst)@ == old(dst)@ + src@,
{
    let v = to_chars(src);
    append_chars(dst, v.as_slice());
}

/// The characters of `s` from index `from` up to, not including, `to`.
pub fn slice_chars(s: &[char], from: usize, to: usize) -> (r: Vec<char>)
    requires
        from <= to <= s.len(),
    ensures
        r@ == s@.subrange(from as int, to as int),
{
    let mut r: Vec<char> = Vec::new();
    let mut i: usize = from;
    while i < to
        invariant
            from <= i <= to,
            to <= s.len(),
            r@ == s@.subrange(from as int, i as int),
        decreases to - i,
    {
        r.push(s[i]);
        i += 1;
        assert(r@ =~= s@.subrange(from as int, i as int));
    }
    r
}

/// The concatenation of two strings.
pub fn concat_str(a: &str, b: &str) -> (r: String)
    ensures
        r@ == a@ + b@,
{
    let mut v = to_chars(a);
    append_str(&mut v, b);
    from_chars(v.as_slice())
}

/// The views of the strings of `v`, in order.
pub open spec fn strings_view(v: Seq<String>) -> Seq<Seq<char>> {
    v.map_values(|s: String| s@)
}

/// Whether `c` is white space in Unicode's sense.
pub open spec fn is_white(c: char) -> bool {
    ('\u{9}' <= c && c <= '\u{d}') || c == ' ' || c == '\u{85}' || c == '\u{a0}' || c
        == '\u{1680}' || ('\u{2000}' <= c && c <= '\u{200a}') || c == '\u{2028}' || c
        == '\u{2029}' || c == '\u{202f}' || c == '\u{205f}' || c == '\u{3000}'
}

/// Executable form of [`is_white`].
pub fn is_white_char(c: char) -> (r: bool)
    ensures
        r == is_white(c),
{
    ('\u{9}' <= c && c <= '\u{d}') || c == ' ' || c == '\u{85}' || c == '\u{a0}' || c
        == '\u{1680}' || ('\u{2000}' <= c && c <= '\u{200a}') || c == '\u{2028}' || c
        == '\u{2029}' || c == '\u{202f}' || c == '\u{205f}' || c == '\u{3000}'
}

/// What a trim removes: double quotes, or white space.
#[derive(Clone, Copy, Debug, PartialEq, Eq, Structural)]
pub enum Trim {
    /// Double quotes.
    Quotes,
    /// White space.
    White,
}

/// Whether a trim of kind `t` removes `c`.
pub open spec fn trims(t: Trim, c: char) -> bool {
    match t {
        Trim::Quotes => c == '"',
        Trim::White => is_white(c),
    }
}

/// The index of the first character at or after `i` that the trim keeps.
pub open spec fn trim_start(s: Seq<char>, t: Trim, i: int) -> int
    decreases s.len() - i,
{
    if 0 <= i < s.len() && trims(t, s[i]) {
        trim_start(s, t, i + 1)
    } else {
        i
    }
}

/// The index after the last character before `n`, and not before `from`,
/// that the trim keeps.
pub open spec fn trim_end(s: Seq<char>, t: Trim, from: int, n: int) -> int
    decreases n,
{
    if 0 <= from < n <= s.len() && trims(t, s[n - 1]) {
        trim_end(s, t, from, n - 1)
    } else {
        n
    }
}

/// `s` without the characters at its start and end that the trim removes.
pub open spec fn trimmed(s: Seq<char>, t: Trim) -> Seq<char> {
    let a = trim_start(s, t, 0);
    let b = trim_end(s, t, a, s.len() as int);
    s.subrange(a, b)
}

/// Executable form of [`trims`].
pub fn trims_char(t: Trim, c: char) -> (r: bool)
    ensures
        r == trims(t, c),
{
    match t {
        Trim::Quotes => c == '"',
        Trim::White => is_white_char(c),
    }
}

/// `s` without the characters at its start and end that the trim removes.
pub fn trim_chars(s: &[char], t: Trim) -> (r: Vec<char>)
    ensures
        r@ == trimmed(s@, t),
{
    let n = s.len();
    let mut a: usize = 0;
    while a < n && trims_char(t, s[a])
        invariant
            a <= n,
            n == s@.len(),
            trim_start(s@, t, 0) == trim_start(s@, t, a as int),
        decreases n - a,
    {
        a += 1;
    }
    let mut b: usize = n;
    while a < b && trims_char(t, s[b - 1])
        invariant
            a <= b <= n,
            n == s@.len(),
            trim_end(s@, t, a as int, n as int) == trim_end(s@, t, a as int, b as int),
        decreases b,
    {
        b -= 1;
    }
    slice_chars(s, a, b)
}

/// `s` without the characters at its start and end that the trim removes.
pub fn trim_str(s: &str, t: Trim) -> (r: String)
    ensures
        r@ == trimmed(s@, t),
{
    let v = to_chars(s);
    let r = trim_chars(v.as_slice(), t);
    from_chars(r.as_slice())
}

/// The character of the decimal digit `d`.
pub open spec fn digit(d: nat) -> char {
    if d == 0 {
        '0'
    } else if d == 1 {
        '1'
    } else if d == 2 {
        '2'
    } else if d == 3 {
        '3'
    } else if d == 4 {
        '4'
    } else if d == 5 {
        '5'
    } else if d == 6 {
        '6'
    } else if d == 7 {
        '7'
    } else if d == 8 {
        '8'
    } else {
        '9'
    }
}

/// `n` written in decimal, without leading zeros.
pub open spec fn decimal(n: nat) -> Seq<char>
    decreases n,
{
    if n < 10 {
        seq![digit(n)]
    } else {
        decimal(n / 10).push(digit(n % 10))
    }
}

fn digit_char(d: u64) -> (c: char)
    requires
        d < 10,
    ensures
        c == digit(d as nat),
{
    if d == 0 {
        '0'
    } else if d == 1 {
        '1'
    } else if d == 2 {
        '2'
    } else if d == 3 {
        '3'
    } else if d == 4 {
        '4'
    } else if d == 5 {
        '5'
    } else if d == 6 {
        '6'
    } else if d == 7 {
        '7'
    } else if d == 8 {
        '8'
    } else {
        '9'
    }
}

/// Appends `n`, written in decimal, to `out`.
pub fn push_decimal(out: &mut Vec<char>, n: u64)
    ensures
        final(out)@ == old(out)@ + decimal(n as nat),
    decreases n,
{
    if n < 10 {
        out.push(digit_char(n));
        assert(out@ =~= old(out)@ + decimal(n as nat));
    } else {
        push_decimal(out, n / 10);
        out.push(digit_char(n % 10));
        assert(out@ =~= old(out)@ + decimal(n as nat));
    }
}

/// `n` written in decimal.
pub fn decimal_string(n: u64) -> (r: String)
    ensures
        r@ == decimal(n as nat),
{
    let mut v: Vec<char> = Vec::new();
    push_decimal(&mut v, n);
    assert(Seq::<char>::empty() + decimal(n as nat) =~= decimal(n as nat));
    from_chars(v.as_slice())
}

/// `s` from index `i` on with every occurrence of `pat` replaced by `with`,
/// the occurrences taken from left to right.
pub open spec fn replaced(s: Seq<char>, pat: Seq<char>, with: Seq<char>, i: int) -> Seq<char>
    decreases s.len() - i,
{
    if i < 0 || i >= s.len() || pat.len() == 0 {
        Seq::<char>::empty()
    } else if matches_at(s, i, pat) {
        with + replaced(s, pat, with, i + pat.len())
    } else {
        seq![s[i]] + replaced(s, pat, with, i + 1)
    }
}

/// `s` with every occurrence of `pat` replaced by `with`.
pub fn replace_all(s: &str, pat: &str, with: &str) -> (r: String)
    requires
        pat@.len() > 0,
    ensures
        r@ == replaced(s@, pat@, with@, 0),
{
    let text = to_chars(s);
    let p = to_chars(pat);
    let w = to_chars(with);
    let n = text.len();
    let mut out: Vec<char> = Vec::new();
    let mut i: usize = 0;
    assert(out@ + replaced(s@, pat@, with@, 0) =~= replaced(s@, pat@, with@, 0));
    while i < n
        invariant
            i <= n,
            n == text@.len(),
            text@ == s@,
            p@ == pat@,
            w@ == with@,
            pat@.len() > 0,
            out@ + replaced(s@, pat@, with@, i as int) == replaced(s@, pat@, with@, 0),
        decreases n - i,
    {
        let ghost out0 = out@;
        if starts_with_at(text.as_slice(), i, p.as_slice()) {
            append_chars(&mut out, w.as_slice());
            assert(out@ + replaced(s@, pat@, with@, i + pat@.len()) =~= out0 + (with@ + replaced(
                s@,
                pat@,
                with@,
                i + pat@.len(),
            )));
            i += p.len();
        } else {
            out.push(text[i]);
            assert(out@ + replaced(s@, pat@, with@, i + 1) =~= out0 + (seq![s@[i as int]]
                + replaced(s@, pat@, with@, i + 1)));
            i += 1;
        }
    }
    assert(out@ + Seq::<char>::empty() =~= out@);
    from_chars(out.as_slice())
}

} // verus!
