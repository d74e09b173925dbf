//! Removing a declared class block from free-form settings text.
//!
//! A block starts at its declaration, runs through the braces that follow
//! it, and ends after the semicolon and the line break that close it. Braces
//! inside double-quoted strings do not count, and inside a string a
//! backslash makes the next character literal.

use crate::error::Arma3Error;
use crate::text::{
    find_from, first_match, from_chars, is_alnum, is_alnum_char, matches_at, starts_with_at,
    to_chars,
};
use vstd::prelude::*;

verus! {

/// What the scan for a block's extent found.
pub enum Bounds {
    /// The block runs from the first index up to, not including, the second.
    Found(int, int),
    /// The declaration does not stand at the given index.
    Mismatch,
    /// No opening brace follows the declaration.
    NoOpening,
    /// The braces are not balanced before the text ends.
    Unclosed,
}

/// The index after the brace that closes the block, scanning from `i` with
/// `depth` braces open; `None` where the text ends first.
pub open spec fn block_end(s: Seq<char>, i: int, depth: int, in_str: bool, escape: bool) -> Option<
    int,
>
    decreases s.len() - i,
{
    if depth <= 0 {
        Some(i)
    } else if i < 0 || i >= s.len() {
        None
    } else if escape {
        block_end(s, i + 1, depth, in_str, false)
    } else if in_str && s[i] == '\\' {
        block_end(s, i + 1, depth, in_str, true)
    } else if s[i] == '"' {
        block_end(s, i + 1, depth, !in_str, false)
    } else if !in_str && s[i] == '{' {
        block_end(s, i + 1, depth + 1, in_str, false)
    } else if !in_str && s[i] == '}' {
        block_end(s, i + 1, depth - 1, in_str, false)
    } else {
        block_end(s, i + 1, depth, in_str, false)
    }
}

/// The end of what trails a block: through the next semicolon and until a
/// line break has been seen too, but not into a letter or digit that
/// follows the semicolon.
pub open spec fn trailer_end(s: Seq<char>, i: int, semicolon: bool, newline: bool) -> int
    decreases s.len() - i,
{
    if i < 0 || i >= s.len() {
        i
    } else if semicolon && is_alnum(s[i]) {
        i
    } else {
        let semi = semicolon || s[i] == ';';
        let nl = newline || s[i] == '\n';
        if semi && nl {
            i + 1
        } else {
            trailer_end(s, i + 1, semi, nl)
        }
    }
}

/// The extent of the block whose declaration `decl` stands at `start`.
pub open spec fn boundaries(s: Seq<char>, decl: Seq<char>, start: int) -> Bounds {
    if !matches_at(s, start, decl) {
        Bounds::Mismatch
    } else {
        match first_match(s, start, seq!['{']) {
            None => Bounds::NoOpening,
            Some(open) => match block_end(s, open + 1, 1, false, false) {
                None => Bounds::Unclosed,
                Some(close) => Bounds::Found(start, trailer_end(s, close, false, false)),
            },
        }
    }
}

/// The indices at which `pat` occurs from `start` on, taken from left to
/// right, each search starting after the occurrence before it.
pub open spec fn occurrences(s: Seq<char>, start: int, pat: Seq<char>) -> Seq<int>
    decreases s.len() - start,
{
    if pat.len() == 0 {
        Seq::<int>::empty()
    } else {
        match first_match(s, start, pat) {
            None => Seq::<int>::empty(),
            Some(p) => if start <= p && p + pat.len() <= s.len() {
                seq![p] + occurrences(s, p + pat.len(), pat)
            } else {
                Seq::<int>::empty()
            },
        }
    }
}

/// `s` without the characters from `a` up to, not including, `b`.
pub open spec fn without_range(s: Seq<char>, a: int, b: int) -> Seq<char> {
    s.subrange(0, a) + s.subrange(b, s.len() as int)
}

/// What is left of `s` when the blocks declared at `positions` are removed,
/// the last first; or the fault of the first block that is malformed.
pub open spec fn strip_at(s: Seq<char>, decl: Seq<char>, positions: Seq<int>) -> Result<
    Seq<char>,
    Bounds,
>
    decreases positions.len(),
{
    if positions.len() == 0 {
        Ok(s)
    } else {
        match boundaries(s, decl, positions.last()) {
            Bounds::Found(a, b) => strip_at(without_range(s, a, b), decl, positions.drop_last()),
            fault => Err(fault),
        }
    }
}

/// What is left of `s` when every block declared by `decl` is removed.
pub open spec fn strip_text(s: Seq<char>, decl: Seq<char>) -> Result<Seq<char>, Bounds> {
    strip_at(s, decl, occurrences(s, 0, decl))
}

/// The message that goes with a fault.
pub open spec fn fault_message(b: Bounds) -> Seq<char> {
    match b {
        Bounds::Mismatch => "class boundary mismatch"@,
        Bounds::NoOpening => "cannot find opening '{'"@,
        _ => "unclosed '{' in cfg"@,
    }
}

/// The closing brace is found after the scan's start, inside the text.
pub proof fn lemma_block_end_bounds(s: Seq<char>, i: int, depth: int, in_str: bool, escape: bool)
    requires
        0 <= i <= s.len(),
    ensures
        block_end(s, i, depth, in_str, escape) matches Some(e) ==> i <= e <= s.len(),
    decreases s.len() - i,
{
    if depth <= 0 {
    } else if i >= s.len() {
    } else if escape {
        lemma_block_end_bounds(s, i + 1, depth, in_str, false);
    } else if in_str && s[i] == '\\' {
        lemma_block_end_bounds(s, i + 1, depth, in_str, true);
    } else if s[i] == '"' {
        lemma_block_end_bounds(s, i + 1, depth, !in_str, false);
    } else if !in_str && s[i] == '{' {
        lemma_block_end_bounds(s, i + 1, depth + 1, in_str, false);
    } else if !in_str && s[i] == '}' {
        lemma_block_end_bounds(s, i + 1, depth - 1, in_str, false);
    } else {
        lemma_block_end_bounds(s, i + 1, depth, in_str, false);
    }
}

/// The trailer ends after its start, inside the text.
pub proof fn lemma_trailer_end_bounds(s: Seq<char>, i: int, semicolon: bool, newline: bool)
    requires
        0 <= i <= s.len(),
    ensures
        i <= trailer_end(s, i, semicolon, newline) <= s.len(),
    decreases s.len() - i,
{
    if i < s.len() && !(semicolon && is_alnum(s[i])) {
        let semi = semicolon || s[i] == ';';
        let nl = newline || s[i] == '\n';
        if !(semi && nl) {
            lemma_trailer_end_bounds(s, i + 1, semi, nl);
        }
    }
}

/// A block that is found lies inside the text and starts at its
/// declaration.
pub proof fn lemma_boundaries_bounds(s: Seq<char>, decl: Seq<char>, start: int)
    ensures
        boundaries(s, decl, start) matches Bounds::Found(a, b) ==> a == start && 0 <= a <= b
            <= s.len(),
{
    if matches_at(s, start, decl) {
        crate::text::lemma_first_match(s, start, seq!['{']);
        match first_match(s, start, seq!['{']) {
            None => {},
            Some(open) => {
                lemma_block_end_bounds(s, open + 1, 1, false, false);
                match block_end(s, open + 1, 1, false, false) {
                    None => {},
                    Some(close) => {
                        lemma_trailer_end_bounds(s, close, false, false);
                    },
                }
            },
        }
    }
}

fn fault_error(kind: u8) -> (e: Arma3Error)
    ensures
        e matches Arma3Error::MalformedBlock { message } && message@ == fault_message(
            if kind == 0 {
                Bounds::Mismatch
            } else if kind == 1 {
                Bounds::NoOpening
            } else {
                Bounds::Unclosed
            },
        ),
{
    if kind == 0 {
        Arma3Error::MalformedBlock { message: "class boundary mismatch".to_string() }
    } else if kind == 1 {
        Arma3Error::MalformedBlock { message: "cannot find opening '{'".to_string() }
    } else {
        Arma3Error::MalformedBlock { message: "unclosed '{' in cfg".to_string() }
    }
}

/// Finds the extent of the block whose declaration `class_decl` stands at
/// index `start` of `text`.
pub fn class_boundaries(text: &[char], class_decl: &[char], start: usize) -> (r: Result<
    (usize, usize),
    Arma3Error,
>)
    ensures
        match r {
            Ok((a, b)) => boundaries(text@, class_decl@, start as int) == Bounds::Found(
                a as int,
                b as int,
            ),
            Err(e) => !(boundaries(text@, class_decl@, start as int) is Found) && (
            e matches Arma3Error::MalformedBlock { message } && message@ == fault_message(
                boundaries(text@, class_decl@, start as int),
            )),
        },
{
    if !starts_with_at(text, start, class_decl) {
        return Err(fault_error(0));
    }
    let brace: [char; 1] = ['{'];
    assert(brace@ =~= seq!['{']);
    let open = match find_from(text, start, brace.as_slice()) {
        Some(i) => i,
        None => {
            return Err(fault_error(1));
        },
    };
    proof {
        crate::text::lemma_first_match(text@, start as int, seq!['{']);
    }
    let n = text.len();
    let mut depth: usize = 1;
    let mut in_str = false;
    let mut escape = false;
    let mut i: usize = open + 1;
    let ghost goal = block_end(text@, open + 1, 1, false, false);
    while i < n && depth > 0
        invariant
            open < i <= n,
            n == text@.len(),
            depth <= i - open,
            block_end(text@, i as int, depth as int, in_str, escape) == goal,
        decreases n - i,
    {
        let c = text[i];
        if escape {
            escape = false;
        } else if in_str && c == '\\' {
            escape = true;
        } else if c == '"' {
            in_str = !in_str;
        } else if !in_str {
            if c == '{' {
                depth += 1;
            } else if c == '}' {
                depth -= 1;
            }
        }
        i += 1;
    }
    if depth != 0 {
        return Err(fault_error(2));
    }
    let mut end: usize = i;
    let mut saw_semicolon = false;
    let mut saw_newline = false;
    let ghost stop = trailer_end(text@, i as int, false, false);
    let mut done = false;
    while end < n && !done
        invariant
            end <= n,
            n == text@.len(),
            !done ==> trailer_end(text@, end as int, saw_semicolon, saw_newline) == stop,
            done ==> end as int == stop,
        decreases n - end, if done { 0int } else { 1int },
    {
        let c = text[end];
        if c == ';' {
            saw_semicolon = true;
        } else if c == '\n' {
            saw_newline = true;
        } else if is_alnum_char(c) && saw_semicolon {
            done = true;
        }
        if !done {
            end += 1;
            if saw_semicolon && saw_newline {
                done = true;
            }
        }
    }
    Ok((start, end))
}

/// The indices at which `pat` occurs in `s`, from left to right.
fn find_occurrences(s: &[char], pat: &[char]) -> (r: Vec<usize>)
    requires
        pat@.len() > 0,
    ensures
        r@.map_values(|p: usize| p as int) == occurrences(s@, 0, pat@),
{
    let mut r: Vec<usize> = Vec::new();
    let mut start: usize = 0;
    let ghost all = occurrences(s@, 0, pat@);
    let n = s.len();
    assert(r@.map_values(|p: usize| p as int) =~= Seq::<int>::empty());
    loop
        invariant
            pat@.len() > 0,
            n == s@.len(),
            start <= s@.len(),
            all == r@.map_values(|p: usize| p as int) + occurrences(s@, start as int, pat@),
        ensures
            all == r@.map_values(|p: usize| p as int),
        decreases s@.len() - start,
    {
        proof {
            crate::text::lemma_first_match(s@, start as int, pat@);
        }
        match find_from(s, start, pat) {
            Some(p) => {
                let ghost before = r@.map_values(|p: usize| p as int);
                r.push(p);
                assert(r@.map_values(|p: usize| p as int) =~= before.push(p as int));
                assert(before + (seq![p as int] + occurrences(s@, p + pat@.len(), pat@))
                    =~= before.push(p as int) + occurrences(s@, p + pat@.len(), pat@));
                start = p + pat.len();
            },
            None => {
                assert(r@.map_values(|p: usize| p as int) + Seq::<int>::empty()
                    =~= r@.map_values(|p: usize| p as int));
                break;
            },
        }
    }
    r
}

/// Removes from `text` every block that `class_decl` declares.
///
/// The declaration's occurrences are found from left to right and their
/// blocks removed from right to left. Fails where one of them is followed by
/// no opening brace or by braces that are not balanced.
pub fn strip_cpp_class(text: &str, class_decl: &str) -> (r: Result<String, Arma3Error>)
    requires
        class_decl@.len() > 0,
    ensures
        match r {
            Ok(out) => strip_text(text@, class_decl@) == Ok::<Seq<char>, Bounds>(out@),
            Err(e) => strip_text(text@, class_decl@) matches Err(fault) && (
            e matches Arma3Error::MalformedBlock { message } && message@ == fault_message(fault)),
        },
{
    let mut s = to_chars(text);
    let decl = to_chars(class_decl);
    let positions = find_occurrences(s.as_slice(), decl.as_slice());
    let ghost all = occurrences(text@, 0, class_decl@);
    let mut k: usize = positions.len();
    assert(all.subrange(0, k as int) =~= all);
    while k > 0
        invariant
            k <= positions.len(),
            decl@ == class_decl@,
            all == positions@.map_values(|p: usize| p as int),
            strip_text(text@, class_decl@) == strip_at(s@, decl@, all.subrange(0, k as int)),
        decreases k,
    {
        k -= 1;
        let pos = positions[k];
        proof {
            let cur = all.subrange(0, k + 1);
            assert(cur.last() == pos as int);
            assert(cur.drop_last() =~= all.subrange(0, k as int));
            lemma_boundaries_bounds(s@, decl@, pos as int);
        }
        match class_boundaries(s.as_slice(), decl.as_slice(), pos) {
            Ok((a, b)) => {
                let mut next = crate::text::slice_chars(s.as_slice(), 0, a);
                let tail = crate::text::slice_chars(s.as_slice(), b, s.len());
                crate::text::append_chars(&mut next, tail.as_slice());
                s = next;
            },
            Err(e) => {
                return Err(e);
            },
        }
    }
    Ok(from_chars(s.as_slice()))
}

} // verus!
