//! Splitting a command line into words.
//!
//! Words are separated by white space. Single and double quotes group
//! characters into one word and are left out of it; inside double quotes a
//! backslash makes the next character literal.

use crate::text::{from_chars, is_white, is_white_char, strings_view, to_chars};
use vstd::prelude::*;

verus! {

/// The state of the splitter between two characters.
pub struct Splitter {
    /// The word that is being read.
    pub cur: Seq<char>,
    /// Whether the splitter is inside single quotes.
    pub in_single: bool,
    /// Whether the splitter is inside double quotes.
    pub in_double: bool,
    /// Whether the character before was a backslash inside double quotes.
    pub escape: bool,
}

/// The words of `s` from index `i` on, for a splitter in state `st`. A
/// word that the end of the text cuts short counts where it is not empty.
pub open spec fn words_from(s: Seq<char>, i: int, st: Splitter) -> Seq<Seq<char>>
    decreases s.len() - i,
{
    if i < 0 || i >= s.len() {
        if st.cur.len() > 0 {
            seq![st.cur]
        } else {
            Seq::<Seq<char>>::empty()
        }
    } else if st.escape {
        words_from(s, i + 1, Splitter { cur: st.cur.push(s[i]), escape: false, ..st })
    } else if s[i] == '\\' && st.in_double {
        words_from(s, i + 1, Splitter { escape: true, ..st })
    } else if s[i] == '\'' && !st.in_double {
        words_from(s, i + 1, Splitter { in_single: !st.in_single, ..st })
    } else if s[i] == '"' && !st.in_single {
        words_from(s, i + 1, Splitter { in_double: !st.in_double, ..st })
    } else if is_white(s[i]) && !st.in_single && !st.in_double {
        if st.cur.len() > 0 {
            seq![st.cur] + words_from(s, i + 1, Splitter { cur: Seq::<char>::empty(), ..st })
        } else {
            words_from(s, i + 1, st)
        }
    } else {
        words_from(s, i + 1, Splitter { cur: st.cur.push(s[i]), ..st })
    }
}

/// The words of `s`.
pub open spec fn words_of(s: Seq<char>) -> Seq<Seq<char>> {
    words_from(
        s,
        0,
        Splitter { cur: Seq::<char>::empty(), in_single: false, in_double: false, escape: false },
    )
}

/// Splits a command line into words.
pub fn shlex_split(s: &str) -> (r: Vec<String>)
    ensures
        strings_view(r@) == words_of(s@),
{
    let text = to_chars(s);
    let mut out: Vec<String> = Vec::new();
    let mut cur: Vec<char> = Vec::new();
    let mut in_single = false;
    let mut in_double = false;
    let mut escape = false;
    let mut i: usize = 0;
    assert(strings_view(out@) + words_of(s@) =~= words_of(s@));
    while i < text.len()
        invariant
            i <= text.len(),
            text@ == s@,
            strings_view(out@) + words_from(
                s@,
                i as int,
                Splitter { cur: cur@, in_single, in_double, escape },
            ) == words_of(s@),
        decreases text.len() - i,
    {
        let c = text[i];
        let ghost out0 = strings_view(out@);
        if escape {
            cur.push(c);
            escape = false;
        } else if c == '\\' && in_double {
            escape = true;
        } else if c == '\'' && !in_double {
            in_single = !in_single;
        } else if c == '"' && !in_single {
            in_double = !in_double;
        } else if is_white_char(c) && !in_single && !in_double {
            if cur.len() > 0 {
                let ghost word = cur@;
                out.push(from_chars(cur.as_slice()));
                cur = Vec::new();
                assert(strings_view(out@) =~= out0.push(word));
                assert(out0.push(word) + words_from(
                    s@,
                    i + 1,
                    Splitter { cur: cur@, in_single, in_double, escape },
                ) =~= out0 + (seq![word] + words_from(
                    s@,
                    i + 1,
                    Splitter { cur: Seq::<char>::empty(), in_single, in_double, escape },
                )));
            }
        } else {
            cur.push(c);
        }
        i += 1;
    }
    let ghost out0 = strings_view(out@);
    if cur.len() > 0 {
        let ghost word = cur@;
        out.push(from_chars(cur.as_slice()));
        assert(strings_view(out@) =~= out0 + seq![word]);
    } else {
        assert(out0 + Seq::<Seq<char>>::empty() =~= out0);
    }
    out
}

} // verus!
