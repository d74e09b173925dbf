//! A tolerant parser for Valve's nested key-value text format, as found in
//! `config.vdf`, `libraryfolders.vdf` and `toolmanifest.vdf`.
//!
//! Tokens are double-quoted strings in which a backslash makes the next
//! character literal. A token followed by a token records a pair under the
//! path of the enclosing sections; a token followed by `{` opens a section.
//! A key written twice keeps the value written last.

use crate::error::Arma3Error;
use crate::strmap::{sorted_entries, StringMap};
use crate::text::{
    append_chars, contains_chars, from_chars, is_space, is_space_char, occurs_in, strings_view,
    to_chars,
};
use vstd::prelude::*;

verus! {

/// The state of the parser between two tokens.
pub struct VdfState {
    /// The index of the next character to read.
    pub pos: int,
    /// The keys of the sections that are open, outermost first.
    pub stack: Seq<Seq<char>>,
    /// A token that no pair and no section has used yet.
    pub pending: Option<Seq<char>>,
    /// The pairs recorded so far, by path.
    pub out: Map<Seq<char>, Seq<char>>,
}

/// The first index at or after `i` that holds no whitespace.
pub open spec fn skip_ws(s: Seq<char>, i: int) -> int
    decreases s.len() - i,
{
    if 0 <= i < s.len() && is_space(s[i]) {
        skip_ws(s, i + 1)
    } else {
        i
    }
}

/// The token whose opening quote stands just before index `i`: its text, and
/// the index after its closing quote. A token that the end of the text cuts
/// short ends there.
pub open spec fn quoted(s: Seq<char>, i: int, escape: bool) -> (Seq<char>, int)
    decreases s.len() - i,
{
    if i < 0 || i >= s.len() {
        (Seq::<char>::empty(), i)
    } else if escape {
        let r = quoted(s, i + 1, false);
        (seq![s[i]] + r.0, r.1)
    } else if s[i] == '\\' {
        quoted(s, i + 1, true)
    } else if s[i] == '"' {
        (Seq::<char>::empty(), i + 1)
    } else {
        let r = quoted(s, i + 1, false);
        (seq![s[i]] + r.0, r.1)
    }
}

/// The keys of `stack`, each followed by a slash.
pub open spec fn path_prefix(stack: Seq<Seq<char>>) -> Seq<char>
    decreases stack.len(),
{
    if stack.len() == 0 {
        Seq::<char>::empty()
    } else {
        path_prefix(stack.drop_last()) + stack.last() + seq!['/']
    }
}

/// The path of `key` inside the sections of `stack`.
pub open spec fn path_of(stack: Seq<Seq<char>>, key: Seq<char>) -> Seq<char> {
    path_prefix(stack) + key
}

/// `stack` without its innermost section; an empty stack stays empty.
pub open spec fn popped(stack: Seq<Seq<char>>) -> Seq<Seq<char>> {
    if stack.len() == 0 {
        stack
    } else {
        stack.drop_last()
    }
}

/// The state after the item that starts at `st.pos`, which holds a
/// character that is no whitespace.
pub open spec fn step(s: Seq<char>, st: VdfState) -> VdfState {
    let c = s[st.pos];
    if c == '"' {
        let tok = quoted(s, st.pos + 1, false);
        let p = skip_ws(s, tok.1);
        if p < s.len() && s[p] == '"' {
            let val = quoted(s, p + 1, false);
            VdfState { pos: val.1, out: st.out.insert(path_of(st.stack, tok.0), val.0), ..st }
        } else if p < s.len() && s[p] == '{' {
            VdfState { pos: p + 1, stack: st.stack.push(tok.0), ..st }
        } else if p < s.len() && s[p] == '}' {
            VdfState { pos: p + 1, stack: popped(st.stack), pending: Some(tok.0), ..st }
        } else {
            VdfState { pos: p, pending: Some(tok.0), ..st }
        }
    } else if c == '{' {
        match st.pending {
            Some(k) => VdfState {
                pos: st.pos + 1,
                stack: st.stack.push(k),
                pending: None,
                ..st
            },
            None => VdfState { pos: st.pos + 1, ..st },
        }
    } else if c == '}' {
        VdfState { pos: st.pos + 1, stack: popped(st.stack), ..st }
    } else {
        VdfState { pos: st.pos + 1, ..st }
    }
}

/// The state at the end of the text, reading on from `st`.
pub open spec fn run(s: Seq<char>, st: VdfState) -> VdfState
    decreases s.len() - st.pos,
{
    let p = skip_ws(s, st.pos);
    if p < 0 || p >= s.len() {
        VdfState { pos: p, ..st }
    } else {
        let n = step(s, VdfState { pos: p, ..st });
        if st.pos <= p < n.pos <= s.len() {
            run(s, n)
        } else {
            n
        }
    }
}

/// The state before the first character.
pub open spec fn initial_state() -> VdfState {
    VdfState {
        pos: 0,
        stack: Seq::<Seq<char>>::empty(),
        pending: None,
        out: Map::<Seq<char>, Seq<char>>::empty(),
    }
}

/// What `s` parses to: the recorded pairs by path, or `None` where a
/// section is left open at the end of the text.
pub open spec fn parse_text(s: Seq<char>) -> Option<Map<Seq<char>, Seq<char>>> {
    let f = run(s, initial_state());
    if f.stack.len() == 0 {
        Some(f.out)
    } else {
        None
    }
}

/// `skip_ws` moves forward, stays inside the text and stops at a character
/// that is no whitespace.
pub proof fn lemma_skip_ws(s: Seq<char>, i: int)
    requires
        0 <= i <= s.len(),
    ensures
        i <= skip_ws(s, i) <= s.len(),
        skip_ws(s, i) < s.len() ==> !is_space(s[skip_ws(s, i)]),
    decreases s.len() - i,
{
    if i < s.len() && is_space(s[i]) {
        lemma_skip_ws(s, i + 1);
    }
}

/// A token ends at or after its start, inside the text.
pub proof fn lemma_quoted_bounds(s: Seq<char>, i: int, escape: bool)
    requires
        0 <= i <= s.len(),
    ensures
        i <= quoted(s, i, escape).1 <= s.len(),
    decreases s.len() - i,
{
    if i < s.len() {
        if escape {
            lemma_quoted_bounds(s, i + 1, false);
        } else if s[i] == '\\' {
            lemma_quoted_bounds(s, i + 1, true);
        } else if s[i] == '"' {
        } else {
            lemma_quoted_bounds(s, i + 1, false);
        }
    }
}

/// Every step moves forward and stays inside the text.
pub proof fn lemma_step_advances(s: Seq<char>, st: VdfState)
    requires
        0 <= st.pos < s.len(),
    ensures
        st.pos < step(s, st).pos <= s.len(),
{
    if s[st.pos] == '"' {
        lemma_quoted_bounds(s, st.pos + 1, false);
        let tok = quoted(s, st.pos + 1, false);
        lemma_skip_ws(s, tok.1);
        let p = skip_ws(s, tok.1);
        if p < s.len() && s[p] == '"' {
            lemma_quoted_bounds(s, p + 1, false);
        }
    }
}

/// A parsed document: the flattened pairs, keyed by slash-joined path.
#[derive(Clone, Debug)]
pub struct Vdf {
    /// Flattened key/value store.
    pub kv: StringMap,
}

impl View for Vdf {
    type V = Map<Seq<char>, Seq<char>>;

    open spec fn view(&self) -> Map<Seq<char>, Seq<char>> {
        self.kv@
    }
}

/// The values of the entries of `e` whose key holds `filter`, in the order
/// of the entries.
pub open spec fn filtered_values(e: Seq<(Seq<char>, Seq<char>)>, filter: Seq<char>) -> Seq<
    Seq<char>,
>
    decreases e.len(),
{
    if e.len() == 0 {
        Seq::<Seq<char>>::empty()
    } else if occurs_in(e.last().0, filter) {
        filtered_values(e.drop_last(), filter).push(e.last().1)
    } else {
        filtered_values(e.drop_last(), filter)
    }
}

impl Vdf {
    /// Parses a document.
    ///
    /// Fails where a section is still open at the end of the text.
    pub fn parse(text: &str) -> (r: Result<Vdf, Arma3Error>)
        ensures
            match r {
                Ok(v) => parse_text(text@) == Some(v@),
                Err(e) => parse_text(text@) is None && (e matches Arma3Error::SteamConfig {
                    message,
                } && message@ == "unclosed braces in VDF"@),
            },
    {
        let mut p = Parser::new(text);
        match p.parse() {
            Ok(()) => Ok(Vdf { kv: p.finish() }),
            Err(e) => Err(e),
        }
    }

    /// The value recorded under exactly `path`, if any.
    pub fn get(&self, path: &str) -> (r: Option<&String>)
        ensures
            match r {
                Some(v) => self@.contains_key(path@) && v@ == self@[path@],
                None => !self@.contains_key(path@),
            },
    {
        self.kv.get(path)
    }

    /// All values whose path holds `filter`, in the order of their paths.
    pub fn values_with_filter(&self, filter: &str) -> (r: Vec<String>)
        ensures
            strings_view(r@) == filtered_values(sorted_entries(self@), filter@),
    {
        proof {
            use_type_invariant(&self.kv);
            self.kv.lemma_entries();
        }
        let f = to_chars(filter);
        let mut r: Vec<String> = Vec::new();
        let mut i: usize = 0;
        let n = self.kv.len();
        assert(self.kv.entries().subrange(0, 0) =~= Seq::<(Seq<char>, Seq<char>)>::empty());
        assert(strings_view(r@) =~= Seq::<Seq<char>>::empty());
        while i < n
            invariant
                i <= n,
                n == self.kv.entries().len(),
                f@ == filter@,
                strings_view(r@) == filtered_values(
                    self.kv.entries().subrange(0, i as int),
                    filter@,
                ),
            decreases n - i,
        {
            let k = to_chars(self.kv.key_at(i).as_str());
            let ghost before = r@;
            let hit = contains_chars(k.as_slice(), f.as_slice());
            if hit {
                r.push(self.kv.value_at(i).clone());
            }
            proof {
                let e = self.kv.entries();
                let next = e.subrange(0, i + 1);
                assert(next.drop_last() =~= e.subrange(0, i as int));
                assert(next.last() == e[i as int]);
                if hit {
                    assert(strings_view(r@) =~= strings_view(before).push(e[i as int].1));
                }
            }
            i += 1;
        }
        assert(self.kv.entries().subrange(0, n as int) =~= self.kv.entries());
        r
    }
}

/// The reader's working state.
pub struct Parser {
    s: Vec<char>,
    i: usize,
    out: StringMap,
    stack: Vec<String>,
    pending_key: Option<String>,
}

impl Parser {
    /// The text being read.
    pub closed spec fn text(&self) -> Seq<char> {
        self.s@
    }

    /// The state that the reader is in.
    pub closed spec fn state(&self) -> VdfState {
        VdfState {
            pos: self.i as int,
            stack: strings_view(self.stack@),
            pending: match self.pending_key {
                Some(k) => Some(k@),
                None => None,
            },
            out: self.out@,
        }
    }

    /// The reader's invariant.
    pub closed spec fn wf(&self) -> bool {
        self.i <= self.s@.len()
    }

    /// A reader at the start of `text`.
    pub fn new(text: &str) -> (r: Self)
        ensures
            r.wf(),
            r.text() == text@,
            r.state() == initial_state(),
    {
        let r = Parser {
            s: to_chars(text),
            i: 0,
            out: StringMap::new(),
            stack: Vec::new(),
            pending_key: None,
        };
        assert(strings_view(r.stack@) =~= Seq::<Seq<char>>::empty());
        r
    }

    /// Hands out the pairs recorded so far.
    pub fn finish(self) -> (r: StringMap)
        ensures
            r@ == self.state().out,
    {
        self.out
    }

    /// Reads the text to its end.
    pub fn parse(&mut self) -> (r: Result<(), Arma3Error>)
        requires
            old(self).wf(),
        ensures
            final(self).wf(),
            final(self).text() == old(self).text(),
            final(self).state() == run(old(self).text(), old(self).state()),
            match r {
                Ok(()) => final(self).state().stack.len() == 0,
                Err(e) => final(self).state().stack.len() != 0 && (e matches Arma3Error::SteamConfig {
                    message,
                } && message@ == "unclosed braces in VDF"@),
            },
    {
        let ghost s = self.s@;
        let ghost goal = run(self.text(), self.state());
        let total = self.s.len();
        loop
            invariant
                self.wf(),
                self.s@ == s,
                s.len() == total,
                run(s, self.state()) == goal,
            ensures
                self.wf(),
                self.s@ == s,
                self.state() == goal,
            decreases s.len() - self.i,
        {
            let ghost st0 = self.state();
            let n = self.s.len();
            let more = self.skip_ws();
            if !more {
                break;
            }
            let ghost st1 = self.state();
            proof {
                lemma_skip_ws(s, st0.pos);
                lemma_step_advances(s, st1);
                assert(st1 == VdfState { pos: skip_ws(s, st0.pos), ..st0 });
            }
            let c = self.s[self.i];
            if c == '"' {
                let tok = self.read_quoted();
                self.skip_ws();
                proof {
                    lemma_quoted_bounds(s, st1.pos + 1, false);
                    lemma_skip_ws(s, quoted(s, st1.pos + 1, false).1);
                }
                match self.peek_char() {
                    Some('"') => {
                        proof {
                            lemma_quoted_bounds(s, self.i as int + 1, false);
                        }
                        let val = self.read_quoted();
                        self.add_kv(tok, val);
                    },
                    Some('{') => {
                        self.i += 1;
                        let ghost before = self.stack@;
                        self.stack.push(tok);
                        assert(strings_view(self.stack@) =~= strings_view(before).push(tok@));
                    },
                    Some('}') => {
                        self.i += 1;
                        self.pop_stack();
                        self.pending_key = Some(tok);
                    },
                    _ => {
                        self.pending_key = Some(tok);
                    },
                }
            } else if c == '{' {
                self.i += 1;
                let pending = self.pending_key.take();
                match pending {
                    Some(k) => {
                        let ghost before = self.stack@;
                        self.stack.push(k);
                        assert(strings_view(self.stack@) =~= strings_view(before).push(k@));
                    },
                    None => {},
                }
            } else if c == '}' {
                self.i += 1;
                self.pop_stack();
            } else {
                self.i += 1;
            }
            assert(self.state() == step(s, st1));
        }
        if self.stack.len() != 0 {
            return Err(Arma3Error::SteamConfig { message: "unclosed braces in VDF".to_string() });
        }
        Ok(())
    }

    /// Records `v` under the path of `k` in the open sections.
    fn add_kv(&mut self, k: String, v: String)
        requires
            old(self).wf(),
        ensures
            final(self).wf(),
            final(self).text() == old(self).text(),
            final(self).state() == (VdfState {
                out: old(self).state().out.insert(path_of(old(self).state().stack, k@), v@),
                ..old(self).state()
            }),
    {
        let mut path: Vec<char> = Vec::new();
        let mut j: usize = 0;
        let ghost stack = strings_view(self.stack@);
        assert(stack.subrange(0, 0) =~= Seq::<Seq<char>>::empty());
        while j < self.stack.len()
            invariant
                j <= self.stack.len(),
                stack == strings_view(self.stack@),
                path@ == path_prefix(stack.subrange(0, j as int)),
            decreases self.stack.len() - j,
        {
            let seg = to_chars(self.stack[j].as_str());
            append_chars(&mut path, seg.as_slice());
            path.push('/');
            proof {
                let next = stack.subrange(0, j + 1);
                assert(next.drop_last() =~= stack.subrange(0, j as int));
                assert(next.last() == stack[j as int]);
            }
            j += 1;
        }
        assert(stack.subrange(0, self.stack.len() as int) =~= stack);
        let key = to_chars(k.as_str());
        append_chars(&mut path, key.as_slice());
        self.out.insert(from_chars(path.as_slice()), v);
    }

    /// Closes the innermost section, if one is open.
    fn pop_stack(&mut self)
        ensures
            final(self).wf() == old(self).wf(),
            final(self).text() == old(self).text(),
            final(self).state() == (VdfState {
                stack: popped(old(self).state().stack),
                ..old(self).state()
            }),
    {
        let ghost before = self.stack@;
        let _ = self.stack.pop();
        proof {
            if before.len() > 0 {
                assert(strings_view(self.stack@) =~= strings_view(before).drop_last());
            } else {
                assert(strings_view(self.stack@) =~= strings_view(before));
            }
        }
    }

    /// Moves past whitespace; tells whether any text is left.
    fn skip_ws(&mut self) -> (more: bool)
        requires
            old(self).wf(),
        ensures
            final(self).wf(),
            final(self).text() == old(self).text(),
            final(self).state() == (VdfState {
                pos: skip_ws(old(self).text(), old(self).state().pos),
                ..old(self).state()
            }),
            more == (final(self).state().pos < final(self).text().len()),
    {
        let ghost start = self.i as int;
        while self.i < self.s.len() && is_space_char(self.s[self.i])
            invariant
                self.i <= self.s@.len(),
                self.s@ == old(self).s@,
                self.out == old(self).out,
                self.stack == old(self).stack,
                self.pending_key == old(self).pending_key,
                skip_ws(self.s@, start) == skip_ws(self.s@, self.i as int),
            decreases self.s@.len() - self.i,
        {
            self.i += 1;
        }
        self.i < self.s.len()
    }

    /// The character at the reader's position, if any.
    fn peek_char(&self) -> (r: Option<char>)
        requires
            self.wf(),
        ensures
            r == if self.state().pos < self.text().len() {
                Some(self.text()[self.state().pos])
            } else {
                None::<char>
            },
    {
        if self.i < self.s.len() {
            Some(self.s[self.i])
        } else {
            None
        }
    }

    /// Reads the token whose opening quote stands at the reader's position.
    fn read_quoted(&mut self) -> (r: String)
        requires
            old(self).wf(),
            old(self).state().pos < old(self).text().len(),
        ensures
            final(self).wf(),
            final(self).text() == old(self).text(),
            r@ == quoted(old(self).text(), old(self).state().pos + 1, false).0,
            final(self).state() == (VdfState {
                pos: quoted(old(self).text(), old(self).state().pos + 1, false).1,
                ..old(self).state()
            }),
    {
        let n = self.s.len();
        self.i += 1;
        let ghost start = self.i as int;
        let ghost s = self.s@;
        let mut out: Vec<char> = Vec::new();
        let mut escape = false;
        let mut done = false;
        while self.i < self.s.len() && !done
            invariant
                self.i <= self.s@.len(),
                self.s@ == s,
                s == old(self).s@,
                self.out == old(self).out,
                self.stack == old(self).stack,
                self.pending_key == old(self).pending_key,
                !done ==> quoted(s, start, false).0 == out@ + quoted(s, self.i as int, escape).0,
                !done ==> quoted(s, start, false).1 == quoted(s, self.i as int, escape).1,
                done ==> quoted(s, start, false) == (out@, self.i as int),
            decreases self.s@.len() - self.i,
        {
            let c = self.s[self.i];
            let ghost i0 = self.i as int;
            let ghost out0 = out@;
            self.i += 1;
            if escape {
                out.push(c);
                escape = false;
                assert(out@ + quoted(s, i0 + 1, false).0 =~= out0 + (seq![c] + quoted(
                    s,
                    i0 + 1,
                    false,
                ).0));
            } else if c == '\\' {
                escape = true;
            } else if c == '"' {
                done = true;
                assert(out0 + Seq::<char>::empty() =~= out0);
            } else {
                out.push(c);
                assert(out@ + quoted(s, i0 + 1, false).0 =~= out0 + (seq![c] + quoted(
                    s,
                    i0 + 1,
                    false,
                ).0));
            }
        }
        assert(!done ==> out@ + Seq::<char>::empty() =~= out@);
        from_chars(out.as_slice())
    }
}

} // verus!
