//! What holds of parsing a document that was written in the usual form.

use crate::steam::vdf::{
    initial_state, lemma_quoted_bounds, lemma_skip_ws, lemma_step_advances, parse_text, path_of,
    popped, quoted, run, skip_ws, step, VdfState,
};
use crate::text::is_space;
use vstd::prelude::*;

verus! {

/// One thing that a document writes.
pub enum Entry {
    /// A key and its value.
    Pair(Seq<char>, Seq<char>),
    /// The start of a section with the given key.
    Open(Seq<char>),
    /// The end of the innermost section.
    Close,
}

/// `t` as it stands between quotes: a backslash goes before every
/// backslash and every double quote.
pub open spec fn escaped_token(t: Seq<char>) -> Seq<char>
    decreases t.len(),
{
    if t.len() == 0 {
        Seq::<char>::empty()
    } else if t[0] == '\\' || t[0] == '"' {
        seq!['\\', t[0]] + escaped_token(t.drop_first())
    } else {
        seq![t[0]] + escaped_token(t.drop_first())
    }
}

/// `t` as a token: escaped, between double quotes.
pub open spec fn token(t: Seq<char>) -> Seq<char> {
    seq!['"'] + escaped_token(t) + seq!['"']
}

/// The text of one entry: a pair on a line of its own, the key of a
/// section on one line and its brace on the next, a closing brace on a
/// line of its own.
pub open spec fn render_entry(e: Entry) -> Seq<char> {
    match e {
        Entry::Pair(k, v) => token(k) + seq![' '] + token(v) + seq!['\n'],
        Entry::Open(k) => token(k) + seq!['\n', '{', '\n'],
        Entry::Close => seq!['}', '\n'],
    }
}

/// The text of the entries of `doc` from index `i` on.
pub open spec fn render_from(doc: Seq<Entry>, i: int) -> Seq<char>
    decreases doc.len() - i,
{
    if i < 0 || i >= doc.len() {
        Seq::<char>::empty()
    } else {
        render_entry(doc[i]) + render_from(doc, i + 1)
    }
}

/// The text of `doc`.
pub open spec fn render(doc: Seq<Entry>) -> Seq<char> {
    render_from(doc, 0)
}

/// What a document has written: the sections that are open, and the value
/// of every path.
pub struct Written {
    /// The keys of the open sections, outermost first.
    pub stack: Seq<Seq<char>>,
    /// The values by path; a path written twice has the later value.
    pub out: Map<Seq<char>, Seq<char>>,
}

/// What the entries of `doc` from index `i` on add to `w`.
pub open spec fn written_from(doc: Seq<Entry>, i: int, w: Written) -> Written
    decreases doc.len() - i,
{
    if i < 0 || i >= doc.len() {
        w
    } else {
        written_from(
            doc,
            i + 1,
            match doc[i] {
                Entry::Pair(k, v) => Written { out: w.out.insert(path_of(w.stack, k), v), ..w },
                Entry::Open(k) => Written { stack: w.stack.push(k), ..w },
                Entry::Close => Written { stack: popped(w.stack), ..w },
            },
        )
    }
}

/// What `doc` writes.
pub open spec fn written(doc: Seq<Entry>) -> Written {
    written_from(
        doc,
        0,
        Written { stack: Seq::<Seq<char>>::empty(), out: Map::<Seq<char>, Seq<char>>::empty() },
    )
}

/// Reading an escaped token gives the token back, and ends behind its
/// closing quote.
pub proof fn lemma_quoted_token(s: Seq<char>, i: int, t: Seq<char>)
    requires
        0 <= i,
        i + escaped_token(t).len() < s.len(),
        forall|j: int| 0 <= j < escaped_token(t).len() ==> s[i + j] == escaped_token(t)[j],
        s[i + escaped_token(t).len()] == '"',
    ensures
        quoted(s, i, false) == (t, i + escaped_token(t).len() + 1),
    decreases t.len(),
{
    if t.len() == 0 {
    } else {
        let rest = t.drop_first();
        let e = escaped_token(rest);
        if t[0] == '\\' || t[0] == '"' {
            let head = seq!['\\', t[0]];
            assert(escaped_token(t) == head + e);
            assert(s[i] == escaped_token(t)[0]);
            assert(s[i + 1] == escaped_token(t)[1]);
            assert forall|j: int| 0 <= j < e.len() implies s[i + 2 + j] == e[j] by {
                assert(escaped_token(t)[2 + j] == e[j]);
            }
            lemma_quoted_token(s, i + 2, rest);
            reveal_with_fuel(quoted, 3);
            assert(quoted(s, i, false).0 =~= seq![t[0]] + rest);
            assert(seq![t[0]] + rest =~= t);
        } else {
            let head = seq![t[0]];
            assert(escaped_token(t) == head + e);
            assert(s[i] == escaped_token(t)[0]);
            assert forall|j: int| 0 <= j < e.len() implies s[i + 1 + j] == e[j] by {
                assert(escaped_token(t)[1 + j] == e[j]);
            }
            lemma_quoted_token(s, i + 1, rest);
            assert(quoted(s, i, false).0 =~= seq![t[0]] + rest);
            assert(seq![t[0]] + rest =~= t);
        }
    }
}

/// What is rendered is empty or starts with a quote or a closing brace.
pub proof fn lemma_render_start(doc: Seq<Entry>, i: int)
    requires
        0 <= i <= doc.len(),
    ensures
        render_from(doc, i).len() == 0 <==> i == doc.len(),
        i < doc.len() ==> render_from(doc, i)[0] == '"' || render_from(doc, i)[0] == '}',
{
    if i < doc.len() {
        let e = render_entry(doc[i]);
        assert(e.len() > 0);
        assert(render_from(doc, i)[0] == e[0]);
    }
}

/// Behind one character of white space that stands before rendered
/// entries, the next thing read is the first of those entries.
pub proof fn lemma_skip_one(s: Seq<char>, q: int, doc: Seq<Entry>, i: int)
    requires
        0 <= i <= doc.len(),
        0 <= q < s.len(),
        is_space(s[q]),
        s.subrange(q + 1, s.len() as int) == render_from(doc, i),
    ensures
        skip_ws(s, q) == q + 1,
{
    lemma_render_start(doc, i);
    if i < doc.len() {
        assert(s[q + 1] == s.subrange(q + 1, s.len() as int)[0]);
    }
    reveal_with_fuel(skip_ws, 2);
}

/// Parsing rendered entries writes what the entries say, and leaves a
/// pending token as it was.
pub proof fn lemma_run_rendered(s: Seq<char>, doc: Seq<Entry>, i: int, st: VdfState)
    requires
        0 <= i <= doc.len(),
        0 <= st.pos <= s.len(),
        st.pos <= skip_ws(s, st.pos) <= s.len(),
        s.subrange(skip_ws(s, st.pos), s.len() as int) == render_from(doc, i),
    ensures
        run(s, st).stack == written_from(doc, i, Written { stack: st.stack, out: st.out }).stack,
        run(s, st).out == written_from(doc, i, Written { stack: st.stack, out: st.out }).out,
        run(s, st).pending == st.pending,
    decreases doc.len() - i,
{
    let p = skip_ws(s, st.pos);
    let n = s.len() as int;
    lemma_render_start(doc, i);
    if i < doc.len() {
        let rest = render_from(doc, i + 1);
        let here = render_entry(doc[i]);
        let all = render_from(doc, i);
        assert(all == here + rest);
        assert(n - p == here.len() + rest.len());
        assert forall|j: int| 0 <= j < all.len() implies s[p + j] == all[j] by {
            assert(s.subrange(p, n)[j] == all[j]);
        }
        let at = VdfState { pos: p, ..st };
        lemma_step_advances(s, at);
        let next = step(s, at);
        let end = p + here.len();
        assert(s.subrange(end, n) =~= rest) by {
            assert forall|j: int| 0 <= j < rest.len() implies s[end + j] == rest[j] by {
                assert(all[here.len() + j] == rest[j]);
            }
        }
        match doc[i] {
            Entry::Close => {
                assert(s[p] == all[0]);
                assert(s[p + 1] == all[1]);
                assert(next.pos == p + 1);
                lemma_skip_one(s, p + 1, doc, i + 1);
            },
            Entry::Open(k) => {
                let e = escaped_token(k);
                assert(here.len() == e.len() + 5);
                assert(s[p] == all[0]);
                assert forall|j: int| 0 <= j < e.len() implies s[p + 1 + j] == e[j] by {
                    assert(all[1 + j] == e[j]);
                }
                assert(s[p + 1 + e.len()] == all[1 + e.len() as int]);
                lemma_quoted_token(s, p + 1, k);
                let q = p + 2 + e.len();
                assert(s[q] == all[q - p]);
                assert(s[q + 1] == all[q + 1 - p]);
                assert(s[q + 2] == all[q + 2 - p]);
                reveal_with_fuel(skip_ws, 2);
                assert(skip_ws(s, q) == q + 1);
                assert(next.pos == q + 2);
                lemma_skip_one(s, q + 2, doc, i + 1);
            },
            Entry::Pair(k, v) => {
                let e = escaped_token(k);
                let f = escaped_token(v);
                assert(here.len() == e.len() + f.len() + 6);
                assert(s[p] == all[0]);
                assert forall|j: int| 0 <= j < e.len() implies s[p + 1 + j] == e[j] by {
                    assert(all[1 + j] == e[j]);
                }
                assert(s[p + 1 + e.len()] == all[1 + e.len() as int]);
                lemma_quoted_token(s, p + 1, k);
                let q = p + 2 + e.len();
                assert(s[q] == all[q - p]);
                assert(s[q + 1] == all[q + 1 - p]);
                reveal_with_fuel(skip_ws, 2);
                assert(skip_ws(s, q) == q + 1);
                assert forall|j: int| 0 <= j < f.len() implies s[q + 2 + j] == f[j] by {
                    assert(all[q + 2 - p + j] == f[j]);
                }
                assert(s[q + 2 + f.len()] == all[q + 2 - p + f.len()]);
                lemma_quoted_token(s, q + 2, v);
                let r = q + 3 + f.len();
                assert(next.pos == r);
                assert(s[r] == all[r - p]);
                lemma_skip_one(s, r, doc, i + 1);
            },
        }
        lemma_skip_ws(s, next.pos);
        lemma_run_rendered(s, doc, i + 1, next);
        assert(run(s, st) == run(s, next));
    } else {
        assert(p == n);
    }
}

/// Parsing the text of a document gives what the document wrote: every
/// path has the value written for it, the last one where it was written
/// twice. The parse fails exactly where the document leaves a section
/// open.
pub proof fn lemma_parse_rendered(doc: Seq<Entry>)
    ensures
        parse_text(render(doc)) == if written(doc).stack.len() == 0 {
            Some(written(doc).out)
        } else {
            None
        },
{
    let s = render(doc);
    lemma_render_start(doc, 0);
    if doc.len() > 0 {
        assert(!is_space(s[0]));
    }
    assert(skip_ws(s, 0) == 0);
    assert(s.subrange(0, s.len() as int) =~= s);
    lemma_run_rendered(s, doc, 0, initial_state());
}

/// What a document with one more entry writes is what the document
/// writes, and then that entry.
pub proof fn lemma_written_push(doc: Seq<Entry>, e: Entry, i: int, w: Written)
    requires
        0 <= i <= doc.len(),
    ensures
        written_from(doc.push(e), i, w) == written_from(seq![e], 0, written_from(doc, i, w)),
    decreases doc.len() - i,
{
    reveal_with_fuel(written_from, 2);
    if i < doc.len() {
        assert(doc.push(e)[i] == doc[i]);
        let w2 = match doc[i] {
            Entry::Pair(k, v) => Written { out: w.out.insert(path_of(w.stack, k), v), ..w },
            Entry::Open(k) => Written { stack: w.stack.push(k), ..w },
            Entry::Close => Written { stack: popped(w.stack), ..w },
        };
        lemma_written_push(doc, e, i + 1, w2);
    } else {
        assert(doc.push(e)[i] == e);
    }
}

/// What the first `n` entries of `doc` write.
pub open spec fn written_before(doc: Seq<Entry>, n: int) -> Written {
    written(doc.subrange(0, n))
}

/// The path under which the pair at index `i` of `doc` is written.
pub open spec fn pair_path(doc: Seq<Entry>, i: int) -> Seq<char> {
    match doc[i] {
        Entry::Pair(k, _) => path_of(written_before(doc, i).stack, k),
        _ => Seq::<char>::empty(),
    }
}

/// What one entry adds to what was written.
pub open spec fn written_with(w: Written, e: Entry) -> Written {
    match e {
        Entry::Pair(k, v) => Written { out: w.out.insert(path_of(w.stack, k), v), ..w },
        Entry::Open(k) => Written { stack: w.stack.push(k), ..w },
        Entry::Close => Written { stack: popped(w.stack), ..w },
    }
}

/// What the first `n + 1` entries write is what the first `n` write, and
/// then the entry at index `n`.
pub proof fn lemma_written_step(doc: Seq<Entry>, n: int)
    requires
        0 <= n < doc.len(),
    ensures
        written_before(doc, n + 1) == written_with(written_before(doc, n), doc[n]),
{
    let w0 = Written {
        stack: Seq::<Seq<char>>::empty(),
        out: Map::<Seq<char>, Seq<char>>::empty(),
    };
    let head = doc.subrange(0, n);
    assert(doc.subrange(0, n + 1) =~= head.push(doc[n]));
    lemma_written_push(head, doc[n], 0, w0);
    reveal_with_fuel(written_from, 3);
    let w = written(head);
    assert(written_from(seq![doc[n]], 1, written_with(w, doc[n])) == written_with(w, doc[n]));
    assert(written_from(seq![doc[n]], 0, w) == written_with(w, doc[n]));
}

/// A pair stays written under its path as long as no later pair is
/// written under the same path.
pub proof fn lemma_pair_kept(doc: Seq<Entry>, i: int, n: int)
    requires
        0 <= i < n <= doc.len(),
        doc[i] is Pair,
        forall|j: int| i < j < n && doc[j] is Pair ==> pair_path(doc, j) != pair_path(doc, i),
    ensures
        written_before(doc, n).out.contains_key(pair_path(doc, i)),
        written_before(doc, n).out[pair_path(doc, i)] == doc[i]->Pair_1,
    decreases n - i,
{
    lemma_written_step(doc, n - 1);
    if n - 1 > i {
        lemma_pair_kept(doc, i, n - 1);
        if doc[n - 1] is Pair {
            assert(pair_path(doc, n - 1) != pair_path(doc, i));
        }
    }
}

/// Every pair that a document writes is found under its path with the
/// value written, where the document closes all its sections and writes
/// no later pair under the same path.
pub proof fn lemma_written_pair_found(doc: Seq<Entry>, i: int)
    requires
        0 <= i < doc.len(),
        doc[i] is Pair,
        written(doc).stack.len() == 0,
        forall|j: int|
            i < j < doc.len() && doc[j] is Pair ==> pair_path(doc, j) != pair_path(doc, i),
    ensures
        parse_text(render(doc)) matches Some(m) && m.contains_key(pair_path(doc, i)) && m[pair_path(
            doc,
            i,
        )] == doc[i]->Pair_1,
{
    lemma_parse_rendered(doc);
    lemma_pair_kept(doc, i, doc.len() as int);
    assert(doc.subrange(0, doc.len() as int) =~= doc);
}

} // verus!
