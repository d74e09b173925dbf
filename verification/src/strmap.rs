//! An ordered map from strings to strings, kept as a vector sorted by key.

use crate::text::to_chars;
use vstd::prelude::*;

verus! {

/// Whether `a` comes strictly before `b` in lexicographic order of the
/// characters' code points, compared from index `i` on.
pub open spec fn lex_lt_from(a: Seq<char>, b: Seq<char>, i: int) -> bool
    decreases a.len() - i,
{
    if i < 0 || i >= b.len() {
        false
    } else if i >= a.len() {
        true
    } else if a[i] != b[i] {
        a[i] < b[i]
    } else {
        lex_lt_from(a, b, i + 1)
    }
}

/// Whether `a` comes strictly before `b` in lexicographic order.
pub open spec fn lex_lt(a: Seq<char>, b: Seq<char>) -> bool {
    lex_lt_from(a, b, 0)
}

/// How one string stands to another in lexicographic order.
#[derive(Clone, Copy, Debug, PartialEq, Eq)]
pub enum Rank {
    /// The first comes before the second.
    Before,
    /// The two are equal.
    Same,
    /// The first comes after the second.
    After,
}

/// No string comes before itself.
pub proof fn lemma_lex_irreflexive(a: Seq<char>, i: int)
    requires
        0 <= i,
    ensures
        !lex_lt_from(a, a, i),
    decreases a.len() - i,
{
    if i < a.len() {
        lemma_lex_irreflexive(a, i + 1);
    }
}

/// The order is transitive.
pub proof fn lemma_lex_transitive(a: Seq<char>, b: Seq<char>, c: Seq<char>, i: int)
    requires
        0 <= i,
        lex_lt_from(a, b, i),
        lex_lt_from(b, c, i),
    ensures
        lex_lt_from(a, c, i),
    decreases a.len() - i,
{
    if i < a.len() && i < b.len() && i < c.len() {
        if a[i] == b[i] && b[i] == c[i] {
            lemma_lex_transitive(a, b, c, i + 1);
        }
    }
}

/// Compares two character slices in lexicographic order.
pub fn rank_chars(a: &[char], b: &[char]) -> (r: Rank)
    ensures
        match r {
            Rank::Before => lex_lt(a@, b@),
            Rank::Same => a@ == b@,
            Rank::After => lex_lt(b@, a@),
        },
{
    let mut i: usize = 0;
    while i < a.len() && i < b.len()
        invariant
            i <= a.len(),
            i <= b.len(),
            forall|j: int| 0 <= j < i ==> a@[j] == b@[j],
            lex_lt(a@, b@) == lex_lt_from(a@, b@, i as int),
            lex_lt(b@, a@) == lex_lt_from(b@, a@, i as int),
        decreases a.len() - i,
    {
        let ca: char = a[i];
        let cb: char = b[i];
        if ca != cb {
            if ca < cb {
                return Rank::Before;
            } else {
                return Rank::After;
            }
        }
        i += 1;
    }
    if i < b.len() {
        Rank::Before
    } else if i < a.len() {
        Rank::After
    } else {
        assert(a@ =~= b@);
        Rank::Same
    }
}

/// Whether the keys of `e` are strictly increasing.
pub open spec fn sorted_keys(e: Seq<(Seq<char>, Seq<char>)>) -> bool {
    forall|i: int, j: int| 0 <= i < j < e.len() ==> lex_lt(#[trigger] e[i].0, #[trigger] e[j].0)
}

/// Whether `e` holds an entry with key `k`.
pub open spec fn has_key(e: Seq<(Seq<char>, Seq<char>)>, k: Seq<char>) -> bool {
    exists|i: int| 0 <= i < e.len() && #[trigger] e[i].0 == k
}

/// An index at which `e` holds key `k`.
pub open spec fn key_index(e: Seq<(Seq<char>, Seq<char>)>, k: Seq<char>) -> int {
    choose|i: int| 0 <= i < e.len() && #[trigger] e[i].0 == k
}

/// The map that a sequence of entries stands for.
pub open spec fn entries_map(e: Seq<(Seq<char>, Seq<char>)>) -> Map<Seq<char>, Seq<char>> {
    Map::new(|k: Seq<char>| has_key(e, k), |k: Seq<char>| e[key_index(e, k)].1)
}

/// In a sorted sequence every entry is what the map holds for its key.
pub proof fn lemma_entry_lookup(e: Seq<(Seq<char>, Seq<char>)>, i: int)
    requires
        sorted_keys(e),
        0 <= i < e.len(),
    ensures
        entries_map(e).contains_key(e[i].0),
        entries_map(e)[e[i].0] == e[i].1,
        key_index(e, e[i].0) == i,
{
    let k = e[i].0;
    assert(has_key(e, k));
    let j = key_index(e, k);
    if j < i {
        assert(lex_lt(e[j].0, e[i].0));
        lemma_lex_irreflexive(k, 0);
    } else if i < j {
        assert(lex_lt(e[i].0, e[j].0));
        lemma_lex_irreflexive(k, 0);
    }
}

/// The views of the pairs of `v`, in order.
pub open spec fn pairs_view(v: Seq<(String, String)>) -> Seq<(Seq<char>, Seq<char>)> {
    v.map_values(|p: (String, String)| (p.0@, p.1@))
}

/// The entries of `m` in the order of their keys.
pub open spec fn sorted_entries(m: Map<Seq<char>, Seq<char>>) -> Seq<(Seq<char>, Seq<char>)> {
    choose|e: Seq<(Seq<char>, Seq<char>)>| sorted_keys(e) && entries_map(e) == m
}

/// Two sorted sequences that stand for the same map agree on their first
/// `n` entries.
pub proof fn lemma_sorted_prefix(
    a: Seq<(Seq<char>, Seq<char>)>,
    b: Seq<(Seq<char>, Seq<char>)>,
    n: int,
)
    requires
        sorted_keys(a),
        sorted_keys(b),
        entries_map(a) == entries_map(b),
        0 <= n <= a.len(),
    ensures
        n <= b.len(),
        forall|i: int| 0 <= i < n ==> a[i] == b[i],
    decreases n,
{
    if n > 0 {
        lemma_sorted_prefix(a, b, n - 1);
        let i = n - 1;
        lemma_entry_lookup(a, i);
        assert(entries_map(b).contains_key(a[i].0));
        assert(has_key(b, a[i].0));
        let j = key_index(b, a[i].0);
        lemma_entry_lookup(b, j);
        lemma_lex_irreflexive(a[i].0, 0);
        if j < i {
            assert(b[j] == a[j]);
            assert(lex_lt(a[j].0, a[i].0));
        } else if j > i {
            lemma_entry_lookup(b, i);
            assert(entries_map(a).contains_key(b[i].0));
            assert(has_key(a, b[i].0));
            let k = key_index(a, b[i].0);
            lemma_lex_irreflexive(b[i].0, 0);
            assert(lex_lt(b[i].0, b[j].0));
            if k < i {
                assert(a[k] == b[k]);
                assert(lex_lt(b[k].0, b[i].0));
            } else if k > i {
                assert(lex_lt(a[i].0, a[k].0));
                lemma_lex_transitive(a[i].0, b[i].0, b[j].0, 0);
            }
        }
        assert(j == i);
    }
}

/// A map has at most one sorted sequence of entries.
pub proof fn lemma_sorted_unique(a: Seq<(Seq<char>, Seq<char>)>, b: Seq<(Seq<char>, Seq<char>)>)
    requires
        sorted_keys(a),
        sorted_keys(b),
        entries_map(a) == entries_map(b),
    ensures
        a == b,
{
    lemma_sorted_prefix(a, b, a.len() as int);
    lemma_sorted_prefix(b, a, b.len() as int);
    assert(a =~= b);
}

/// An ordered map from strings to strings. Its entries are kept sorted by
/// key, in lexicographic order of code points, and no key occurs twice.
#[derive(Debug)]
pub struct StringMap {
    items: Vec<(String, String)>,
}

impl Clone for StringMap {
    fn clone(&self) -> (r: Self)
        ensures
            r@ == self@,
            r.entries() == self.entries(),
    {
        self.duplicate()
    }
}

impl View for StringMap {
    type V = Map<Seq<char>, Seq<char>>;

    open spec fn view(&self) -> Map<Seq<char>, Seq<char>> {
        entries_map(self.entries())
    }
}

impl StringMap {
    /// The entries in the order in which they are held.
    pub closed spec fn entries(&self) -> Seq<(Seq<char>, Seq<char>)> {
        pairs_view(self.items@)
    }

    /// The invariant: keys strictly increasing.
    #[verifier::type_invariant]
    pub open spec fn wf(&self) -> bool {
        sorted_keys(self.entries())
    }

    /// The entries are those of the view, in the order of their keys.
    pub proof fn lemma_entries(&self)
        requires
            self.wf(),
        ensures
            self.entries() == sorted_entries(self@),
    {
        let e = self.entries();
        assert(sorted_keys(e) && entries_map(e) == self@);
        lemma_sorted_unique(e, sorted_entries(self@));
    }

    /// An empty map.
    pub fn new() -> (r: Self)
        ensures
            r.entries() == Seq::<(Seq<char>, Seq<char>)>::empty(),
            r@ == Map::<Seq<char>, Seq<char>>::empty(),
    {
        let items: Vec<(String, String)> = Vec::new();
        assert(pairs_view(items@) =~= Seq::<(Seq<char>, Seq<char>)>::empty());
        let r = StringMap { items };
        assert(r@ =~= Map::<Seq<char>, Seq<char>>::empty());
        r
    }

    /// The number of entries.
    pub fn len(&self) -> (n: usize)
        ensures
            n == self.entries().len(),
    {
        self.items.len()
    }

    /// Whether the map holds no entry.
    pub fn is_empty(&self) -> (r: bool)
        ensures
            r == (self.entries().len() == 0),
    {
        self.items.len() == 0
    }

    /// The key of the entry at index `i`.
    pub fn key_at(&self, i: usize) -> (k: &String)
        requires
            i < self.entries().len(),
        ensures
            k@ == self.entries()[i as int].0,
    {
        &self.items[i].0
    }

    /// The value of the entry at index `i`.
    pub fn value_at(&self, i: usize) -> (v: &String)
        requires
            i < self.entries().len(),
        ensures
            v@ == self.entries()[i as int].1,
    {
        &self.items[i].1
    }

    /// The entries as pairs, in the order of their keys.
    pub fn to_pairs(&self) -> (r: Vec<(String, String)>)
        ensures
            pairs_view(r@) == self.entries(),
            sorted_keys(pairs_view(r@)),
            entries_map(pairs_view(r@)) == self@,
    {
        proof {
            use_type_invariant(self);
        }
        let mut r: Vec<(String, String)> = Vec::new();
        let mut i: usize = 0;
        while i < self.items.len()
            invariant
                i <= self.items.len(),
                r@.len() == i,
                forall|j: int|
                    0 <= j < i ==> (#[trigger] r@[j]).0@ == self.items@[j].0@ && r@[j].1@
                        == self.items@[j].1@,
            decreases self.items.len() - i,
        {
            r.push((self.items[i].0.clone(), self.items[i].1.clone()));
            i += 1;
        }
        assert(pairs_view(r@) =~= self.entries());
        r
    }

    /// A copy of the map.
    pub fn duplicate(&self) -> (r: Self)
        ensures
            r@ == self@,
            r.entries() == self.entries(),
    {
        proof {
            use_type_invariant(self);
        }
        let items = self.to_pairs();
        let r = StringMap { items };
        assert(r.entries() =~= self.entries());
        r
    }

    /// The index of the first entry whose key does not come before `key`,
    /// and whether that entry has the key itself.
    fn locate(&self, key: &[char]) -> (r: (usize, bool))
        ensures
            r.0 <= self.entries().len(),
            forall|j: int| 0 <= j < r.0 ==> lex_lt(#[trigger] self.entries()[j].0, key@),
            r.1 ==> r.0 < self.entries().len() && self.entries()[r.0 as int].0 == key@,
            !r.1 ==> forall|j: int|
                r.0 <= j < self.entries().len() ==> lex_lt(key@, #[trigger] self.entries()[j].0),
            r.1 == has_key(self.entries(), key@),
    {
        proof {
            use_type_invariant(self);
        }
        let mut i: usize = 0;
        while i < self.items.len()
            invariant
                i <= self.items.len(),
                self.wf(),
                forall|j: int| 0 <= j < i ==> lex_lt(#[trigger] self.entries()[j].0, key@),
            decreases self.items.len() - i,
        {
            let k = to_chars(self.items[i].0.as_str());
            match rank_chars(k.as_slice(), key) {
                Rank::Before => {
                    i += 1;
                },
                Rank::Same => {
                    assert(self.entries()[i as int].0 == key@);
                    return (i, true);
                },
                Rank::After => {
                    proof {
                        let e = self.entries();
                        assert forall|j: int| i <= j < e.len() implies lex_lt(
                            key@,
                            #[trigger] e[j].0,
                        ) by {
                            if i < j {
                                assert(lex_lt(e[i as int].0, e[j].0));
                                lemma_lex_transitive(key@, e[i as int].0, e[j].0, 0);
                            }
                        }
                        assert(!has_key(e, key@)) by {
                            if has_key(e, key@) {
                                let j = key_index(e, key@);
                                lemma_lex_irreflexive(key@, 0);
                                if j < i {
                                    assert(lex_lt(e[j].0, key@));
                                } else {
                                    assert(lex_lt(key@, e[j].0));
                                }
                            }
                        }
                    }
                    return (i, false);
                },
            }
        }
        proof {
            let e = self.entries();
            assert(!has_key(e, key@)) by {
                if has_key(e, key@) {
                    let j = key_index(e, key@);
                    lemma_lex_irreflexive(key@, 0);
                    assert(lex_lt(e[j].0, key@));
                }
            }
        }
        (i, false)
    }

    /// Whether the map holds `key`.
    pub fn contains_key(&self, key: &str) -> (r: bool)
        ensures
            r == self@.contains_key(key@),
    {
        let k = to_chars(key);
        let (_, found) = self.locate(k.as_slice());
        found
    }

    /// The value held for `key`, if any.
    pub fn get(&self, key: &str) -> (r: Option<&String>)
        ensures
            match r {
                Some(v) => self@.contains_key(key@) && v@ == self@[key@],
                None => !self@.contains_key(key@),
            },
    {
        let k = to_chars(key);
        let (i, found) = self.locate(k.as_slice());
        if found {
            proof {
                use_type_invariant(self);
                lemma_entry_lookup(self.entries(), i as int);
            }
            Some(&self.items[i].1)
        } else {
            None
        }
    }

    /// Sets the value for `key`, replacing the value of an entry that has
    /// the key already.
    pub fn insert(&mut self, key: String, value: String)
        ensures
            final(self)@ == old(self)@.insert(key@, value@),
    {
        proof {
            use_type_invariant(&*self);
        }
        let k = to_chars(key.as_str());
        let (i, found) = self.locate(k.as_slice());
        let ghost before = self.entries();
        let mut items: Vec<(String, String)> = Vec::new();
        assert(pairs_view(items@) =~= Seq::<(Seq<char>, Seq<char>)>::empty());
        core::mem::swap(&mut self.items, &mut items);
        if found {
            items.remove(i);
        }
        let ghost mid = pairs_view(items@);
        items.insert(i, (key, value));
        proof {
            if found {
                assert(mid =~= before.remove(i as int));
            } else {
                assert(mid =~= before);
            }
            assert(pairs_view(items@) =~= mid.insert(i as int, (key@, value@)));
            lemma_insert_entry(before, i as int, found, key@, value@);
        }
        self.items = items;
    }

    /// Sets the value for `key` unless the map holds the key already.
    pub fn insert_if_absent(&mut self, key: String, value: String)
        ensures
            final(self)@ == if old(self)@.contains_key(key@) {
                old(self)@
            } else {
                old(self)@.insert(key@, value@)
            },
    {
        proof {
            use_type_invariant(&*self);
        }
        let k = to_chars(key.as_str());
        let (i, found) = self.locate(k.as_slice());
        if !found {
            let ghost before = self.entries();
            let mut items: Vec<(String, String)> = Vec::new();
            assert(pairs_view(items@) =~= Seq::<(Seq<char>, Seq<char>)>::empty());
            core::mem::swap(&mut self.items, &mut items);
            items.insert(i, (key, value));
            proof {
                assert(pairs_view(items@) =~= before.insert(i as int, (key@, value@)));
                lemma_insert_entry(before, i as int, false, key@, value@);
            }
            self.items = items;
        }
    }
}

/// Putting an entry at the place that the order gives it keeps the sequence
/// sorted and makes its map the old map with that key set.
pub proof fn lemma_insert_entry(
    e: Seq<(Seq<char>, Seq<char>)>,
    i: int,
    found: bool,
    k: Seq<char>,
    v: Seq<char>,
)
    requires
        sorted_keys(e),
        0 <= i <= e.len(),
        forall|j: int| 0 <= j < i ==> lex_lt(#[trigger] e[j].0, k),
        found ==> i < e.len() && e[i].0 == k,
        !found ==> forall|j: int| i <= j < e.len() ==> lex_lt(k, #[trigger] e[j].0),
    ensures
        sorted_keys((if found { e.remove(i) } else { e }).insert(i, (k, v))),
        entries_map((if found { e.remove(i) } else { e }).insert(i, (k, v))) == entries_map(
            e,
        ).insert(k, v),
{
    let mid = if found { e.remove(i) } else { e };
    let r = mid.insert(i, (k, v));
    assert forall|a: int, b: int| 0 <= a < b < r.len() implies lex_lt(
        #[trigger] r[a].0,
        #[trigger] r[b].0,
    ) by {
        if found {
            // r is e with the value at i replaced
            assert(r[a].0 == e[a].0);
            assert(r[b].0 == e[b].0);
        } else {
            if b == i {
                assert(r[a] == e[a]);
            } else if a == i {
                assert(r[b] == e[b - 1]);
            } else if b < i {
                assert(r[a] == e[a] && r[b] == e[b]);
            } else if a < i {
                assert(r[a] == e[a] && r[b] == e[b - 1]);
            } else {
                assert(r[a] == e[a - 1] && r[b] == e[b - 1]);
            }
        }
    }
    assert(sorted_keys(r));
    let m = entries_map(e).insert(k, v);
    assert forall|q: Seq<char>| entries_map(r).contains_key(q) == m.contains_key(q) by {
        if has_key(r, q) {
            let j = key_index(r, q);
            if j != i {
                if found {
                    assert(r[j].0 == e[j].0);
                } else if j < i {
                    assert(r[j] == e[j]);
                } else {
                    assert(r[j] == e[j - 1]);
                }
                assert(has_key(e, q));
            }
        }
        if q == k {
            assert(r[i].0 == k);
            assert(has_key(r, q));
        } else if has_key(e, q) {
            let j = key_index(e, q);
            if found {
                assert(r[j].0 == e[j].0);
            } else if j < i {
                assert(r[j] == e[j]);
            } else {
                assert(r[j + 1] == e[j]);
            }
            assert(has_key(r, q));
        }
    }
    assert forall|q: Seq<char>| entries_map(r).contains_key(q) implies entries_map(r)[q] == m[q] by {
        let j = key_index(r, q);
        lemma_entry_lookup(r, j);
        if j == i {
            assert(r[i] == (k, v));
        } else {
            if found {
                assert(r[j] == e[j]);
                lemma_entry_lookup(e, j);
            } else if j < i {
                assert(r[j] == e[j]);
                lemma_entry_lookup(e, j);
            } else {
                assert(r[j] == e[j - 1]);
                lemma_entry_lookup(e, j - 1);
            }
            if q == k {
                lemma_lex_irreflexive(k, 0);
                assert(r[i].0 == k);
                if j < i {
                    assert(lex_lt(r[j].0, r[i].0));
                } else {
                    assert(lex_lt(r[i].0, r[j].0));
                }
            }
        }
    }
    assert(entries_map(r) =~= m);
}

} // verus!
