//! The environment variables that a launch adds to the process.

use crate::strmap::{entries_map, pairs_view, sorted_entries, sorted_keys, StringMap};
use vstd::prelude::*;

verus! {

/// Environment variables for the process to start, by name. They are
/// handed out in the order of their names.
#[derive(Clone, Debug)]
pub struct EnvVars {
    inner: StringMap,
}

impl View for EnvVars {
    type V = Map<Seq<char>, Seq<char>>;

    closed spec fn view(&self) -> Map<Seq<char>, Seq<char>> {
        self.inner@
    }
}

impl EnvVars {
    /// No variable.
    pub fn new() -> (r: Self)
        ensures
            r@ == Map::<Seq<char>, Seq<char>>::empty(),
    {
        EnvVars { inner: StringMap::new() }
    }

    /// Sets the variable `key` to `val`; a value set before is replaced.
    pub fn insert(&mut self, key: &str, val: &str)
        ensures
            final(self)@ == old(self)@.insert(key@, val@),
    {
        self.inner.insert(key.to_owned(), val.to_owned());
    }

    /// The variables as pairs of name and value, in the order of their
    /// names.
    pub fn iter(&self) -> (r: Vec<(String, String)>)
        ensures
            pairs_view(r@) == sorted_entries(self@),
            sorted_keys(pairs_view(r@)),
            entries_map(pairs_view(r@)) == self@,
    {
        proof {
            use_type_invariant(&self.inner);
            self.inner.lemma_entries();
        }
        self.inner.to_pairs()
    }

    /// A copy of the variables.
    pub fn duplicate(&self) -> (r: Self)
        ensures
            r@ == self@,
    {
        EnvVars { inner: self.inner.duplicate() }
    }
}

impl Default for EnvVars {
    fn default() -> (r: Self)
        ensures
            r@ == Map::<Seq<char>, Seq<char>>::empty(),
    {
        EnvVars::new()
    }
}

} // verus!
