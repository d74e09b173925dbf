//! Mods: references to them, validated directories, and ordered sets.

pub mod meta;
pub mod validate;

use crate::error::Arma3Error;
use crate::host::Host;
use crate::install::Arma3Install;
use crate::mods::validate::{is_mod_dir, validate_local_mod_dir};
use crate::platform::path::{join, joined, Platform};
use vstd::prelude::*;

verus! {

/// A reference to a mod.
#[derive(Clone, Debug)]
pub enum ModSpec {
    /// A mod directory on disk.
    Local(String),
    /// A workshop id; it needs an installation with a workshop directory.
    WorkshopId(u64),
}

/// A validated mod directory.
#[derive(Clone, Debug)]
pub struct LocalMod {
    path: String,
}

impl View for LocalMod {
    type V = Seq<char>;

    closed spec fn view(&self) -> Seq<char> {
        self.path@
    }
}

impl LocalMod {
    /// Validates `path` and makes a mod of it.
    pub fn new(host: &Host, path: &str) -> (r: Result<Self, Arma3Error>)
        ensures
            match r {
                Ok(m) => is_mod_dir(host, path@) && m@ == path@,
                Err(Arma3Error::InvalidModDir { path: p }) => !is_mod_dir(host, path@) && p@
                    == path@,
                Err(_) => false,
            },
    {
        match validate_local_mod_dir(host, path) {
            Ok(()) => Ok(LocalMod { path: path.to_owned() }),
            Err(e) => Err(e),
        }
    }

    /// The mod's directory.
    pub fn path(&self) -> (r: &str)
        ensures
            r@ == self@,
    {
        self.path.as_str()
    }
}

/// The directories of the mods of `v`, in order.
pub open spec fn mod_paths(v: Seq<LocalMod>) -> Seq<Seq<char>> {
    v.map_values(|m: LocalMod| m@)
}

/// An ordered collection of mods. The order decides the numbers of the
/// entries in the settings file.
#[derive(Clone, Debug)]
pub struct ModSet {
    mods: Vec<LocalMod>,
}

impl View for ModSet {
    type V = Seq<Seq<char>>;

    closed spec fn view(&self) -> Seq<Seq<char>> {
        mod_paths(self.mods@)
    }
}

impl ModSet {
    /// An empty set.
    pub fn new() -> (r: Self)
        ensures
            r@ == Seq::<Seq<char>>::empty(),
    {
        let r = ModSet { mods: Vec::new() };
        assert(r@ =~= Seq::<Seq<char>>::empty());
        r
    }

    /// Adds a mod at the end.
    pub fn push(&mut self, m: LocalMod)
        ensures
            final(self)@ == old(self)@.push(m@),
    {
        let ghost before = self.mods@;
        self.mods.push(m);
        assert(mod_paths(self.mods@) =~= mod_paths(before).push(m@));
    }

    /// Adds the mods of `mods` at the end, in their order.
    pub fn extend(&mut self, mods: Vec<LocalMod>)
        ensures
            final(self)@ == old(self)@ + mod_paths(mods@),
    {
        let ghost before = self.mods@;
        let mut mods = mods;
        let ghost added = mods@;
        self.mods.append(&mut mods);
        assert(mod_paths(self.mods@) =~= mod_paths(before) + mod_paths(added));
    }

    /// The mods in order.
    pub fn iter(&self) -> (r: &[LocalMod])
        ensures
            mod_paths(r@) == self@,
    {
        self.mods.as_slice()
    }

    /// The mods in order.
    pub fn as_slice(&self) -> (r: &[LocalMod])
        ensures
            mod_paths(r@) == self@,
    {
        self.mods.as_slice()
    }

    /// Whether the set holds no mod.
    pub fn is_empty(&self) -> (r: bool)
        ensures
            r == (self@.len() == 0),
    {
        self.mods.len() == 0
    }
}

/// The directory that `spec` refers to: a local directory itself, a
/// workshop id as the directory of that number under the workshop
/// directory.
pub open spec fn mod_path_of(platform: Platform, workshop: Option<Seq<char>>, spec: ModSpec)
    -> Option<Seq<char>> {
    match spec {
        ModSpec::Local(p) => Some(p@),
        ModSpec::WorkshopId(id) => match workshop {
            Some(w) => Some(joined(platform, w, crate::text::decimal(id as nat))),
            None => None,
        },
    }
}

/// Resolves a mod reference to a directory.
///
/// Fails with `WorkshopDirMissing` for a workshop id where the
/// installation has no workshop directory.
pub fn resolve_mod_path(platform: Platform, install: &Arma3Install, spec: &ModSpec) -> (r: Result<
    String,
    Arma3Error,
>)
    ensures
        match r {
            Ok(p) => mod_path_of(platform, install@.workshop_dir, *spec) == Some(p@),
            Err(Arma3Error::WorkshopDirMissing) => mod_path_of(
                platform,
                install@.workshop_dir,
                *spec,
            ) is None,
            Err(_) => false,
        },
{
    match spec {
        ModSpec::Local(p) => Ok(p.clone()),
        ModSpec::WorkshopId(id) => match install.workshop_dir() {
            Some(w) => {
                let n = crate::text::decimal_string(*id);
                Ok(join(platform, w, n.as_str()))
            },
            None => Err(Arma3Error::WorkshopDirMissing),
        },
    }
}

} // verus!
