//! What the library knows of the machine: a snapshot of the environment,
//! of the directories and files that exist, and of the registry.
//!
//! Every lookup of the library goes through a `Host`, so a plan is a
//! function of the snapshot alone. Paths are compared as text.

use crate::platform::path::Platform;
use crate::text::str_eq;
use vstd::prelude::*;

verus! {

/// A directory that exists, with the names of its entries in the order in
/// which the system lists them.
#[derive(Clone, Debug)]
pub struct DirEntry {
    /// The directory's path.
    pub path: String,
    /// The names of the entries of the directory.
    pub children: Vec<String>,
}

/// A regular file that exists, with its text where it could be read.
#[derive(Clone, Debug)]
pub struct FileEntry {
    /// The file's path.
    pub path: String,
    /// The file's content, or `None` where it could not be read as text.
    pub text: Option<String>,
}

/// A snapshot of the machine.
#[derive(Clone, Debug)]
pub struct Host {
    /// The operating system.
    pub platform: Platform,
    /// The environment variables, as pairs of name and value.
    pub env: Vec<(String, String)>,
    /// The directories that exist.
    pub dirs: Vec<DirEntry>,
    /// The regular files that exist.
    pub files: Vec<FileEntry>,
    /// The registry values, as pairs of full value path and text.
    pub registry: Vec<(String, String)>,
    /// The user's documents directory, where the system names one.
    pub documents: Option<String>,
}

/// The value of the first pair at or after index `i` whose name is `key`.
pub open spec fn pair_lookup(pairs: Seq<(String, String)>, key: Seq<char>, i: int) -> Option<
    Seq<char>,
>
    decreases pairs.len() - i,
{
    if i < 0 || i >= pairs.len() {
        None
    } else if pairs[i].0@ == key {
        Some(pairs[i].1@)
    } else {
        pair_lookup(pairs, key, i + 1)
    }
}

/// The index of the first directory at or after index `i` whose path is
/// `path`.
pub open spec fn dir_lookup(dirs: Seq<DirEntry>, path: Seq<char>, i: int) -> Option<int>
    decreases dirs.len() - i,
{
    if i < 0 || i >= dirs.len() {
        None
    } else if dirs[i].path@ == path {
        Some(i)
    } else {
        dir_lookup(dirs, path, i + 1)
    }
}

/// The index of the first file at or after index `i` whose path is `path`.
pub open spec fn file_lookup(files: Seq<FileEntry>, path: Seq<char>, i: int) -> Option<int>
    decreases files.len() - i,
{
    if i < 0 || i >= files.len() {
        None
    } else if files[i].path@ == path {
        Some(i)
    } else {
        file_lookup(files, path, i + 1)
    }
}

fn find_pair(pairs: &Vec<(String, String)>, key: &str) -> (r: Option<String>)
    ensures
        match r {
            Some(v) => pair_lookup(pairs@, key@, 0) == Some(v@),
            None => pair_lookup(pairs@, key@, 0) is None,
        },
{
    let mut i: usize = 0;
    while i < pairs.len()
        invariant
            i <= pairs.len(),
            pair_lookup(pairs@, key@, 0) == pair_lookup(pairs@, key@, i as int),
        decreases pairs.len() - i,
    {
        if str_eq(pairs[i].0.as_str(), key) {
            return Some(pairs[i].1.clone());
        }
        i += 1;
    }
    None
}

impl Host {
    /// The value of the environment variable `key`, if it is set.
    pub open spec fn env_var(&self, key: Seq<char>) -> Option<Seq<char>> {
        pair_lookup(self.env@, key, 0)
    }

    /// The text of the registry value `key`, if it exists.
    pub open spec fn reg_value(&self, key: Seq<char>) -> Option<Seq<char>> {
        pair_lookup(self.registry@, key, 0)
    }

    /// Whether `path` is a directory.
    pub open spec fn has_dir(&self, path: Seq<char>) -> bool {
        dir_lookup(self.dirs@, path, 0) is Some
    }

    /// Whether `path` is a regular file.
    pub open spec fn has_file(&self, path: Seq<char>) -> bool {
        file_lookup(self.files@, path, 0) is Some
    }

    /// The text of the file `path`; `None` where it is no file or cannot be
    /// read.
    pub open spec fn file_text(&self, path: Seq<char>) -> Option<Seq<char>> {
        match file_lookup(self.files@, path, 0) {
            Some(k) => match self.files@[k].text {
                Some(t) => Some(t@),
                None => None,
            },
            None => None,
        }
    }

    /// The names of the entries of the directory `path`; `None` where it is
    /// no directory.
    pub open spec fn dir_children(&self, path: Seq<char>) -> Option<Seq<String>> {
        match dir_lookup(self.dirs@, path, 0) {
            Some(k) => Some(self.dirs@[k].children@),
            None => None,
        }
    }

    /// A snapshot of a machine without variables, directories or files.
    pub fn new(platform: Platform) -> (r: Self)
        ensures
            r.platform == platform,
            r.env@.len() == 0,
            r.dirs@.len() == 0,
            r.files@.len() == 0,
            r.registry@.len() == 0,
            r.documents is None,
    {
        Host {
            platform,
            env: Vec::new(),
            dirs: Vec::new(),
            files: Vec::new(),
            registry: Vec::new(),
            documents: None,
        }
    }

    /// The value of the environment variable `key`.
    pub fn var(&self, key: &str) -> (r: Option<String>)
        ensures
            match r {
                Some(v) => self.env_var(key@) == Some(v@),
                None => self.env_var(key@) is None,
            },
    {
        find_pair(&self.env, key)
    }

    /// The text of the registry value `key`.
    pub fn registry_value(&self, key: &str) -> (r: Option<String>)
        ensures
            match r {
                Some(v) => self.reg_value(key@) == Some(v@),
                None => self.reg_value(key@) is None,
            },
    {
        find_pair(&self.registry, key)
    }

    fn dir_index(&self, path: &str) -> (r: Option<usize>)
        ensures
            match r {
                Some(k) => dir_lookup(self.dirs@, path@, 0) == Some(k as int) && k
                    < self.dirs@.len(),
                None => dir_lookup(self.dirs@, path@, 0) is None,
            },
    {
        let mut i: usize = 0;
        while i < self.dirs.len()
            invariant
                i <= self.dirs.len(),
                dir_lookup(self.dirs@, path@, 0) == dir_lookup(self.dirs@, path@, i as int),
            decreases self.dirs.len() - i,
        {
            if str_eq(self.dirs[i].path.as_str(), path) {
                return Some(i);
            }
            i += 1;
        }
        None
    }

    fn file_index(&self, path: &str) -> (r: Option<usize>)
        ensures
            match r {
                Some(k) => file_lookup(self.files@, path@, 0) == Some(k as int) && k
                    < self.files@.len(),
                None => file_lookup(self.files@, path@, 0) is None,
            },
    {
        let mut i: usize = 0;
        while i < self.files.len()
            invariant
                i <= self.files.len(),
                file_lookup(self.files@, path@, 0) == file_lookup(self.files@, path@, i as int),
            decreases self.files.len() - i,
        {
            if str_eq(self.files[i].path.as_str(), path) {
                return Some(i);
            }
            i += 1;
        }
        None
    }

    /// Whether `path` is a directory.
    pub fn is_dir(&self, path: &str) -> (r: bool)
        ensures
            r == self.has_dir(path@),
    {
        self.dir_index(path).is_some()
    }

    /// Whether `path` is a regular file.
    pub fn is_file(&self, path: &str) -> (r: bool)
        ensures
            r == self.has_file(path@),
    {
        self.file_index(path).is_some()
    }

    /// The text of the file `path`.
    pub fn read_to_string(&self, path: &str) -> (r: Option<String>)
        ensures
            match r {
                Some(t) => self.file_text(path@) == Some(t@),
                None => self.file_text(path@) is None,
            },
    {
        match self.file_index(path) {
            Some(k) => match &self.files[k].text {
                Some(t) => Some(t.clone()),
                None => None,
            },
            None => None,
        }
    }

    /// The names of the entries of the directory `path`.
    pub fn read_dir(&self, path: &str) -> (r: Option<&Vec<String>>)
        ensures
            match r {
                Some(names) => self.dir_children(path@) == Some(names@),
                None => self.dir_children(path@) is None,
            },
    {
        match self.dir_index(path) {
            Some(k) => Some(&self.dirs[k].children),
            None => None,
        }
    }

    /// Sets an environment variable for lookups that follow; a value set
    /// before for the same name stays and wins.
    pub fn push_var(&mut self, key: &str, value: &str)
        ensures
            final(self).platform == old(self).platform,
            final(self).documents == old(self).documents,
            final(self).dirs == old(self).dirs,
            final(self).files == old(self).files,
            final(self).registry == old(self).registry,
            final(self).env@.len() == old(self).env@.len() + 1,
            final(self).env@.last().0@ == key@,
            final(self).env@.last().1@ == value@,
            final(self).env@.drop_last() == old(self).env@,
    {
        let ghost before = self.env@;
        self.env.push((key.to_owned(), value.to_owned()));
        assert(self.env@.drop_last() =~= before);
    }

    /// Records that `path` is a directory with the entries `children`.
    pub fn push_dir(&mut self, path: &str, children: Vec<String>)
        ensures
            final(self).platform == old(self).platform,
            final(self).documents == old(self).documents,
            final(self).env == old(self).env,
            final(self).files == old(self).files,
            final(self).registry == old(self).registry,
            final(self).dirs@.len() == old(self).dirs@.len() + 1,
            final(self).dirs@.last().path@ == path@,
            final(self).dirs@.last().children == children,
            final(self).dirs@.drop_last() == old(self).dirs@,
    {
        let ghost before = self.dirs@;
        self.dirs.push(DirEntry { path: path.to_owned(), children });
        assert(self.dirs@.drop_last() =~= before);
    }

    /// Records that `path` is a regular file with the content `text`.
    pub fn push_file(&mut self, path: &str, text: Option<String>)
        ensures
            final(self).platform == old(self).platform,
            final(self).documents == old(self).documents,
            final(self).env == old(self).env,
            final(self).dirs == old(self).dirs,
            final(self).registry == old(self).registry,
            final(self).files@.len() == old(self).files@.len() + 1,
            final(self).files@.last().path@ == path@,
            final(self).files@.last().text == text,
            final(self).files@.drop_last() == old(self).files@,
    {
        let ghost before = self.files@;
        self.files.push(FileEntry { path: path.to_owned(), text });
        assert(self.files@.drop_last() =~= before);
    }

    /// Records the registry value `key`.
    pub fn push_registry(&mut self, key: &str, value: &str)
        ensures
            final(self).platform == old(self).platform,
            final(self).documents == old(self).documents,
            final(self).env == old(self).env,
            final(self).dirs == old(self).dirs,
            final(self).files == old(self).files,
            final(self).registry@.len() == old(self).registry@.len() + 1,
            final(self).registry@.last().0@ == key@,
            final(self).registry@.last().1@ == value@,
            final(self).registry@.drop_last() == old(self).registry@,
    {
        let ghost before = self.registry@;
        self.registry.push((key.to_owned(), value.to_owned()));
        assert(self.registry@.drop_last() =~= before);
    }
}

} // verus!
