//! Steam's library folders.

use crate::host::Host;
use crate::platform::path::{join, joined};
use crate::steam::detect::{detect_steam_root, steam_root_of};
use crate::steam::paths::{steamapps_dir, steamapps_of};
use crate::steam::vdf::{parse_text, Vdf};
use crate::strmap::sorted_entries;
use crate::text::{find_from, first_match, matches_at, starts_with_at, str_eq, strings_view, to_chars};
use vstd::prelude::*;

verus! {

/// Whether `k` is the path of a library folder's `path` entry: its first
/// segment is `libraryfolders` and its third is `path`.
pub open spec fn is_library_path_key(k: Seq<char>) -> bool {
    matches_at(k, 0, "libraryfolders/"@) && (match first_match(
        k,
        "libraryfolders/"@.len() as int,
        seq!['/'],
    ) {
        Some(j) => matches_at(k, j, "/path"@) && (j + "/path"@.len() == k.len() || k[j
            + "/path"@.len()] == '/'),
        None => false,
    })
}

/// `acc` with `p` added at its end where `p` holds `steamapps` and is not
/// in `acc` yet.
pub open spec fn with_root(host: &Host, acc: Seq<Seq<char>>, p: Seq<char>) -> Seq<Seq<char>> {
    if host.has_dir(steamapps_of(host.platform, p)) && !acc.contains(p) {
        acc.push(p)
    } else {
        acc
    }
}

/// `acc` with the library folders that the entries from index `i` on name.
pub open spec fn with_library_entries(
    host: &Host,
    e: Seq<(Seq<char>, Seq<char>)>,
    acc: Seq<Seq<char>>,
    i: int,
) -> Seq<Seq<char>>
    decreases e.len() - i,
{
    if i < 0 || i >= e.len() {
        acc
    } else if is_library_path_key(e[i].0) {
        with_library_entries(host, e, with_root(host, acc, e[i].1), i + 1)
    } else {
        with_library_entries(host, e, acc, i + 1)
    }
}

/// The path of Steam's list of library folders under `root`.
pub open spec fn library_list_of(host: &Host, root: Seq<char>) -> Seq<char> {
    joined(host.platform, root, "steamapps/libraryfolders.vdf"@)
}

/// Steam's library roots: the Steam root itself, then the folders that
/// `libraryfolders.vdf` names, in the order of their paths in that file's
/// flattened form; each only where it holds `steamapps`, and none twice.
/// A list that is missing or malformed adds nothing.
pub open spec fn library_roots_of(host: &Host) -> Seq<Seq<char>> {
    match steam_root_of(host) {
        None => Seq::<Seq<char>>::empty(),
        Some(root) => {
            let first = with_root(host, Seq::<Seq<char>>::empty(), root);
            match host.file_text(library_list_of(host, root)) {
                None => first,
                Some(text) => match parse_text(text) {
                    None => first,
                    Some(m) => with_library_entries(host, sorted_entries(m), first, 0),
                },
            }
        },
    }
}

/// Executable form of [`is_library_path_key`].
pub fn library_path_key(key: &str) -> (r: bool)
    ensures
        r == is_library_path_key(key@),
{
    let k = to_chars(key);
    let pre = to_chars("libraryfolders/");
    let suf = to_chars("/path");
    if !starts_with_at(k.as_slice(), 0, pre.as_slice()) {
        return false;
    }
    let slash: [char; 1] = ['/'];
    assert(slash@ =~= seq!['/']);
    match find_from(k.as_slice(), pre.len(), slash.as_slice()) {
        Some(j) => {
            if !starts_with_at(k.as_slice(), j, suf.as_slice()) {
                return false;
            }
            let n = k.len();
            j + suf.len() == n || k[j + suf.len()] == '/'
        },
        None => false,
    }
}

fn holds(list: &Vec<String>, p: &str) -> (r: bool)
    ensures
        r == strings_view(list@).contains(p@),
{
    let mut i: usize = 0;
    while i < list.len()
        invariant
            i <= list.len(),
            forall|j: int| 0 <= j < i ==> strings_view(list@)[j] != p@,
        decreases list.len() - i,
    {
        if str_eq(list[i].as_str(), p) {
            assert(strings_view(list@)[i as int] == p@);
            return true;
        }
        i += 1;
    }
    false
}

fn add_root(host: &Host, out: &mut Vec<String>, p: &str)
    ensures
        strings_view(final(out)@) == with_root(host, strings_view(old(out)@), p@),
{
    let apps = steamapps_dir(host.platform, p);
    if host.is_dir(apps.as_str()) && !holds(out, p) {
        let ghost before = out@;
        out.push(p.to_owned());
        assert(strings_view(out@) =~= strings_view(before).push(p@));
    }
}

/// Lists Steam's library roots.
pub fn detect_steam_library_roots(host: &Host) -> (r: Vec<String>)
    ensures
        strings_view(r@) == library_roots_of(host),
{
    let mut out: Vec<String> = Vec::new();
    let root = match detect_steam_root(host) {
        Some(r) => r,
        None => {
            assert(strings_view(out@) =~= Seq::<Seq<char>>::empty());
            return out;
        },
    };
    assert(strings_view(out@) =~= Seq::<Seq<char>>::empty());
    add_root(host, &mut out, root.as_str());
    let list = join(host.platform, root.as_str(), "steamapps/libraryfolders.vdf");
    let text = match host.read_to_string(list.as_str()) {
        Some(t) => t,
        None => {
            return out;
        },
    };
    let vdf = match Vdf::parse(text.as_str()) {
        Ok(v) => v,
        Err(_) => {
            return out;
        },
    };
    proof {
        use_type_invariant(&vdf.kv);
        vdf.kv.lemma_entries();
    }
    let ghost e = sorted_entries(vdf@);
    let n = vdf.kv.len();
    let mut i: usize = 0;
    while i < n
        invariant
            i <= n,
            n == e.len(),
            e == vdf.kv.entries(),
            with_library_entries(host, e, strings_view(out@), i as int) == library_roots_of(host),
        decreases n - i,
    {
        if library_path_key(vdf.kv.key_at(i).as_str()) {
            add_root(host, &mut out, vdf.kv.value_at(i).as_str());
        }
        i += 1;
    }
    out
}

} // verus!
