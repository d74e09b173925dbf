//! Paths as text: joining, splitting, and the form that the game expects.

use crate::text::{append_chars, from_chars, slice_chars, to_chars};
use vstd::prelude::*;

verus! {

/// The operating system that the library plans for.
#[derive(Clone, Copy, Debug, PartialEq, Eq, Structural)]
pub enum Platform {
    /// Linux, where the game runs natively or under Proton.
    Linux,
    /// Windows.
    Windows,
    /// Any other system; nothing can be launched there.
    Other,
}

/// The drive under which Proton shows the host's root directory.
pub const PROTON_DRIVE: char = 'Z';

/// The drive that older settings files name for a native Linux game.
pub const NATIVE_DRIVE: char = 'C';

/// Whether `c` separates path components on `platform`.
pub open spec fn is_sep(platform: Platform, c: char) -> bool {
    c == '/' || (platform == Platform::Windows && c == '\\')
}

/// The separator that `platform` writes between components.
pub open spec fn main_sep(platform: Platform) -> char {
    if platform == Platform::Windows {
        '\\'
    } else {
        '/'
    }
}

/// Whether `p` is absolute on `platform`: on Windows a drive letter, a colon
/// and a separator, or two leading separators; elsewhere a leading slash.
pub open spec fn is_absolute(platform: Platform, p: Seq<char>) -> bool {
    if platform == Platform::Windows {
        (p.len() >= 3 && p[1] == ':' && is_sep(platform, p[2])) || (p.len() >= 2 && is_sep(
            platform,
            p[0],
        ) && is_sep(platform, p[1]))
    } else {
        p.len() >= 1 && p[0] == '/'
    }
}

/// `rel` seen from `base`: `rel` itself where it is absolute or `base` is
/// empty, else `base`, a separator unless `base` ends in one, and `rel`.
pub open spec fn joined(platform: Platform, base: Seq<char>, rel: Seq<char>) -> Seq<char> {
    if is_absolute(platform, rel) || base.len() == 0 {
        rel
    } else if is_sep(platform, base.last()) {
        base + rel
    } else {
        base + seq![main_sep(platform)] + rel
    }
}

/// The length of `p` without the separators at the end of its first `n`
/// characters.
pub open spec fn trimmed_len(platform: Platform, p: Seq<char>, n: int) -> int
    decreases n,
{
    if n <= 0 || n > p.len() {
        0
    } else if is_sep(platform, p[n - 1]) {
        trimmed_len(platform, p, n - 1)
    } else {
        n
    }
}

/// The index at which the component that ends before index `n` starts.
pub open spec fn name_start(platform: Platform, p: Seq<char>, n: int) -> int
    decreases n,
{
    if n <= 0 || n > p.len() {
        0
    } else if is_sep(platform, p[n - 1]) {
        n
    } else {
        name_start(platform, p, n - 1)
    }
}

/// The last component of `p`, separators at the end set aside; `None`
/// where `p` has no component or ends in `..`.
pub open spec fn file_name_of(platform: Platform, p: Seq<char>) -> Option<Seq<char>> {
    let n = trimmed_len(platform, p, p.len() as int);
    let k = name_start(platform, p, n);
    if n == 0 || p.subrange(k, n) == seq!['.', '.'] {
        None
    } else {
        Some(p.subrange(k, n))
    }
}

/// `p` without its last component and the separators before it; a parent
/// that is nothing but separators is kept as one separator. `None` where
/// `p` has no component.
pub open spec fn parent_of(platform: Platform, p: Seq<char>) -> Option<Seq<char>> {
    let n = trimmed_len(platform, p, p.len() as int);
    let k = name_start(platform, p, n);
    let m = trimmed_len(platform, p, k);
    if n == 0 {
        None
    } else if m == 0 && k > 0 {
        Some(p.subrange(0, 1))
    } else {
        Some(p.subrange(0, m))
    }
}

/// `trimmed_len` and `name_start` stay inside the text.
pub proof fn lemma_split_bounds(platform: Platform, p: Seq<char>, n: int)
    requires
        0 <= n <= p.len(),
    ensures
        0 <= trimmed_len(platform, p, n) <= n,
        0 <= name_start(platform, p, n) <= n,
    decreases n,
{
    if n > 0 {
        lemma_split_bounds(platform, p, n - 1);
    }
}

/// Executable form of [`is_sep`].
pub fn is_sep_char(platform: Platform, c: char) -> (r: bool)
    ensures
        r == is_sep(platform, c),
{
    c == '/' || (platform == Platform::Windows && c == '\\')
}

/// Executable form of [`is_absolute`].
pub fn path_is_absolute(platform: Platform, path: &str) -> (r: bool)
    ensures
        r == is_absolute(platform, path@),
{
    let p = to_chars(path);
    chars_absolute(platform, p.as_slice())
}

fn chars_absolute(platform: Platform, p: &[char]) -> (r: bool)
    ensures
        r == is_absolute(platform, p@),
{
    if platform == Platform::Windows {
        (p.len() >= 3 && p[1] == ':' && is_sep_char(platform, p[2])) || (p.len() >= 2
            && is_sep_char(platform, p[0]) && is_sep_char(platform, p[1]))
    } else {
        p.len() >= 1 && p[0] == '/'
    }
}

/// Joins `rel` to `base`.
pub fn join(platform: Platform, base: &str, rel: &str) -> (r: String)
    ensures
        r@ == joined(platform, base@, rel@),
{
    let b = to_chars(base);
    let q = to_chars(rel);
    if chars_absolute(platform, q.as_slice()) || b.len() == 0 {
        return from_chars(q.as_slice());
    }
    let mut out = b;
    if !is_sep_char(platform, out[out.len() - 1]) {
        if platform == Platform::Windows {
            out.push('\\');
        } else {
            out.push('/');
        }
    }
    append_chars(&mut out, q.as_slice());
    from_chars(out.as_slice())
}

fn trim_end(platform: Platform, p: &[char], n: usize) -> (r: usize)
    requires
        n <= p.len(),
    ensures
        r <= n,
        r == trimmed_len(platform, p@, n as int),
{
    let mut k: usize = n;
    while k > 0 && is_sep_char(platform, p[k - 1])
        invariant
            k <= n,
            n <= p.len(),
            trimmed_len(platform, p@, k as int) == trimmed_len(platform, p@, n as int),
        decreases k,
    {
        k -= 1;
    }
    k
}

fn component_start(platform: Platform, p: &[char], n: usize) -> (r: usize)
    requires
        n <= p.len(),
    ensures
        r <= n,
        r == name_start(platform, p@, n as int),
{
    let mut k: usize = n;
    while k > 0 && !is_sep_char(platform, p[k - 1])
        invariant
            k <= n,
            n <= p.len(),
            name_start(platform, p@, k as int) == name_start(platform, p@, n as int),
        decreases k,
    {
        k -= 1;
    }
    k
}

/// The last component of `path`.
pub fn file_name(platform: Platform, path: &str) -> (r: Option<String>)
    ensures
        match r {
            Some(name) => file_name_of(platform, path@) == Some(name@),
            None => file_name_of(platform, path@) is None,
        },
{
    let p = to_chars(path);
    let n = trim_end(platform, p.as_slice(), p.len());
    let k = component_start(platform, p.as_slice(), n);
    proof {
        lemma_split_bounds(platform, p@, n as int);
    }
    if n == 0 {
        return None;
    }
    let name = slice_chars(p.as_slice(), k, n);
    if name.len() == 2 && name[0] == '.' && name[1] == '.' {
        assert(name@ =~= seq!['.', '.']);
        return None;
    }
    assert(name@ != seq!['.', '.']) by {
        if name@ == seq!['.', '.'] {
            assert(name@.len() == 2);
            assert(name@[0] == '.');
            assert(name@[1] == '.');
        }
    }
    Some(from_chars(name.as_slice()))
}

/// `path` without its last component.
pub fn parent(platform: Platform, path: &str) -> (r: Option<String>)
    ensures
        match r {
            Some(dir) => parent_of(platform, path@) == Some(dir@),
            None => parent_of(platform, path@) is None,
        },
{
    let p = to_chars(path);
    let n = trim_end(platform, p.as_slice(), p.len());
    let k = component_start(platform, p.as_slice(), n);
    proof {
        lemma_split_bounds(platform, p@, n as int);
        lemma_split_bounds(platform, p@, k as int);
    }
    let m = trim_end(platform, p.as_slice(), k);
    if n == 0 {
        return None;
    }
    let dir = if m == 0 && k > 0 {
        slice_chars(p.as_slice(), 0, 1)
    } else {
        slice_chars(p.as_slice(), 0, m)
    };
    Some(from_chars(dir.as_slice()))
}

/// `p` with every slash turned into a backslash.
pub open spec fn backslashed(p: Seq<char>) -> Seq<char> {
    Seq::new(p.len(), |i: int| if p[i] == '/' { '\\' } else { p[i] })
}

/// The form in which the game expects a path: under Proton every slash
/// becomes a backslash and an absolute path is put on Proton's drive;
/// otherwise the path stays as it is.
pub open spec fn arma_path(p: Seq<char>, is_proton: bool) -> Seq<char> {
    if is_proton {
        if is_absolute(Platform::Linux, p) {
            seq![PROTON_DRIVE, ':'] + backslashed(p)
        } else {
            backslashed(p)
        }
    } else {
        p
    }
}

/// The form in which older settings files hold a path: backslashes
/// throughout, and an absolute path on Proton's drive under Proton, on the
/// native drive otherwise.
pub open spec fn legacy_full_path(p: Seq<char>, is_proton: bool) -> Seq<char> {
    let drive = if is_proton { PROTON_DRIVE } else { NATIVE_DRIVE };
    if is_absolute(Platform::Linux, p) {
        seq![drive, ':'] + backslashed(p)
    } else {
        backslashed(p)
    }
}

fn with_backslashes(p: &[char], drive: Option<char>) -> (r: Vec<char>)
    ensures
        r@ == match drive {
            Some(d) => seq![d, ':'] + backslashed(p@),
            None => backslashed(p@),
        },
{
    let mut out: Vec<char> = Vec::new();
    match drive {
        Some(d) => {
            out.push(d);
            out.push(':');
        },
        None => {},
    }
    let ghost head = out@;
    let mut i: usize = 0;
    while i < p.len()
        invariant
            i <= p.len(),
            out@ == head + backslashed(p@).subrange(0, i as int),
        decreases p.len() - i,
    {
        if p[i] == '/' {
            out.push('\\');
        } else {
            out.push(p[i]);
        }
        i += 1;
        assert(out@ =~= head + backslashed(p@).subrange(0, i as int));
    }
    assert(backslashed(p@).subrange(0, p.len() as int) =~= backslashed(p@));
    assert(head =~= match drive {
        Some(d) => seq![d, ':'],
        None => Seq::<char>::empty(),
    });
    assert(Seq::<char>::empty() + backslashed(p@) =~= backslashed(p@));
    out
}

/// Renders `path` in the form that the game expects on `platform`. On
/// Windows the path is handed on as it is.
pub fn arma_path_string(platform: Platform, path: &str, is_proton: bool) -> (r: String)
    ensures
        r@ == if platform == Platform::Windows {
            path@
        } else {
            arma_path(path@, is_proton)
        },
{
    let p = to_chars(path);
    if platform == Platform::Windows || !is_proton {
        return from_chars(p.as_slice());
    }
    let drive = if chars_absolute(Platform::Linux, p.as_slice()) {
        Some(PROTON_DRIVE)
    } else {
        None
    };
    let out = with_backslashes(p.as_slice(), drive);
    from_chars(out.as_slice())
}

/// Renders `path` in the form of older settings files on `platform`. On
/// Windows the path is handed on as it is.
pub fn launcher_full_path(platform: Platform, path: &str, is_proton: bool) -> (r: String)
    ensures
        r@ == if platform == Platform::Windows {
            path@
        } else {
            legacy_full_path(path@, is_proton)
        },
{
    let p = to_chars(path);
    if platform == Platform::Windows {
        return from_chars(p.as_slice());
    }
    let drive = if chars_absolute(Platform::Linux, p.as_slice()) {
        if is_proton {
            Some(PROTON_DRIVE)
        } else {
            Some(NATIVE_DRIVE)
        }
    } else {
        None
    };
    let out = with_backslashes(p.as_slice(), drive);
    from_chars(out.as_slice())
}

/// Under Proton the rendered path holds no slash and, where the path is
/// absolute, starts with Proton's drive; without Proton the path is not
/// changed, so no drive is added.
pub proof fn lemma_arma_path(p: Seq<char>)
    ensures
        forall|i: int| 0 <= i < arma_path(p, true).len() ==> arma_path(p, true)[i] != '/',
        is_absolute(Platform::Linux, p) ==> arma_path(p, true).subrange(0, 2) == seq![
            PROTON_DRIVE,
            ':',
        ],
        arma_path(p, true).len() == p.len() + if is_absolute(Platform::Linux, p) {
            2int
        } else {
            0int
        },
        arma_path(p, false) == p,
{
    let b = backslashed(p);
    if is_absolute(Platform::Linux, p) {
        let r = seq![PROTON_DRIVE, ':'] + b;
        assert(r.subrange(0, 2) =~= seq![PROTON_DRIVE, ':']);
        assert forall|i: int| 0 <= i < r.len() implies r[i] != '/' by {
            if i >= 2 {
                assert(r[i] == b[i - 2]);
            }
        }
    }
}

} // verus!
