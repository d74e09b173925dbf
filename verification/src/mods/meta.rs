//! A mod's metadata, read from the `*.cpp` files in its directory.
//!
//! The files hold assignments of the form `key = "value";`. The reader is
//! tolerant: it drops comments, splits at semicolons outside quotes, and
//! keeps the first value that it meets for a key.

use crate::error::Arma3Error;
use crate::host::Host;
use crate::mods::validate::{is_mod_dir, validate_local_mod_dir};
use crate::platform::path::{file_name, file_name_of, join, joined};
use crate::strmap::StringMap;
use crate::text::{
    concat_str, from_chars, matches_at, slice_chars, starts_with_at, strings_view, to_chars,
    trim_chars, trimmed, Trim,
};
use vstd::prelude::*;

verus! {

/// The index of the line feed that ends the line of index `i`, or the
/// length of the text.
pub open spec fn line_end(s: Seq<char>, i: int) -> int
    decreases s.len() - i,
{
    if 0 <= i < s.len() && s[i] != '\n' {
        line_end(s, i + 1)
    } else {
        i
    }
}

/// The index after the `*/` that closes a block comment whose body starts
/// at `i`; where none closes it, the index of the last character.
pub open spec fn block_comment_end(s: Seq<char>, i: int) -> int
    decreases s.len() - i,
{
    if 0 <= i && i + 1 < s.len() {
        if s[i] == '*' && s[i + 1] == '/' {
            i + 2
        } else {
            block_comment_end(s, i + 1)
        }
    } else {
        i
    }
}

/// `s` from index `i` on without its comments. Inside double quotes
/// nothing starts a comment. The line feed that ends a line comment stays.
pub open spec fn uncommented(s: Seq<char>, i: int, in_str: bool) -> Seq<char>
    decreases s.len() - i,
{
    if i < 0 || i >= s.len() {
        Seq::<char>::empty()
    } else if s[i] == '"' {
        seq![s[i]] + uncommented(s, i + 1, !in_str)
    } else if !in_str && s[i] == '/' && i + 1 < s.len() && s[i + 1] == '/' {
        let j = line_end(s, i + 2);
        if i < j <= s.len() {
            uncommented(s, j, in_str)
        } else {
            Seq::<char>::empty()
        }
    } else if !in_str && s[i] == '/' && i + 1 < s.len() && s[i + 1] == '*' {
        let j = block_comment_end(s, i + 2);
        if i < j <= s.len() {
            uncommented(s, j, in_str)
        } else {
            Seq::<char>::empty()
        }
    } else {
        seq![s[i]] + uncommented(s, i + 1, in_str)
    }
}

/// The pieces of `s` from index `i` on between the occurrences of `delim`
/// outside double quotes, `cur` being the start of the first piece. A last
/// piece that is empty is left out.
pub open spec fn split_from(s: Seq<char>, delim: char, i: int, cur: Seq<char>, in_str: bool)
    -> Seq<Seq<char>>
    decreases s.len() - i,
{
    if i < 0 || i >= s.len() {
        if cur.len() > 0 {
            seq![cur]
        } else {
            Seq::<Seq<char>>::empty()
        }
    } else if s[i] == '"' {
        split_from(s, delim, i + 1, cur.push(s[i]), !in_str)
    } else if s[i] == delim && !in_str {
        seq![cur] + split_from(s, delim, i + 1, Seq::<char>::empty(), in_str)
    } else {
        split_from(s, delim, i + 1, cur.push(s[i]), in_str)
    }
}

/// The index of the first `needle` at or after `i` that stands outside
/// double quotes.
pub open spec fn find_outside(s: Seq<char>, needle: char, i: int, in_str: bool) -> Option<int>
    decreases s.len() - i,
{
    if i < 0 || i >= s.len() {
        None
    } else if s[i] == '"' {
        find_outside(s, needle, i + 1, !in_str)
    } else if s[i] == needle && !in_str {
        Some(i)
    } else {
        find_outside(s, needle, i + 1, in_str)
    }
}

/// The key and the value that the statement `stmt` assigns, if it is an
/// assignment with a key and a value. White space round the two is set
/// aside, and so are the quotes round the value.
pub open spec fn assignment_of(stmt: Seq<char>) -> Option<(Seq<char>, Seq<char>)> {
    let t = trimmed(stmt, Trim::White);
    match find_outside(t, '=', 0, false) {
        None => None,
        Some(eq) => {
            let key = trimmed(t.subrange(0, eq), Trim::White);
            let val = trimmed(t.subrange(eq + 1, t.len() as int), Trim::White);
            if key.len() == 0 || val.len() == 0 {
                None
            } else {
                Some((key, trimmed(val, Trim::Quotes)))
            }
        },
    }
}

/// `m` with the assignments of the statements from index `i` on, a key
/// keeping the value that it got first.
pub open spec fn with_assignments(
    m: Map<Seq<char>, Seq<char>>,
    stmts: Seq<Seq<char>>,
    i: int,
) -> Map<Seq<char>, Seq<char>>
    decreases stmts.len() - i,
{
    if i < 0 || i >= stmts.len() {
        m
    } else {
        match assignment_of(stmts[i]) {
            Some((k, v)) => with_assignments(
                if m.contains_key(k) {
                    m
                } else {
                    m.insert(k, v)
                },
                stmts,
                i + 1,
            ),
            None => with_assignments(m, stmts, i + 1),
        }
    }
}

/// `m` with the assignments that `text` holds.
pub open spec fn with_text(m: Map<Seq<char>, Seq<char>>, text: Seq<char>) -> Map<
    Seq<char>,
    Seq<char>,
> {
    with_assignments(
        m,
        split_from(uncommented(text, 0, false), ';', 0, Seq::<char>::empty(), false),
        0,
    )
}

/// A needle that is found lies inside the text.
pub proof fn lemma_find_outside(s: Seq<char>, needle: char, i: int, in_str: bool)
    requires
        0 <= i,
    ensures
        find_outside(s, needle, i, in_str) matches Some(k) ==> i <= k < s.len() && s[k] == needle,
    decreases s.len() - i,
{
    if i < s.len() {
        if s[i] == '"' {
            lemma_find_outside(s, needle, i + 1, !in_str);
        } else if s[i] == needle && !in_str {
        } else {
            lemma_find_outside(s, needle, i + 1, in_str);
        }
    }
}

/// Removes line comments and block comments that stand outside double
/// quotes.
pub fn strip_comments(s: &[char]) -> (r: Vec<char>)
    ensures
        r@ == uncommented(s@, 0, false),
{
    let n = s.len();
    let mut out: Vec<char> = Vec::new();
    let mut in_str = false;
    let mut i: usize = 0;
    assert(out@ + uncommented(s@, 0, false) =~= uncommented(s@, 0, false));
    while i < n
        invariant
            i <= n,
            n == s@.len(),
            out@ + uncommented(s@, i as int, in_str) == uncommented(s@, 0, false),
        decreases n - i,
    {
        let c = s[i];
        let ghost out0 = out@;
        let ghost i0 = i as int;
        if c == '"' {
            out.push(c);
            in_str = !in_str;
            i += 1;
            assert(out@ + uncommented(s@, i as int, in_str) =~= out0 + (seq![c] + uncommented(
                s@,
                i as int,
                in_str,
            )));
        } else if !in_str && c == '/' && i + 1 < n && s[i + 1] == '/' {
            i += 2;
            while i < n && s[i] != '\n'
                invariant
                    i0 + 2 <= i <= n,
                    n == s@.len(),
                    line_end(s@, i as int) == line_end(s@, i0 + 2),
                decreases n - i,
            {
                i += 1;
            }
        } else if !in_str && c == '/' && i + 1 < n && s[i + 1] == '*' {
            i += 2;
            let mut closed = false;
            while n - i > 1 && !closed
                invariant
                    i0 + 2 <= i <= n,
                    n == s@.len(),
                    !closed ==> block_comment_end(s@, i as int) == block_comment_end(s@, i0 + 2),
                    closed ==> i as int == block_comment_end(s@, i0 + 2),
                decreases n - i, if closed { 0int } else { 1int },
            {
                if s[i] == '*' && s[i + 1] == '/' {
                    i += 2;
                    closed = true;
                } else {
                    i += 1;
                }
            }
        } else {
            out.push(c);
            i += 1;
            assert(out@ + uncommented(s@, i as int, in_str) =~= out0 + (seq![c] + uncommented(
                s@,
                i as int,
                in_str,
            )));
        }
    }
    assert(out@ + Seq::<char>::empty() =~= out@);
    out
}

/// Splits `s` at the occurrences of `delim` outside double quotes.
pub fn split_outside_quotes(s: &[char], delim: char) -> (r: Vec<Vec<char>>)
    ensures
        r@.map_values(|p: Vec<char>| p@) == split_from(s@, delim, 0, Seq::<char>::empty(), false),
{
    let mut out: Vec<Vec<char>> = Vec::new();
    let mut cur: Vec<char> = Vec::new();
    let mut in_str = false;
    let mut i: usize = 0;
    let ghost goal = split_from(s@, delim, 0, Seq::<char>::empty(), false);
    assert(out@.map_values(|p: Vec<char>| p@) + goal =~= goal);
    while i < s.len()
        invariant
            i <= s.len(),
            out@.map_values(|p: Vec<char>| p@) + split_from(s@, delim, i as int, cur@, in_str)
                == goal,
        decreases s.len() - i,
    {
        let c = s[i];
        let ghost out0 = out@.map_values(|p: Vec<char>| p@);
        if c == '"' {
            in_str = !in_str;
            cur.push(c);
        } else if c == delim && !in_str {
            let ghost piece = cur@;
            out.push(cur);
            cur = Vec::new();
            assert(out@.map_values(|p: Vec<char>| p@) =~= out0.push(piece));
            assert(out0.push(piece) + split_from(s@, delim, i + 1, cur@, in_str) =~= out0 + (
            seq![piece] + split_from(s@, delim, i + 1, Seq::<char>::empty(), in_str)));
        } else {
            cur.push(c);
        }
        i += 1;
    }
    let ghost out0 = out@.map_values(|p: Vec<char>| p@);
    if cur.len() > 0 {
        let ghost piece = cur@;
        out.push(cur);
        assert(out@.map_values(|p: Vec<char>| p@) =~= out0 + seq![piece]);
    } else {
        assert(out0 + Seq::<Seq<char>>::empty() =~= out0);
    }
    out
}

/// Finds the first `needle` in `s` that stands outside double quotes.
pub fn find_outside_quotes(s: &[char], needle: char) -> (r: Option<usize>)
    ensures
        match r {
            Some(k) => find_outside(s@, needle, 0, false) == Some(k as int),
            None => find_outside(s@, needle, 0, false) is None,
        },
{
    let mut in_str = false;
    let mut i: usize = 0;
    while i < s.len()
        invariant
            i <= s.len(),
            find_outside(s@, needle, i as int, in_str) == find_outside(s@, needle, 0, false),
        decreases s.len() - i,
    {
        let c = s[i];
        if c == '"' {
            in_str = !in_str;
        } else if c == needle && !in_str {
            return Some(i);
        }
        i += 1;
    }
    None
}

fn parse_assignment(stmt: &[char]) -> (r: Option<(String, String)>)
    ensures
        match r {
            Some((k, v)) => assignment_of(stmt@) == Some((k@, v@)),
            None => assignment_of(stmt@) is None,
        },
{
    let t = trim_chars(stmt, Trim::White);
    proof {
        lemma_find_outside(t@, '=', 0, false);
    }
    match find_outside_quotes(t.as_slice(), '=') {
        None => None,
        Some(eq) => {
            let tn = t.len();
            let left = slice_chars(t.as_slice(), 0, eq);
            let right = slice_chars(t.as_slice(), eq + 1, t.len());
            let key = trim_chars(left.as_slice(), Trim::White);
            let val = trim_chars(right.as_slice(), Trim::White);
            if key.len() == 0 || val.len() == 0 {
                return None;
            }
            let bare = trim_chars(val.as_slice(), Trim::Quotes);
            Some((from_chars(key.as_slice()), from_chars(bare.as_slice())))
        },
    }
}

/// Adds the assignments that `text` holds to `out`; a key that `out` holds
/// already keeps its value.
pub fn parse_cpp_assignments(text: &str, out: &mut StringMap)
    ensures
        final(out)@ == with_text(old(out)@, text@),
{
    let chars = to_chars(text);
    let stripped = strip_comments(chars.as_slice());
    let stmts = split_outside_quotes(stripped.as_slice(), ';');
    let ghost all = stmts@.map_values(|p: Vec<char>| p@);
    let ghost goal = with_text(out@, text@);
    let mut i: usize = 0;
    while i < stmts.len()
        invariant
            i <= stmts.len(),
            all == stmts@.map_values(|p: Vec<char>| p@),
            with_assignments(out@, all, i as int) == goal,
        decreases stmts.len() - i,
    {
        assert(all[i as int] == stmts@[i as int]@);
        match parse_assignment(stmts[i].as_slice()) {
            Some((k, v)) => {
                out.insert_if_absent(k, v);
            },
            None => {},
        }
        i += 1;
    }
}

/// A mod's metadata: the assignments found in its `*.cpp` files.
#[derive(Clone, Debug)]
pub struct ModMeta {
    /// The values by key.
    pub kv: StringMap,
}

impl View for ModMeta {
    type V = Map<Seq<char>, Seq<char>>;

    open spec fn view(&self) -> Map<Seq<char>, Seq<char>> {
        self.kv@
    }
}

/// Whether `m` holds a value for `k` that is more than white space.
pub open spec fn has_text(m: Map<Seq<char>, Seq<char>>, k: Seq<char>) -> bool {
    m.contains_key(k) && trimmed(m[k], Trim::White).len() > 0
}

/// The name under which a mod is shown: the first of `name`, `dir`,
/// `tooltip` and `publishedid` that holds more than white space, else
/// `fallback`.
pub open spec fn name_of(m: Map<Seq<char>, Seq<char>>, fallback: Seq<char>) -> Seq<char> {
    if has_text(m, "name"@) {
        m["name"@]
    } else if has_text(m, "dir"@) {
        m["dir"@]
    } else if has_text(m, "tooltip"@) {
        m["tooltip"@]
    } else if has_text(m, "publishedid"@) {
        m["publishedid"@]
    } else {
        fallback
    }
}

impl ModMeta {
    /// Metadata without any value.
    pub fn new() -> (r: Self)
        ensures
            r@ == Map::<Seq<char>, Seq<char>>::empty(),
    {
        ModMeta { kv: StringMap::new() }
    }

    fn text_of(&self, key: &str) -> (r: Option<String>)
        ensures
            match r {
                Some(v) => has_text(self@, key@) && v@ == self@[key@],
                None => !has_text(self@, key@),
            },
    {
        match self.kv.get(key) {
            Some(v) => {
                let chars = to_chars(v.as_str());
                let t = trim_chars(chars.as_slice(), Trim::White);
                if t.len() > 0 {
                    Some(v.clone())
                } else {
                    None
                }
            },
            None => None,
        }
    }

    /// The name under which the mod is shown.
    pub fn name_or(&self, fallback: &str) -> (r: String)
        ensures
            r@ == name_of(self@, fallback@),
    {
        match self.text_of("name") {
            Some(v) => {
                return v;
            },
            None => {},
        }
        match self.text_of("dir") {
            Some(v) => {
                return v;
            },
            None => {},
        }
        match self.text_of("tooltip") {
            Some(v) => {
                return v;
            },
            None => {},
        }
        match self.text_of("publishedid") {
            Some(v) => {
                return v;
            },
            None => {},
        }
        fallback.to_owned()
    }
}

/// Whether a directory entry of this name is read for metadata: a name
/// that ends in `.cpp` and is longer than that.
pub open spec fn is_cpp_name(name: Seq<char>) -> bool {
    name.len() > ".cpp"@.len() && matches_at(name, name.len() - ".cpp"@.len(), ".cpp"@)
}

/// What reading the entries from index `i` on adds to `m`: the
/// assignments of every regular file with a `.cpp` name, in the order of
/// the entries; or the path of the first such file that cannot be read.
pub open spec fn with_entries(
    host: &Host,
    dir: Seq<char>,
    names: Seq<String>,
    m: Map<Seq<char>, Seq<char>>,
    i: int,
) -> Result<Map<Seq<char>, Seq<char>>, Seq<char>>
    decreases names.len() - i,
{
    if i < 0 || i >= names.len() {
        Ok(m)
    } else {
        let p = joined(host.platform, dir, names[i]@);
        if is_cpp_name(names[i]@) && host.has_file(p) {
            match host.file_text(p) {
                Some(text) => with_entries(host, dir, names, with_text(m, text), i + 1),
                None => Err(p),
            }
        } else {
            with_entries(host, dir, names, m, i + 1)
        }
    }
}

/// `m` with the directory's own name as `publishedid` where `m` has none.
pub open spec fn with_published_id(host: &Host, dir: Seq<char>, m: Map<Seq<char>, Seq<char>>)
    -> Map<Seq<char>, Seq<char>> {
    if m.contains_key("publishedid"@) {
        m
    } else {
        match file_name_of(host.platform, dir) {
            Some(name) => m.insert("publishedid"@, name),
            None => m,
        }
    }
}

/// The metadata of the mod in `dir`, or the path of the file that cannot
/// be read.
pub open spec fn meta_of(host: &Host, dir: Seq<char>) -> Result<
    Map<Seq<char>, Seq<char>>,
    Seq<char>,
> {
    match host.dir_children(dir) {
        None => Ok(Map::<Seq<char>, Seq<char>>::empty()),
        Some(names) => match with_entries(
            host,
            dir,
            names,
            Map::<Seq<char>, Seq<char>>::empty(),
            0,
        ) {
            Ok(m) => Ok(with_published_id(host, dir, m)),
            Err(p) => Err(p),
        },
    }
}

/// Executable form of [`is_cpp_name`].
pub fn cpp_name(name: &str) -> (r: bool)
    ensures
        r == is_cpp_name(name@),
{
    let n = to_chars(name);
    let ext = to_chars(".cpp");
    if n.len() <= ext.len() {
        return false;
    }
    starts_with_at(n.as_slice(), n.len() - ext.len(), ext.as_slice())
}

/// Reads the metadata of the mod in `mod_dir`.
///
/// Fails with `InvalidModDir` where `mod_dir` is no mod directory, and
/// with `Io` where one of its `*.cpp` files cannot be read.
pub fn read_mod_meta(host: &Host, mod_dir: &str) -> (r: Result<ModMeta, Arma3Error>)
    ensures
        match r {
            Ok(meta) => is_mod_dir(host, mod_dir@) && meta_of(host, mod_dir@) == Ok::<
                Map<Seq<char>, Seq<char>>,
                Seq<char>,
            >(meta@),
            Err(Arma3Error::InvalidModDir { path }) => !is_mod_dir(host, mod_dir@) && path@
                == mod_dir@,
            Err(Arma3Error::Io { message }) => is_mod_dir(host, mod_dir@) && (meta_of(
                host,
                mod_dir@,
            ) matches Err(p) && message@ == "failed reading "@ + p),
            Err(_) => false,
        },
{
    match validate_local_mod_dir(host, mod_dir) {
        Ok(()) => {},
        Err(e) => {
            return Err(e);
        },
    }
    let mut meta = ModMeta::new();
    let names = match host.read_dir(mod_dir) {
        Some(n) => n,
        None => {
            return Ok(meta);
        },
    };
    let ghost goal = with_entries(
        host,
        mod_dir@,
        names@,
        Map::<Seq<char>, Seq<char>>::empty(),
        0,
    );
    let mut i: usize = 0;
    while i < names.len()
        invariant
            i <= names.len(),
            is_mod_dir(host, mod_dir@),
            host.dir_children(mod_dir@) == Some(names@),
            goal == with_entries(host, mod_dir@, names@, Map::<Seq<char>, Seq<char>>::empty(), 0),
            with_entries(host, mod_dir@, names@, meta@, i as int) == goal,
        decreases names.len() - i,
    {
        let p = join(host.platform, mod_dir, names[i].as_str());
        if cpp_name(names[i].as_str()) && host.is_file(p.as_str()) {
            match host.read_to_string(p.as_str()) {
                Some(text) => {
                    parse_cpp_assignments(text.as_str(), &mut meta.kv);
                },
                None => {
                    assert(with_entries(host, mod_dir@, names@, meta@, i as int) == Err::<
                        Map<Seq<char>, Seq<char>>,
                        Seq<char>,
                    >(p@));
                    return Err(Arma3Error::Io { message: concat_str("failed reading ", p.as_str()) });
                },
            }
        }
        i += 1;
    }
    if !meta.kv.contains_key("publishedid") {
        match file_name(host.platform, mod_dir) {
            Some(name) => {
                meta.kv.insert("publishedid".to_owned(), name);
            },
            None => {},
        }
    }
    Ok(meta)
}

} // verus!
