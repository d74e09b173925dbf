//! Building the block of the settings file that lists the enabled mods.

use crate::error::Arma3Error;
use crate::host::Host;
use crate::install::{Arma3Install, InstallKind};
use crate::mods::meta::{meta_of, name_of, read_mod_meta, ModMeta};
use crate::mods::validate::is_mod_dir;
use crate::mods::{mod_paths, LocalMod, ModSet};
use crate::platform::path::{arma_path, arma_path_string, file_name, file_name_of, Platform};
use crate::text::{append_chars, append_str, decimal, from_chars, push_decimal, to_chars};
use vstd::prelude::*;

verus! {

/// What one entry of the block holds.
pub struct BlockItem {
    /// The name of the mod's directory.
    pub dir: Seq<char>,
    /// The name under which the mod is shown.
    pub name: Seq<char>,
    /// The mod's path in the form that the game expects.
    pub full_path: Seq<char>,
}

/// One entry of the block, as the library holds it.
#[derive(Clone, Debug)]
pub struct ModEntry {
    /// The name of the mod's directory.
    pub dir: String,
    /// The name under which the mod is shown.
    pub name: String,
    /// The mod's path in the form that the game expects.
    pub full_path: String,
}

impl View for ModEntry {
    type V = BlockItem;

    open spec fn view(&self) -> BlockItem {
        BlockItem { dir: self.dir@, name: self.name@, full_path: self.full_path@ }
    }
}

/// The views of the entries of `v`, in order.
pub open spec fn entry_views(v: Seq<ModEntry>) -> Seq<BlockItem> {
    v.map_values(|e: ModEntry| e@)
}

/// What stands for `c` inside a quoted value: a backslash before a
/// backslash and before a double quote.
pub open spec fn escaped_char(c: char) -> Seq<char> {
    if c == '\\' {
        seq!['\\', '\\']
    } else if c == '"' {
        seq!['\\', '"']
    } else {
        seq![c]
    }
}

/// `s` as it stands inside a quoted value.
pub open spec fn escaped(s: Seq<char>) -> Seq<char>
    decreases s.len(),
{
    if s.len() == 0 {
        Seq::<char>::empty()
    } else {
        escaped(s.drop_last()) + escaped_char(s.last())
    }
}

/// `s` with every double quote turned into an underscore.
pub open spec fn unquoted(s: Seq<char>) -> Seq<char> {
    Seq::new(s.len(), |i: int| if s[i] == '"' { '_' } else { s[i] })
}

/// The entry with number `n` for `item`.
pub open spec fn entry_text(n: nat, item: BlockItem) -> Seq<char> {
    "    class Mod"@ + decimal(n) + "\n    {\n        dir=\""@ + escaped(item.dir)
        + "\";\n        name=\""@ + escaped(item.name)
        + "\";\n        origin=\"GAME DIR\";\n        fullPath=\""@ + escaped(item.full_path)
        + "\";\n    };\n"@
}

/// The entries for the first `n` items, numbered from 1 in their order.
pub open spec fn entries_text(items: Seq<BlockItem>, n: int) -> Seq<char>
    decreases n,
{
    if n <= 0 || n > items.len() {
        Seq::<char>::empty()
    } else {
        entries_text(items, n - 1) + entry_text(n as nat, items[n - 1])
    }
}

/// The block for `items`.
pub open spec fn block_text(items: Seq<BlockItem>) -> Seq<char> {
    "class ModLauncherList\n{\n"@ + entries_text(items, items.len() as int) + "};"@
}

/// The metadata that the block uses for the mod in `dir`: what its files
/// hold, or nothing where they cannot be read.
pub open spec fn meta_or_empty(host: &Host, dir: Seq<char>) -> Map<Seq<char>, Seq<char>> {
    if is_mod_dir(host, dir) {
        match meta_of(host, dir) {
            Ok(m) => m,
            Err(_) => Map::<Seq<char>, Seq<char>>::empty(),
        }
    } else {
        Map::<Seq<char>, Seq<char>>::empty()
    }
}

/// The name of the directory `dir`, or `mod` where it has none.
pub open spec fn dir_name_of(platform: Platform, dir: Seq<char>) -> Seq<char> {
    match file_name_of(platform, dir) {
        Some(n) => n,
        None => "mod"@,
    }
}

/// The path of `dir` as the block holds it.
pub open spec fn block_path(platform: Platform, dir: Seq<char>, is_proton: bool) -> Seq<char> {
    if platform == Platform::Windows {
        dir
    } else {
        arma_path(dir, is_proton)
    }
}

/// The entry for the mod in `dir`.
pub open spec fn item_of(host: &Host, is_proton: bool, dir: Seq<char>) -> BlockItem {
    BlockItem {
        dir: dir_name_of(host.platform, dir),
        name: unquoted(name_of(meta_or_empty(host, dir), dir_name_of(host.platform, dir))),
        full_path: block_path(host.platform, dir, is_proton),
    }
}

/// The entries for the mods in `dirs`, in order.
pub open spec fn items_of(host: &Host, is_proton: bool, dirs: Seq<Seq<char>>) -> Seq<BlockItem> {
    dirs.map_values(|d: Seq<char>| item_of(host, is_proton, d))
}

/// Appends `s`, as it stands inside a quoted value, to `out`.
pub fn push_escaped(out: &mut Vec<char>, s: &[char])
    ensures
        final(out)@ == old(out)@ + escaped(s@),
{
    let ghost start = out@;
    let mut i: usize = 0;
    assert(s@.subrange(0, 0) =~= Seq::<char>::empty());
    assert(start + escaped(s@.subrange(0, 0)) =~= start);
    while i < s.len()
        invariant
            i <= s.len(),
            out@ == start + escaped(s@.subrange(0, i as int)),
        decreases s.len() - i,
    {
        let c = s[i];
        let ghost before = out@;
        if c == '\\' {
            out.push('\\');
            out.push('\\');
        } else if c == '"' {
            out.push('\\');
            out.push('"');
        } else {
            out.push(c);
        }
        proof {
            let next = s@.subrange(0, i + 1);
            assert(next.drop_last() =~= s@.subrange(0, i as int));
            assert(next.last() == c);
            assert(out@ =~= before + escaped_char(c));
            assert(out@ =~= start + escaped(next));
        }
        i += 1;
    }
    assert(s@.subrange(0, s.len() as int) =~= s@);
}

/// Escapes `s` for a quoted value of the settings file: a backslash goes
/// before every backslash and every double quote.
pub fn escape_cfg(s: &str) -> (r: String)
    ensures
        r@ == escaped(s@),
{
    let chars = to_chars(s);
    let mut out: Vec<char> = Vec::new();
    push_escaped(&mut out, chars.as_slice());
    assert(Seq::<char>::empty() + escaped(s@) =~= escaped(s@));
    from_chars(out.as_slice())
}

/// `s` with every double quote turned into an underscore.
pub fn replace_quotes(s: &str) -> (r: String)
    ensures
        r@ == unquoted(s@),
{
    let chars = to_chars(s);
    let mut out: Vec<char> = Vec::new();
    let mut i: usize = 0;
    while i < chars.len()
        invariant
            i <= chars.len(),
            chars@ == s@,
            out@ == unquoted(s@).subrange(0, i as int),
        decreases chars.len() - i,
    {
        if chars[i] == '"' {
            out.push('_');
        } else {
            out.push(chars[i]);
        }
        i += 1;
        assert(out@ =~= unquoted(s@).subrange(0, i as int));
    }
    assert(unquoted(s@).subrange(0, chars.len() as int) =~= unquoted(s@));
    from_chars(out.as_slice())
}

fn push_entry(out: &mut Vec<char>, n: u64, item: &ModEntry)
    ensures
        final(out)@ == old(out)@ + entry_text(n as nat, item@),
{
    let dir = to_chars(item.dir.as_str());
    let name = to_chars(item.name.as_str());
    let full = to_chars(item.full_path.as_str());
    append_str(out, "    class Mod");
    push_decimal(out, n);
    append_str(out, "\n    {\n        dir=\"");
    push_escaped(out, dir.as_slice());
    append_str(out, "\";\n        name=\"");
    push_escaped(out, name.as_slice());
    append_str(out, "\";\n        origin=\"GAME DIR\";\n        fullPath=\"");
    push_escaped(out, full.as_slice());
    append_str(out, "\";\n    };\n");
    assert(out@ =~= old(out)@ + entry_text(n as nat, item@));
}

/// Builds the block for `items`: one entry for each, numbered from 1 in
/// the order given.
pub fn build_block(items: &[ModEntry]) -> (r: String)
    ensures
        r@ == block_text(entry_views(items@)),
{
    let mut out: Vec<char> = Vec::new();
    append_str(&mut out, "class ModLauncherList\n{\n");
    let ghost views = entry_views(items@);
    let mut i: usize = 0;
    assert(out@ =~= "class ModLauncherList\n{\n"@ + entries_text(views, 0));
    while i < items.len()
        invariant
            i <= items.len(),
            views == entry_views(items@),
            out@ == "class ModLauncherList\n{\n"@ + entries_text(views, i as int),
        decreases items.len() - i,
    {
        let n: u64 = (i + 1) as u64;
        push_entry(&mut out, n, &items[i]);
        proof {
            assert(views[i as int] == items@[i as int]@);
            assert(out@ =~= "class ModLauncherList\n{\n"@ + entries_text(views, i + 1));
        }
        i += 1;
    }
    append_str(&mut out, "};");
    from_chars(out.as_slice())
}

/// The entry for the mod in `mod_dir`.
pub fn mod_entry(host: &Host, is_proton: bool, mod_dir: &str) -> (r: ModEntry)
    ensures
        r@ == item_of(host, is_proton, mod_dir@),
{
    let meta = match read_mod_meta(host, mod_dir) {
        Ok(m) => m,
        Err(_) => ModMeta::new(),
    };
    let dir_name = match file_name(host.platform, mod_dir) {
        Some(n) => n,
        None => "mod".to_owned(),
    };
    let shown = meta.name_or(dir_name.as_str());
    let name = replace_quotes(shown.as_str());
    let full_path = arma_path_string(host.platform, mod_dir, is_proton);
    ModEntry { dir: dir_name, name, full_path }
}

/// Builds the block that lists `mods` for `install`.
///
/// Each mod gets one entry, numbered from 1 in the order of `mods`, with
/// the name of its directory, the name under which it is shown, and its
/// path in the form that the game expects.
pub fn build_modlauncherlist_block(host: &Host, install: &Arma3Install, mods: &ModSet) -> (r:
    Result<String, Arma3Error>)
    ensures
        r matches Ok(text) && text@ == block_text(
            items_of(host, install@.kind == InstallKind::LinuxProton, mods@),
        ),
{
    let list = mods.as_slice();
    let is_proton = install.is_proton();
    let mut items: Vec<ModEntry> = Vec::new();
    let mut i: usize = 0;
    let ghost goal = items_of(host, is_proton, mods@);
    while i < list.len()
        invariant
            i <= list.len(),
            mod_paths(list@) == mods@,
            goal == items_of(host, is_proton, mods@),
            entry_views(items@) == goal.subrange(0, i as int),
        decreases list.len() - i,
    {
        let ghost before = entry_views(items@);
        let e = mod_entry(host, is_proton, list[i].path());
        items.push(e);
        proof {
            assert(mod_paths(list@)[i as int] == list@[i as int]@);
            assert(entry_views(items@) =~= before.push(goal[i as int]));
            assert(entry_views(items@) =~= goal.subrange(0, i + 1));
        }
        i += 1;
    }
    assert(goal.subrange(0, list.len() as int) =~= goal);
    Ok(build_block(items.as_slice()))
}

} // verus!
