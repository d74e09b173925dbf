//! The settings file and the block in it that this library owns.

pub mod laws;
pub mod modlauncherlist;
pub mod strip;

use crate::cfg::modlauncherlist::{block_text, build_modlauncherlist_block, items_of};
use crate::cfg::strip::{fault_message, strip_cpp_class, strip_text, Bounds};
use crate::error::Arma3Error;
use crate::host::Host;
use crate::install::{Arma3Install, InstallKind};
use crate::mods::ModSet;
use crate::text::{append_str, from_chars, to_chars, trim_chars, trimmed, Trim};
use vstd::prelude::*;

verus! {

/// How the settings file is written.
#[derive(Clone, Copy, Debug, PartialEq, Eq, Structural)]
pub enum CfgMode {
    /// Keep what the file holds, but for an earlier block of the mod list,
    /// and append the new block.
    MergeOrCreate,
    /// Replace the whole file by the new block.
    Overwrite,
}

/// The paths that belong to the settings file.
#[derive(Clone, Debug)]
pub struct CfgPaths {
    /// The settings file.
    pub cfg_path: String,
}

/// The declaration of the block that the library owns.
pub open spec fn owned_decl() -> Seq<char> {
    "class ModLauncherList"@
}

/// What the settings file is to hold: `block` and a line feed alone where
/// the mode is `Overwrite` or nothing but white space is left of
/// `existing` once its earlier block is removed; else what is left, an
/// empty line, `block` and a line feed. Where the earlier block is
/// malformed, its fault.
pub open spec fn new_cfg_text(mode: CfgMode, existing: Seq<char>, block: Seq<char>) -> Result<
    Seq<char>,
    Bounds,
> {
    match mode {
        CfgMode::Overwrite => Ok(block + seq!['\n']),
        CfgMode::MergeOrCreate => match strip_text(existing, owned_decl()) {
            Ok(rest) => if trimmed(rest, Trim::White).len() == 0 {
                Ok(block + seq!['\n'])
            } else {
                Ok(rest + seq!['\n', '\n'] + block + seq!['\n'])
            },
            Err(fault) => Err(fault),
        },
    }
}

/// Computes what the settings file is to hold, from what it holds now and
/// the new block. A file that does not exist yet holds nothing.
pub fn render_cfg(mode: CfgMode, existing: &str, block: &str) -> (r: Result<String, Arma3Error>)
    ensures
        match r {
            Ok(text) => new_cfg_text(mode, existing@, block@) == Ok::<Seq<char>, Bounds>(text@),
            Err(e) => new_cfg_text(mode, existing@, block@) matches Err(fault) && (
            e matches Arma3Error::MalformedBlock { message } && message@ == fault_message(fault)),
        },
{
    let mut out: Vec<char> = Vec::new();
    match mode {
        CfgMode::Overwrite => {
            append_str(&mut out, block);
            out.push('\n');
            assert(out@ =~= block@ + seq!['\n']);
        },
        CfgMode::MergeOrCreate => {
            proof {
                reveal_strlit("class ModLauncherList");
            }
            let stripped = match strip_cpp_class(existing, "class ModLauncherList") {
                Ok(s) => s,
                Err(e) => {
                    return Err(e);
                },
            };
            let rest = to_chars(stripped.as_str());
            let t = trim_chars(rest.as_slice(), Trim::White);
            if t.len() == 0 {
                append_str(&mut out, block);
                out.push('\n');
                assert(out@ =~= block@ + seq!['\n']);
            } else {
                append_str(&mut out, stripped.as_str());
                out.push('\n');
                out.push('\n');
                append_str(&mut out, block);
                out.push('\n');
                assert(out@ =~= stripped@ + seq!['\n', '\n'] + block@ + seq!['\n']);
            }
        },
    }
    Ok(from_chars(out.as_slice()))
}

/// What the file `cfg_path` holds in the snapshot; nothing where it is
/// missing or cannot be read.
pub open spec fn existing_text(host: &Host, cfg_path: Seq<char>) -> Seq<char> {
    match host.file_text(cfg_path) {
        Some(t) => t,
        None => Seq::<char>::empty(),
    }
}

/// Computes what the settings file `cfg_path` is to hold so that it lists
/// `mods`. The caller writes the text to the file.
pub fn write_cfg(host: &Host, cfg_path: &str, mode: CfgMode, install: &Arma3Install, mods: &ModSet)
    -> (r: Result<String, Arma3Error>)
    ensures
        match r {
            Ok(text) => new_cfg_text(
                mode,
                existing_text(host, cfg_path@),
                block_text(items_of(host, install@.kind == InstallKind::LinuxProton, mods@)),
            ) == Ok::<Seq<char>, Bounds>(text@),
            Err(e) => new_cfg_text(
                mode,
                existing_text(host, cfg_path@),
                block_text(items_of(host, install@.kind == InstallKind::LinuxProton, mods@)),
            ) matches Err(fault) && (e matches Arma3Error::MalformedBlock { message } && message@
                == fault_message(fault)),
        },
{
    let block = match build_modlauncherlist_block(host, install, mods) {
        Ok(b) => b,
        Err(e) => {
            return Err(e);
        },
    };
    let existing = match host.read_to_string(cfg_path) {
        Some(t) => t,
        None => String::new(),
    };
    render_cfg(mode, existing.as_str(), block.as_str())
}

} // verus!
