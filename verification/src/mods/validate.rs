//! What makes a directory a mod.

use crate::error::Arma3Error;
use crate::host::Host;
use crate::platform::path::{join, joined};
use vstd::prelude::*;

verus! {

/// Whether `path` is a mod directory: a directory that holds an `addons`
/// directory with at least one entry.
pub open spec fn is_mod_dir(host: &Host, path: Seq<char>) -> bool {
    host.has_dir(path) && (match host.dir_children(joined(host.platform, path, "addons"@)) {
        Some(entries) => entries.len() > 0,
        None => false,
    })
}

/// Checks that `path` is a mod directory.
pub fn validate_local_mod_dir(host: &Host, path: &str) -> (r: Result<(), Arma3Error>)
    ensures
        match r {
            Ok(()) => is_mod_dir(host, path@),
            Err(Arma3Error::InvalidModDir { path: p }) => !is_mod_dir(host, path@) && p@ == path@,
            Err(_) => false,
        },
{
    if !host.is_dir(path) {
        return Err(Arma3Error::InvalidModDir { path: path.to_owned() });
    }
    let addons = join(host.platform, path, "addons");
    match host.read_dir(addons.as_str()) {
        Some(entries) => {
            if entries.len() == 0 {
                return Err(Arma3Error::InvalidModDir { path: path.to_owned() });
            }
            Ok(())
        },
        None => Err(Arma3Error::InvalidModDir { path: path.to_owned() }),
    }
}

} // verus!
