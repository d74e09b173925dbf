//! Finding the game's directory on the machine.

use crate::host::Host;
use crate::install::detect::{detect_install_candidates, install_dirs};
use crate::platform::path::{parent, parent_of, Platform};
use crate::text::strings_view;
use vstd::prelude::*;

verus! {

/// The directories of the installations found on the machine, the most
/// likely first: the directory that `ARMA3_DIR` names, the game's
/// directory in each Steam library, and the platform's usual places; each
/// only where it is a valid installation, and none twice.
pub fn detect_arma3_install_candidates(host: &Host) -> (r: Vec<String>)
    ensures
        strings_view(r@) == install_dirs(host),
{
    let installs = detect_install_candidates(host);
    let mut out: Vec<String> = Vec::new();
    let mut i: usize = 0;
    while i < installs.len()
        invariant
            i <= installs.len(),
            installs@.len() == install_dirs(host).len(),
            forall|k: int|
                0 <= k < installs@.len() ==> (#[trigger] installs@[k])@.game_dir == install_dirs(
                    host,
                )[k],
            strings_view(out@) == install_dirs(host).subrange(0, i as int),
        decreases installs.len() - i,
    {
        let ghost before = strings_view(out@);
        out.push(installs[i].game_dir().to_owned());
        assert(strings_view(out@) =~= before.push(installs@[i as int]@.game_dir));
        assert(strings_view(out@) =~= install_dirs(host).subrange(0, i + 1));
        i += 1;
    }
    assert(install_dirs(host).subrange(0, installs.len() as int) =~= install_dirs(host));
    out
}

/// The directory of the most likely installation, if any is found.
pub fn detect_arma3_install_path(host: &Host) -> (r: Option<String>)
    ensures
        match r {
            Some(p) => install_dirs(host).len() > 0 && p@ == install_dirs(host)[0],
            None => install_dirs(host).len() == 0,
        },
{
    let mut all = detect_arma3_install_candidates(host);
    if all.len() == 0 {
        None
    } else {
        let p = all.swap_remove(0);
        assert(strings_view(all@.push(p)).len() >= 0);
        Some(p)
    }
}

/// The installation directory to use: the one provided, else the most
/// likely one found on the machine.
pub fn find_install_dir(host: &Host, provided: Option<String>) -> (r: Option<String>)
    ensures
        match provided {
            Some(p) => r == Some(p),
            None => match r {
                Some(p) => install_dirs(host).len() > 0 && p@ == install_dirs(host)[0],
                None => install_dirs(host).len() == 0,
            },
        },
{
    match provided {
        Some(p) => Some(p),
        None => detect_arma3_install_path(host),
    }
}

/// The game's directory for an executable: the directory that holds it.
pub fn infer_game_dir_from_exe(platform: Platform, exe: &str) -> (r: Option<String>)
    ensures
        match r {
            Some(dir) => parent_of(platform, exe@) == Some(dir@),
            None => parent_of(platform, exe@) is None,
        },
{
    parent(platform, exe)
}

} // verus!
