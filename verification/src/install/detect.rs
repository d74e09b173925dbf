//! Finding installations of the game on the machine.
//!
//! The search is best effort: every candidate is validated on its own, and
//! one that fails is passed over.

use crate::host::Host;
use crate::install::{is_install, Arma3Install};
use crate::platform::path::{join, joined, Platform};
use crate::steam::consts::ARMA3_STEAM_GAME_DIR_NAME;
use crate::steam::detect::{linux_root_candidates, linux_roots};
use crate::steam::library::{detect_steam_library_roots, library_roots_of};
use crate::steam::paths::{arma3_game_dir_in_library, game_dir_of};
use crate::text::{str_eq, strings_view};
use vstd::prelude::*;

verus! {

/// The directory that the variable `ARMA3_DIR` names, if it is set.
pub open spec fn override_dirs(host: &Host) -> Seq<Seq<char>> {
    match host.env_var("ARMA3_DIR"@) {
        Some(p) => seq![p],
        None => Seq::<Seq<char>>::empty(),
    }
}

/// The game's directory in each of Steam's library roots.
pub open spec fn library_dirs(host: &Host) -> Seq<Seq<char>> {
    library_roots_of(host).map_values(|r: Seq<char>| game_dir_of(host.platform, r))
}

/// The game's directory under `root`, written the way the platform's usual
/// places are: `steamapps`, `common` and the game's name, joined in turn.
pub open spec fn default_dir(host: &Host, root: Seq<char>) -> Seq<char> {
    if host.platform == Platform::Windows {
        joined(
            host.platform,
            joined(host.platform, root, "steamapps\\common"@),
            ARMA3_STEAM_GAME_DIR_NAME@,
        )
    } else {
        game_dir_of(host.platform, root)
    }
}

/// The game's directory in each of the platform's usual places for Steam.
pub open spec fn default_dirs(host: &Host) -> Seq<Seq<char>> {
    match host.platform {
        Platform::Windows => seq![
            default_dir(host, "C:\\Program Files (x86)\\Steam"@),
            default_dir(host, "C:\\Program Files\\Steam"@),
        ],
        Platform::Linux => match host.env_var("HOME"@) {
            Some(home) => linux_roots(host.platform, home).map_values(
                |r: Seq<char>| default_dir(host, r),
            ),
            None => Seq::<Seq<char>>::empty(),
        },
        Platform::Other => Seq::<Seq<char>>::empty(),
    }
}

/// Every directory that the search looks at, the most likely first.
pub open spec fn candidate_dirs(host: &Host) -> Seq<Seq<char>> {
    override_dirs(host) + library_dirs(host) + default_dirs(host)
}

/// `acc` with those of `cands` from index `i` on that are valid
/// installations and not in the result yet.
pub open spec fn valid_unique(host: &Host, cands: Seq<Seq<char>>, acc: Seq<Seq<char>>, i: int)
    -> Seq<Seq<char>>
    decreases cands.len() - i,
{
    if i < 0 || i >= cands.len() {
        acc
    } else if is_install(host, cands[i]) && !acc.contains(cands[i]) {
        valid_unique(host, cands, acc.push(cands[i]), i + 1)
    } else {
        valid_unique(host, cands, acc, i + 1)
    }
}

/// The directories of the installations that the search finds.
pub open spec fn install_dirs(host: &Host) -> Seq<Seq<char>> {
    valid_unique(host, candidate_dirs(host), Seq::<Seq<char>>::empty(), 0)
}

/// Every directory that the search looks at, the most likely first: the
/// override, the game's directory in each library root, and the platform's
/// usual places.
pub fn install_candidates(host: &Host) -> (r: Vec<String>)
    ensures
        strings_view(r@) == candidate_dirs(host),
{
    let mut out: Vec<String> = Vec::new();
    match host.var("ARMA3_DIR") {
        Some(p) => {
            out.push(p);
        },
        None => {},
    }
    assert(strings_view(out@) =~= override_dirs(host));
    let libs = detect_steam_library_roots(host);
    let mut i: usize = 0;
    while i < libs.len()
        invariant
            i <= libs.len(),
            strings_view(libs@) == library_roots_of(host),
            strings_view(out@) == override_dirs(host) + library_dirs(host).subrange(0, i as int),
        decreases libs.len() - i,
    {
        let ghost before = strings_view(out@);
        let ghost raw = out@;
        let d = arma3_game_dir_in_library(host.platform, libs[i].as_str());
        out.push(d);
        proof {
            assert(strings_view(libs@)[i as int] == libs@[i as int]@);
            assert(strings_view(out@) =~= before.push(library_dirs(host)[i as int]));
            assert(strings_view(out@) =~= override_dirs(host) + library_dirs(host).subrange(
                0,
                i + 1,
            ));
        }
        i += 1;
    }
    assert(library_dirs(host).subrange(0, libs.len() as int) =~= library_dirs(host));
    let ghost head = strings_view(out@);
    match host.platform {
        Platform::Windows => {
            let a = join(host.platform, "C:\\Program Files (x86)\\Steam", "steamapps\\common");
            out.push(join(host.platform, a.as_str(), ARMA3_STEAM_GAME_DIR_NAME));
            let b = join(host.platform, "C:\\Program Files\\Steam", "steamapps\\common");
            out.push(join(host.platform, b.as_str(), ARMA3_STEAM_GAME_DIR_NAME));
            assert(strings_view(out@) =~= head + default_dirs(host));
        },
        Platform::Linux => {
            match host.var("HOME") {
                Some(home) => {
                    let roots = linux_root_candidates(host.platform, home.as_str());
                    let mut j: usize = 0;
                    while j < roots.len()
                        invariant
                            j <= roots.len(),
                            host.platform == Platform::Linux,
                            host.env_var("HOME"@) == Some(home@),
                            strings_view(roots@) == linux_roots(host.platform, home@),
                            strings_view(out@) == head + default_dirs(host).subrange(0, j as int),
                        decreases roots.len() - j,
                    {
                        let ghost before = strings_view(out@);
                        let d = arma3_game_dir_in_library(host.platform, roots[j].as_str());
                        out.push(d);
                        proof {
                            assert(strings_view(roots@)[j as int] == roots@[j as int]@);
                            assert(strings_view(out@) =~= before.push(
                                default_dirs(host)[j as int],
                            ));
                            assert(strings_view(out@) =~= head + default_dirs(host).subrange(
                                0,
                                j + 1,
                            ));
                        }
                        j += 1;
                    }
                    assert(default_dirs(host).subrange(0, roots.len() as int) =~= default_dirs(
                        host,
                    ));
                },
                None => {
                    assert(strings_view(out@) =~= head + default_dirs(host));
                },
            }
        },
        Platform::Other => {
            assert(strings_view(out@) =~= head + default_dirs(host));
        },
    }
    out
}

fn holds_dir(list: &Vec<String>, p: &str) -> (r: bool)
    ensures
        r == strings_view(list@).contains(p@),
{
    let mut i: usize = 0;
    while i < list.len()
        invariant
            i <= list.len(),
            forall|j: int| 0 <= j < i ==> strings_view(list@)[j] != p@,
        decreases list.len() - i,
    {
        if str_eq(list[i].as_str(), p) {
            assert(strings_view(list@)[i as int] == p@);
            return true;
        }
        i += 1;
    }
    false
}

/// The installations that the search finds, the most likely first; none
/// is listed twice.
pub fn detect_install_candidates(host: &Host) -> (r: Vec<Arma3Install>)
    ensures
        r@.len() == install_dirs(host).len(),
        forall|i: int|
            0 <= i < r@.len() ==> (#[trigger] r@[i])@.game_dir == install_dirs(host)[i]
                && r@[i].valid_in(host) && r@[i]@.workshop_dir is None,
{
    let cands = install_candidates(host);
    let mut seen: Vec<String> = Vec::new();
    let mut out: Vec<Arma3Install> = Vec::new();
    let mut i: usize = 0;
    assert(strings_view(seen@) =~= Seq::<Seq<char>>::empty());
    while i < cands.len()
        invariant
            i <= cands.len(),
            strings_view(cands@) == candidate_dirs(host),
            valid_unique(host, candidate_dirs(host), strings_view(seen@), i as int)
                == install_dirs(host),
            out@.len() == seen@.len(),
            forall|k: int|
                0 <= k < out@.len() ==> (#[trigger] out@[k])@.game_dir == strings_view(seen@)[k]
                    && out@[k].valid_in(host) && out@[k]@.workshop_dir is None,
        decreases cands.len() - i,
    {
        assert(strings_view(cands@)[i as int] == cands@[i as int]@);
        match Arma3Install::new(host, cands[i].as_str(), None) {
            Ok(install) => {
                if !holds_dir(&seen, cands[i].as_str()) {
                    let ghost before = strings_view(seen@);
                    seen.push(cands[i].clone());
                    out.push(install);
                    assert(strings_view(seen@) =~= before.push(cands@[i as int]@));
                }
            },
            Err(_) => {},
        }
        i += 1;
    }
    out
}

/// The most likely installation, if the search finds any.
pub fn detect_best_install(host: &Host) -> (r: Option<Arma3Install>)
    ensures
        match r {
            Some(install) => install_dirs(host).len() > 0 && install@.game_dir == install_dirs(
                host,
            )[0] && install.valid_in(host),
            None => install_dirs(host).len() == 0,
        },
{
    let mut all = detect_install_candidates(host);
    if all.len() == 0 {
        None
    } else {
        Some(all.swap_remove(0))
    }
}

} // verus!
