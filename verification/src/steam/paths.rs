//! Where things lie inside a Steam library.

use crate::platform::path::{
    arma_path, arma_path_string, file_name, file_name_of, join, joined, parent, parent_of,
    Platform,
};
use crate::steam::consts::{ARMA3_APP_ID_STR, ARMA3_STEAM_GAME_DIR_NAME};
use crate::text::str_eq;
use vstd::prelude::*;

verus! {

/// `steamapps` under a library root.
pub open spec fn steamapps_of(platform: Platform, root: Seq<char>) -> Seq<char> {
    joined(platform, root, "steamapps"@)
}

/// `steamapps/common` under a library root.
pub open spec fn common_of(platform: Platform, root: Seq<char>) -> Seq<char> {
    joined(platform, steamapps_of(platform, root), "common"@)
}

/// The game's directory under a library root.
pub open spec fn game_dir_of(platform: Platform, root: Seq<char>) -> Seq<char> {
    joined(platform, common_of(platform, root), ARMA3_STEAM_GAME_DIR_NAME@)
}

/// The game's compatibility data under a library root.
pub open spec fn compatdata_of(platform: Platform, root: Seq<char>) -> Seq<char> {
    joined(
        platform,
        joined(platform, steamapps_of(platform, root), "compatdata"@),
        ARMA3_APP_ID_STR@,
    )
}

/// The game's workshop content under a library root.
pub open spec fn workshop_of(platform: Platform, root: Seq<char>) -> Seq<char> {
    joined(
        platform,
        joined(platform, joined(platform, steamapps_of(platform, root), "workshop"@), "content"@),
        ARMA3_APP_ID_STR@,
    )
}

/// The library root of a game directory of the form
/// `<root>/steamapps/common/<game>`; `None` for any other form.
pub open spec fn library_root_of(platform: Platform, game_dir: Seq<char>) -> Option<Seq<char>> {
    match parent_of(platform, game_dir) {
        None => None,
        Some(common) => if file_name_of(platform, common) != Some("common"@) {
            None
        } else {
            match parent_of(platform, common) {
                None => None,
                Some(steamapps) => if file_name_of(platform, steamapps) != Some("steamapps"@) {
                    None
                } else {
                    parent_of(platform, steamapps)
                },
            }
        },
    }
}

/// The compatibility data that a game directory is given where no library
/// root is known: three levels up, then down.
pub open spec fn relative_compatdata_of(platform: Platform, game_dir: Seq<char>) -> Seq<char> {
    joined(
        platform,
        joined(
            platform,
            joined(platform, joined(platform, game_dir, "../../../"@), "steamapps"@),
            "compatdata"@,
        ),
        ARMA3_APP_ID_STR@,
    )
}

/// `steamapps` under `library_root`.
pub fn steamapps_dir(platform: Platform, library_root: &str) -> (r: String)
    ensures
        r@ == steamapps_of(platform, library_root@),
{
    join(platform, library_root, "steamapps")
}

/// `steamapps/common` under `library_root`.
pub fn common_dir(platform: Platform, library_root: &str) -> (r: String)
    ensures
        r@ == common_of(platform, library_root@),
{
    let s = steamapps_dir(platform, library_root);
    join(platform, s.as_str(), "common")
}

/// The game's directory under `library_root`.
pub fn arma3_game_dir_in_library(platform: Platform, library_root: &str) -> (r: String)
    ensures
        r@ == game_dir_of(platform, library_root@),
{
    let c = common_dir(platform, library_root);
    join(platform, c.as_str(), ARMA3_STEAM_GAME_DIR_NAME)
}

/// The game's compatibility data under `library_root`.
pub fn compatdata_dir_in_library(platform: Platform, library_root: &str) -> (r: String)
    ensures
        r@ == compatdata_of(platform, library_root@),
{
    let s = steamapps_dir(platform, library_root);
    let c = join(platform, s.as_str(), "compatdata");
    join(platform, c.as_str(), ARMA3_APP_ID_STR)
}

/// The game's workshop content under `library_root`.
pub fn workshop_content_dir_in_library(platform: Platform, library_root: &str) -> (r: String)
    ensures
        r@ == workshop_of(platform, library_root@),
{
    let s = steamapps_dir(platform, library_root);
    let w = join(platform, s.as_str(), "workshop");
    let c = join(platform, w.as_str(), "content");
    join(platform, c.as_str(), ARMA3_APP_ID_STR)
}

/// The library root of a game directory that lies in Steam's usual layout,
/// `<root>/steamapps/common/<game>`.
pub fn steam_library_root_from_game_dir(platform: Platform, game_dir: &str) -> (r: Option<String>)
    ensures
        match r {
            Some(root) => library_root_of(platform, game_dir@) == Some(root@),
            None => library_root_of(platform, game_dir@) is None,
        },
{
    let common = match parent(platform, game_dir) {
        Some(c) => c,
        None => {
            return None;
        },
    };
    match file_name(platform, common.as_str()) {
        Some(n) => {
            if !str_eq(n.as_str(), "common") {
                return None;
            }
        },
        None => {
            return None;
        },
    }
    let steamapps = match parent(platform, common.as_str()) {
        Some(s) => s,
        None => {
            return None;
        },
    };
    match file_name(platform, steamapps.as_str()) {
        Some(n) => {
            if !str_eq(n.as_str(), "steamapps") {
                return None;
            }
        },
        None => {
            return None;
        },
    }
    parent(platform, steamapps.as_str())
}

/// The compatibility data three levels above `game_dir`, for a game
/// directory whose library root is not known.
pub fn relative_compatdata_dir(platform: Platform, game_dir: &str) -> (r: String)
    ensures
        r@ == relative_compatdata_of(platform, game_dir@),
{
    let up = join(platform, game_dir, "../../../");
    let s = join(platform, up.as_str(), "steamapps");
    let c = join(platform, s.as_str(), "compatdata");
    join(platform, c.as_str(), ARMA3_APP_ID_STR)
}

/// Renders a host path as the argument that the game expects: under
/// Proton with backslashes and, where absolute, on Proton's drive.
pub fn arma_path_arg(path: &str, is_proton: bool) -> (r: String)
    ensures
        r@ == arma_path(path@, is_proton),
{
    arma_path_string(Platform::Linux, path, is_proton)
}

} // verus!
