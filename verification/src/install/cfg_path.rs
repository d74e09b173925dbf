//! Where the game keeps its settings file.

use crate::error::Arma3Error;
use crate::host::Host;
use crate::install::InstallKind;
use crate::platform::path::{join, joined, Platform};
use crate::steam::consts::PROTON_ARMA3_CFG_REL;
use crate::steam::paths::{
    compatdata_dir_in_library, compatdata_of, library_root_of, relative_compatdata_dir,
    relative_compatdata_of, steam_library_root_from_game_dir,
};
use vstd::prelude::*;

verus! {

/// The settings file's place under a Linux home directory.
pub open spec fn native_cfg_rel() -> Seq<char> {
    ".local/share/bohemiainteractive/arma3/GameDocuments/Arma 3/Arma3.cfg"@
}

/// The compatibility data of the game in `game_dir`: under the library
/// root where the directory lies in Steam's usual layout, else three levels
/// up.
pub open spec fn compatdata_for(platform: Platform, game_dir: Seq<char>) -> Seq<char> {
    match library_root_of(platform, game_dir) {
        Some(root) => compatdata_of(platform, root),
        None => relative_compatdata_of(platform, game_dir),
    }
}

/// The home directory: on Linux the variable `HOME`; else the message of
/// the failure.
pub open spec fn home_of(host: &Host) -> Result<Seq<char>, Seq<char>> {
    if host.platform == Platform::Linux {
        match host.env_var("HOME"@) {
            Some(h) => Ok(h),
            None => Err("HOME environment variable is not set"@),
        }
    } else {
        Err("home_dir() is not supported on this platform"@)
    }
}

/// The settings file's usual place for a game of `kind` in `game_dir`, or
/// the message of the failure.
pub open spec fn cfg_path_of(host: &Host, kind: InstallKind, game_dir: Seq<char>) -> Result<
    Seq<char>,
    Seq<char>,
> {
    match kind {
        InstallKind::LinuxProton => if host.platform == Platform::Linux {
            Ok(
                joined(
                    host.platform,
                    compatdata_for(host.platform, game_dir),
                    PROTON_ARMA3_CFG_REL@,
                ),
            )
        } else {
            Err("LinuxProton cfg path is only supported on Linux builds"@)
        },
        InstallKind::LinuxNative => match home_of(host) {
            Ok(h) => Ok(joined(host.platform, h, native_cfg_rel())),
            Err(m) => Err(m),
        },
        InstallKind::WindowsNative => match host.documents {
            Some(d) => Ok(
                joined(host.platform, joined(host.platform, d@, "Arma 3"@), "Arma3.cfg"@),
            ),
            None => Err("cannot locate Documents directory"@),
        },
    }
}

/// The user's home directory.
pub fn home_dir(host: &Host) -> (r: Result<String, Arma3Error>)
    ensures
        match r {
            Ok(h) => home_of(host) == Ok::<Seq<char>, Seq<char>>(h@),
            Err(Arma3Error::Parse { message }) => home_of(host) == Err::<Seq<char>, Seq<char>>(
                message@,
            ),
            Err(_) => false,
        },
{
    if host.platform == Platform::Linux {
        match host.var("HOME") {
            Some(h) => Ok(h),
            None => Err(
                Arma3Error::Parse { message: "HOME environment variable is not set".to_owned() },
            ),
        }
    } else {
        Err(
            Arma3Error::Parse {
                message: "home_dir() is not supported on this platform".to_owned(),
            },
        )
    }
}

/// The compatibility data of the game in `game_dir`.
pub fn compatdata_dir_for_game_dir(platform: Platform, game_dir: &str) -> (r: String)
    ensures
        r@ == compatdata_for(platform, game_dir@),
{
    match steam_library_root_from_game_dir(platform, game_dir) {
        Some(root) => compatdata_dir_in_library(platform, root.as_str()),
        None => relative_compatdata_dir(platform, game_dir),
    }
}

/// The settings file of a game in `game_dir` that runs under Proton.
pub fn proton_cfg_path_for_game_dir(platform: Platform, game_dir: &str) -> (r: String)
    ensures
        r@ == joined(platform, compatdata_for(platform, game_dir@), PROTON_ARMA3_CFG_REL@),
{
    let c = compatdata_dir_for_game_dir(platform, game_dir);
    join(platform, c.as_str(), PROTON_ARMA3_CFG_REL)
}

/// The settings file's usual place for a game of `kind` in `game_dir`:
/// under Proton inside the compatibility data, natively on Linux under the
/// home directory, on Windows under the documents directory.
pub fn default_cfg_path(host: &Host, kind: InstallKind, game_dir: &str) -> (r: Result<
    String,
    Arma3Error,
>)
    ensures
        match r {
            Ok(p) => cfg_path_of(host, kind, game_dir@) == Ok::<Seq<char>, Seq<char>>(p@),
            Err(Arma3Error::Parse { message }) => cfg_path_of(host, kind, game_dir@) == Err::<
                Seq<char>,
                Seq<char>,
            >(message@),
            Err(_) => false,
        },
{
    match kind {
        InstallKind::LinuxProton => {
            if host.platform == Platform::Linux {
                Ok(proton_cfg_path_for_game_dir(host.platform, game_dir))
            } else {
                Err(
                    Arma3Error::Parse {
                        message: "LinuxProton cfg path is only supported on Linux builds".to_owned(),
                    },
                )
            }
        },
        InstallKind::LinuxNative => {
            match home_dir(host) {
                Ok(home) => Ok(
                    join(
                        host.platform,
                        home.as_str(),
                        ".local/share/bohemiainteractive/arma3/GameDocuments/Arma 3/Arma3.cfg",
                    ),
                ),
                Err(e) => Err(e),
            }
        },
        InstallKind::WindowsNative => {
            match &host.documents {
                Some(d) => {
                    let dir = join(host.platform, d.as_str(), "Arma 3");
                    Ok(join(host.platform, dir.as_str(), "Arma3.cfg"))
                },
                None => Err(
                    Arma3Error::Parse { message: "cannot locate Documents directory".to_owned() },
                ),
            }
        },
    }
}

} // verus!
