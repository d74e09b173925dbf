//! Finding Steam on the machine: its root directory and its executable.
//!
//! Every search tries an ordered list of candidates and takes the first
//! that the snapshot confirms; a candidate that fails is passed over.

use crate::host::Host;
use crate::platform::path::{join, joined, parent, parent_of, Platform};
use crate::steam::paths::{steamapps_dir, steamapps_of};
use crate::text::{concat_str, strings_view, trim_str, trimmed, Trim};
use vstd::prelude::*;

verus! {

/// The two registry hives that Steam writes to.
#[derive(Clone, Copy, Debug, PartialEq, Eq, Structural)]
pub enum Hive {
    /// `HKEY_CURRENT_USER`.
    CurrentUser,
    /// `HKEY_LOCAL_MACHINE`.
    LocalMachine,
}

/// The full path of the value `name` of Steam's key in `hive`.
pub open spec fn steam_value_key(hive: Hive, name: Seq<char>) -> Seq<char> {
    (match hive {
        Hive::CurrentUser => "HKEY_CURRENT_USER\\Software\\Valve\\Steam\\"@,
        Hive::LocalMachine => "HKEY_LOCAL_MACHINE\\Software\\Valve\\Steam\\"@,
    }) + name
}

/// Whether `p` looks like a Steam root: it holds `steamapps`, or, unless
/// `strict`, a `config/config.vdf`.
pub open spec fn root_ok(host: &Host, p: Seq<char>, strict: bool) -> bool {
    host.has_dir(steamapps_of(host.platform, p)) || (!strict && host.has_file(
        joined(host.platform, p, "config/config.vdf"@),
    ))
}

/// The first candidate at or after index `i` that looks like a Steam root.
pub open spec fn first_root(host: &Host, cands: Seq<Seq<char>>, strict: bool, i: int) -> Option<
    Seq<char>,
>
    decreases cands.len() - i,
{
    if i < 0 || i >= cands.len() {
        None
    } else if root_ok(host, cands[i], strict) {
        Some(cands[i])
    } else {
        first_root(host, cands, strict, i + 1)
    }
}

/// The first candidate at or after index `i` that is a regular file.
pub open spec fn first_file(host: &Host, cands: Seq<Seq<char>>, i: int) -> Option<Seq<char>>
    decreases cands.len() - i,
{
    if i < 0 || i >= cands.len() {
        None
    } else if host.has_file(cands[i]) {
        Some(cands[i])
    } else {
        first_file(host, cands, i + 1)
    }
}

/// Where Steam usually lies under a Linux home directory.
pub open spec fn linux_roots(platform: Platform, home: Seq<char>) -> Seq<Seq<char>> {
    seq![
        joined(platform, home, ".steam/steam"@),
        joined(platform, home, ".steam/root"@),
        joined(platform, home, ".local/share/Steam"@),
        joined(platform, home, ".var/app/com.valvesoftware.Steam/.steam/steam"@),
        joined(platform, home, ".var/app/com.valvesoftware.Steam/.local/share/Steam"@),
    ]
}

/// Where Steam usually lies on Windows.
pub open spec fn windows_roots() -> Seq<Seq<char>> {
    seq!["C:\\Program Files (x86)\\Steam"@, "C:\\Program Files\\Steam"@]
}

/// The Steam root that the registry of `hive` names: the value `SteamPath`
/// where it holds `steamapps`, else the directory of the value `SteamExe`
/// where that holds `steamapps`. Quotes round a value are set aside.
pub open spec fn registry_root(host: &Host, hive: Hive) -> Option<Seq<char>> {
    let by_path = match host.reg_value(steam_value_key(hive, "SteamPath"@)) {
        Some(v) => if host.has_dir(steamapps_of(host.platform, trimmed(v, Trim::Quotes))) {
            Some(trimmed(v, Trim::Quotes))
        } else {
            None
        },
        None => None,
    };
    if by_path is Some {
        by_path
    } else {
        match host.reg_value(steam_value_key(hive, "SteamExe"@)) {
            Some(v) => match parent_of(host.platform, trimmed(v, Trim::Quotes)) {
                Some(dir) => if host.has_dir(steamapps_of(host.platform, dir)) {
                    Some(dir)
                } else {
                    None
                },
                None => None,
            },
            None => None,
        }
    }
}

/// The Steam executable that the registry of `hive` names: the value
/// `SteamExe` where it is a file, else `steam.exe` under the value
/// `SteamPath` where that is a file.
pub open spec fn registry_exe(host: &Host, hive: Hive) -> Option<Seq<char>> {
    let by_exe = match host.reg_value(steam_value_key(hive, "SteamExe"@)) {
        Some(v) => if host.has_file(trimmed(v, Trim::Quotes)) {
            Some(trimmed(v, Trim::Quotes))
        } else {
            None
        },
        None => None,
    };
    if by_exe is Some {
        by_exe
    } else {
        match host.reg_value(steam_value_key(hive, "SteamPath"@)) {
            Some(v) => if host.has_file(
                joined(host.platform, trimmed(v, Trim::Quotes), "steam.exe"@),
            ) {
                Some(joined(host.platform, trimmed(v, Trim::Quotes), "steam.exe"@))
            } else {
                None
            },
            None => None,
        }
    }
}

/// The root that the variable `STEAM_ROOT` names, where it holds
/// `steamapps`.
pub open spec fn override_root(host: &Host) -> Option<Seq<char>> {
    match host.env_var("STEAM_ROOT"@) {
        Some(p) => if host.has_dir(steamapps_of(host.platform, p)) {
            Some(p)
        } else {
            None
        },
        None => None,
    }
}

/// Steam's root directory: the override, else what the platform's usual
/// places give.
pub open spec fn steam_root_of(host: &Host) -> Option<Seq<char>> {
    if override_root(host) is Some {
        override_root(host)
    } else {
        match host.platform {
            Platform::Linux => match host.env_var("HOME"@) {
                Some(home) => first_root(host, linux_roots(host.platform, home), false, 0),
                None => None,
            },
            Platform::Windows => if registry_root(host, Hive::CurrentUser) is Some {
                registry_root(host, Hive::CurrentUser)
            } else if registry_root(host, Hive::LocalMachine) is Some {
                registry_root(host, Hive::LocalMachine)
            } else {
                first_root(host, windows_roots(), true, 0)
            },
            Platform::Other => None,
        }
    }
}

/// Whether Steam runs as a Flatpak: the variable `FLATPAK_ID` is set, or
/// the home directory holds Steam's Flatpak data.
pub open spec fn flatpak_steam(host: &Host) -> bool {
    host.env_var("FLATPAK_ID"@) is Some || (match host.env_var("HOME"@) {
        Some(home) => host.has_dir(
            joined(host.platform, home, ".var/app/com.valvesoftware.Steam"@),
        ),
        None => false,
    })
}

/// The executables that a Steam root may hold on Linux.
pub open spec fn linux_root_exes(platform: Platform, root: Seq<char>) -> Seq<Seq<char>> {
    seq![
        joined(platform, root, "steam.sh"@),
        joined(platform, root, "steam"@),
        joined(platform, root, "steam-runtime"@),
    ]
}

/// Where distributions install Steam's executable on Linux.
pub open spec fn linux_system_exes() -> Seq<Seq<char>> {
    seq![
        "/usr/bin/steam"@,
        "/usr/bin/steam-runtime"@,
        "/usr/lib/steam/steam"@,
        "/usr/lib/steam/steam.sh"@,
        "/usr/lib64/steam/steam"@,
        "/usr/lib64/steam/steam.sh"@,
    ]
}

/// Where Steam's executable usually lies on Windows.
pub open spec fn windows_exes() -> Seq<Seq<char>> {
    seq!["C:\\Program Files (x86)\\Steam\\steam.exe"@, "C:\\Program Files\\Steam\\steam.exe"@]
}

/// The executable that the variable `STEAM_EXE` names, where it is a file.
pub open spec fn override_exe(host: &Host) -> Option<Seq<char>> {
    match host.env_var("STEAM_EXE"@) {
        Some(p) => if host.has_file(p) {
            Some(p)
        } else {
            None
        },
        None => None,
    }
}

/// The executable found inside the detected Steam root on Linux.
pub open spec fn linux_root_exe(host: &Host) -> Option<Seq<char>> {
    match steam_root_of(host) {
        Some(root) => first_file(host, linux_root_exes(host.platform, root), 0),
        None => None,
    }
}

/// Steam's executable: the override, else what the platform's usual places
/// give, else the bare name `steam`, to be found on the search path.
pub open spec fn steam_exe_of(host: &Host) -> Seq<char> {
    if override_exe(host) is Some {
        override_exe(host)->0
    } else {
        match host.platform {
            Platform::Linux => if linux_root_exe(host) is Some {
                linux_root_exe(host)->0
            } else if first_file(host, linux_system_exes(), 0) is Some {
                first_file(host, linux_system_exes(), 0)->0
            } else {
                "steam"@
            },
            Platform::Windows => if registry_exe(host, Hive::CurrentUser) is Some {
                registry_exe(host, Hive::CurrentUser)->0
            } else if registry_exe(host, Hive::LocalMachine) is Some {
                registry_exe(host, Hive::LocalMachine)->0
            } else if first_file(host, windows_exes(), 0) is Some {
                first_file(host, windows_exes(), 0)->0
            } else {
                "steam"@
            },
            Platform::Other => "steam"@,
        }
    }
}

/// Whether `p` looks like a Steam root.
pub fn is_root(host: &Host, p: &str, strict: bool) -> (r: bool)
    ensures
        r == root_ok(host, p@, strict),
{
    let apps = steamapps_dir(host.platform, p);
    if host.is_dir(apps.as_str()) {
        return true;
    }
    if strict {
        return false;
    }
    let cfg = join(host.platform, p, "config/config.vdf");
    host.is_file(cfg.as_str())
}

/// The first of `cands` that looks like a Steam root.
pub fn find_root(host: &Host, cands: &Vec<String>, strict: bool) -> (r: Option<String>)
    ensures
        match r {
            Some(p) => first_root(host, strings_view(cands@), strict, 0) == Some(p@),
            None => first_root(host, strings_view(cands@), strict, 0) is None,
        },
{
    let mut i: usize = 0;
    while i < cands.len()
        invariant
            i <= cands.len(),
            first_root(host, strings_view(cands@), strict, 0) == first_root(
                host,
                strings_view(cands@),
                strict,
                i as int,
            ),
        decreases cands.len() - i,
    {
        if is_root(host, cands[i].as_str(), strict) {
            return Some(cands[i].clone());
        }
        i += 1;
    }
    None
}

/// The first of `cands` that is a regular file.
pub fn find_file(host: &Host, cands: &Vec<String>) -> (r: Option<String>)
    ensures
        match r {
            Some(p) => first_file(host, strings_view(cands@), 0) == Some(p@),
            None => first_file(host, strings_view(cands@), 0) is None,
        },
{
    let mut i: usize = 0;
    while i < cands.len()
        invariant
            i <= cands.len(),
            first_file(host, strings_view(cands@), 0) == first_file(
                host,
                strings_view(cands@),
                i as int,
            ),
        decreases cands.len() - i,
    {
        if host.is_file(cands[i].as_str()) {
            return Some(cands[i].clone());
        }
        i += 1;
    }
    None
}

/// The places under `home` where Steam usually lies on Linux.
pub fn linux_root_candidates(platform: Platform, home: &str) -> (r: Vec<String>)
    ensures
        strings_view(r@) == linux_roots(platform, home@),
{
    let mut r: Vec<String> = Vec::new();
    r.push(join(platform, home, ".steam/steam"));
    r.push(join(platform, home, ".steam/root"));
    r.push(join(platform, home, ".local/share/Steam"));
    r.push(join(platform, home, ".var/app/com.valvesoftware.Steam/.steam/steam"));
    r.push(join(platform, home, ".var/app/com.valvesoftware.Steam/.local/share/Steam"));
    assert(strings_view(r@) =~= linux_roots(platform, home@));
    r
}

/// The places where Steam usually lies on Windows.
pub fn windows_root_candidates() -> (r: Vec<String>)
    ensures
        strings_view(r@) == windows_roots(),
{
    let mut r: Vec<String> = Vec::new();
    r.push("C:\\Program Files (x86)\\Steam".to_owned());
    r.push("C:\\Program Files\\Steam".to_owned());
    assert(strings_view(r@) =~= windows_roots());
    r
}

/// The executables that the Steam root `root` may hold on Linux.
pub fn root_exe_candidates(platform: Platform, root: &str) -> (r: Vec<String>)
    ensures
        strings_view(r@) == linux_root_exes(platform, root@),
{
    let mut r: Vec<String> = Vec::new();
    r.push(join(platform, root, "steam.sh"));
    r.push(join(platform, root, "steam"));
    r.push(join(platform, root, "steam-runtime"));
    assert(strings_view(r@) =~= linux_root_exes(platform, root@));
    r
}

/// The places where distributions install Steam's executable on Linux.
pub fn linux_exe_candidates() -> (r: Vec<String>)
    ensures
        strings_view(r@) == linux_system_exes(),
{
    let mut r: Vec<String> = Vec::new();
    r.push("/usr/bin/steam".to_owned());
    r.push("/usr/bin/steam-runtime".to_owned());
    r.push("/usr/lib/steam/steam".to_owned());
    r.push("/usr/lib/steam/steam.sh".to_owned());
    r.push("/usr/lib64/steam/steam".to_owned());
    r.push("/usr/lib64/steam/steam.sh".to_owned());
    assert(strings_view(r@) =~= linux_system_exes());
    r
}

/// The places where Steam's executable usually lies on Windows.
pub fn windows_exe_candidates() -> (r: Vec<String>)
    ensures
        strings_view(r@) == windows_exes(),
{
    let mut r: Vec<String> = Vec::new();
    r.push("C:\\Program Files (x86)\\Steam\\steam.exe".to_owned());
    r.push("C:\\Program Files\\Steam\\steam.exe".to_owned());
    assert(strings_view(r@) =~= windows_exes());
    r
}

fn registry_value(host: &Host, hive: Hive, name: &str) -> (r: Option<String>)
    ensures
        match r {
            Some(v) => host.reg_value(steam_value_key(hive, name@)) matches Some(raw) && v@
                == trimmed(raw, Trim::Quotes),
            None => host.reg_value(steam_value_key(hive, name@)) is None,
        },
{
    let key = match hive {
        Hive::CurrentUser => concat_str("HKEY_CURRENT_USER\\Software\\Valve\\Steam\\", name),
        Hive::LocalMachine => concat_str("HKEY_LOCAL_MACHINE\\Software\\Valve\\Steam\\", name),
    };
    match host.registry_value(key.as_str()) {
        Some(v) => Some(trim_str(v.as_str(), Trim::Quotes)),
        None => None,
    }
}

/// The Steam root that the registry of `hive` names.
pub fn detect_from_registry(host: &Host, hive: Hive) -> (r: Option<String>)
    ensures
        match r {
            Some(p) => registry_root(host, hive) == Some(p@),
            None => registry_root(host, hive) is None,
        },
{
    match registry_value(host, hive, "SteamPath") {
        Some(p) => {
            let apps = steamapps_dir(host.platform, p.as_str());
            if host.is_dir(apps.as_str()) {
                return Some(p);
            }
        },
        None => {},
    }
    match registry_value(host, hive, "SteamExe") {
        Some(exe) => match parent(host.platform, exe.as_str()) {
            Some(dir) => {
                let apps = steamapps_dir(host.platform, dir.as_str());
                if host.is_dir(apps.as_str()) {
                    return Some(dir);
                }
            },
            None => {},
        },
        None => {},
    }
    None
}

/// The Steam executable that the registry of `hive` names.
pub fn detect_exe_from_registry(host: &Host, hive: Hive) -> (r: Option<String>)
    ensures
        match r {
            Some(p) => registry_exe(host, hive) == Some(p@),
            None => registry_exe(host, hive) is None,
        },
{
    match registry_value(host, hive, "SteamExe") {
        Some(p) => {
            if host.is_file(p.as_str()) {
                return Some(p);
            }
        },
        None => {},
    }
    match registry_value(host, hive, "SteamPath") {
        Some(dir) => {
            let p = join(host.platform, dir.as_str(), "steam.exe");
            if host.is_file(p.as_str()) {
                return Some(p);
            }
        },
        None => {},
    }
    None
}

/// Finds Steam's root directory.
///
/// The variable `STEAM_ROOT` wins where it names a directory that holds
/// `steamapps`. Otherwise, on Linux, the usual places under `HOME` are
/// tried; on Windows, the registry and then the usual places.
pub fn detect_steam_root(host: &Host) -> (r: Option<String>)
    ensures
        match r {
            Some(p) => steam_root_of(host) == Some(p@),
            None => steam_root_of(host) is None,
        },
{
    match host.var("STEAM_ROOT") {
        Some(p) => {
            let apps = steamapps_dir(host.platform, p.as_str());
            if host.is_dir(apps.as_str()) {
                return Some(p);
            }
        },
        None => {},
    }
    match host.platform {
        Platform::Linux => match host.var("HOME") {
            Some(home) => {
                let cands = linux_root_candidates(host.platform, home.as_str());
                find_root(host, &cands, false)
            },
            None => None,
        },
        Platform::Windows => {
            match detect_from_registry(host, Hive::CurrentUser) {
                Some(p) => {
                    return Some(p);
                },
                None => {},
            }
            match detect_from_registry(host, Hive::LocalMachine) {
                Some(p) => {
                    return Some(p);
                },
                None => {},
            }
            let cands = windows_root_candidates();
            find_root(host, &cands, true)
        },
        Platform::Other => None,
    }
}

/// Whether Steam runs as a Flatpak.
pub fn is_flatpak_steam(host: &Host) -> (r: bool)
    ensures
        r == flatpak_steam(host),
{
    if host.var("FLATPAK_ID").is_some() {
        return true;
    }
    match host.var("HOME") {
        Some(home) => {
            let p = join(host.platform, home.as_str(), ".var/app/com.valvesoftware.Steam");
            host.is_dir(p.as_str())
        },
        None => false,
    }
}

/// Finds Steam's executable; where nothing is found, the bare name `steam`.
pub fn detect_steam_exe(host: &Host) -> (r: String)
    ensures
        r@ == steam_exe_of(host),
{
    match host.var("STEAM_EXE") {
        Some(p) => {
            if host.is_file(p.as_str()) {
                return p;
            }
        },
        None => {},
    }
    match host.platform {
        Platform::Linux => {
            match detect_steam_root(host) {
                Some(root) => {
                    let cands = root_exe_candidates(host.platform, root.as_str());
                    match find_file(host, &cands) {
                        Some(p) => {
                            return p;
                        },
                        None => {},
                    }
                },
                None => {},
            }
            let cands = linux_exe_candidates();
            match find_file(host, &cands) {
                Some(p) => p,
                None => "steam".to_owned(),
            }
        },
        Platform::Windows => {
            match detect_exe_from_registry(host, Hive::CurrentUser) {
                Some(p) => {
                    return p;
                },
                None => {},
            }
            match detect_exe_from_registry(host, Hive::LocalMachine) {
                Some(p) => {
                    return p;
                },
                None => {},
            }
            let cands = windows_exe_candidates();
            match find_file(host, &cands) {
                Some(p) => p,
                None => "steam".to_owned(),
            }
        },
        Platform::Other => "steam".to_owned(),
    }
}

} // verus!
