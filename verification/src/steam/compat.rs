//! The compatibility tool that Steam's configuration assigns to the game.

use crate::error::{Arma3Error, Fault};
use crate::host::Host;
use crate::platform::path::{join, joined};
use crate::steam::vdf::{filtered_values, parse_text, Vdf};
use crate::strmap::sorted_entries;
use crate::text::{concat_str, strings_view};
use vstd::prelude::*;

verus! {

/// The end that all paths of the tool's name share for the application
/// `app_id`.
pub open spec fn mapping_filter(app_id: Seq<char>) -> Seq<char> {
    "CompatToolMapping/"@ + app_id + "/name"@
}

/// The paths under which Steam has written the tool's name, the current
/// one first.
pub open spec fn mapping_keys(app_id: Seq<char>) -> Seq<Seq<char>> {
    seq![
        "InstallConfigStore/Software/Valve/Steam/"@ + mapping_filter(app_id),
        "Software/Valve/Steam/"@ + mapping_filter(app_id),
        mapping_filter(app_id),
    ]
}

/// The value of the first of `keys`, from index `i` on, that `m` holds.
pub open spec fn first_present(m: Map<Seq<char>, Seq<char>>, keys: Seq<Seq<char>>, i: int)
    -> Option<Seq<char>>
    decreases keys.len() - i,
{
    if i < 0 || i >= keys.len() {
        None
    } else if m.contains_key(keys[i]) {
        Some(m[keys[i]])
    } else {
        first_present(m, keys, i + 1)
    }
}

/// The tool's name in a parsed configuration: the value under the first
/// known path that is present; else the value of the last path, in the
/// order of paths, that holds the shared end; else nothing.
pub open spec fn shortname_in(m: Map<Seq<char>, Seq<char>>, app_id: Seq<char>) -> Option<
    Seq<char>,
> {
    match first_present(m, mapping_keys(app_id), 0) {
        Some(v) => Some(v),
        None => {
            let found = filtered_values(sorted_entries(m), mapping_filter(app_id));
            if found.len() > 0 {
                Some(found.last())
            } else {
                None
            }
        },
    }
}

/// The path of Steam's configuration under `steam_root`.
pub open spec fn config_path_of(host: &Host, steam_root: Seq<char>) -> Seq<char> {
    joined(host.platform, steam_root, "config/config.vdf"@)
}

/// The tool's name as `host` shows it, or the fault.
pub open spec fn shortname_of(host: &Host, steam_root: Seq<char>, app_id: Seq<char>) -> Result<
    Seq<char>,
    Fault,
> {
    match host.file_text(config_path_of(host, steam_root)) {
        None => Err(Fault::SteamConfig("failed reading "@ + config_path_of(host, steam_root))),
        Some(text) => match parse_text(text) {
            None => Err(Fault::SteamConfig("unclosed braces in VDF"@)),
            Some(m) => match shortname_in(m, app_id) {
                Some(name) => Ok(name),
                None => Err(
                    Fault::CompatConfigMissing(
                        "compatibility tool entry not found for appid "@ + app_id,
                    ),
                ),
            },
        },
    }
}

/// The directory of the tool `shortname`: among the user's tools under
/// `steam_root` first, then among the system's.
pub open spec fn tool_dir_of(host: &Host, steam_root: Seq<char>, shortname: Seq<char>) -> Option<
    Seq<char>,
> {
    let user = joined(
        host.platform,
        joined(host.platform, steam_root, "compatibilitytools.d"@),
        shortname,
    );
    let system = joined(host.platform, "/usr/share/steam/compatibilitytools.d"@, shortname);
    if host.has_dir(user) {
        Some(user)
    } else if host.has_dir(system) {
        Some(system)
    } else {
        None
    }
}

/// The path of the manifest of the tool in `tool_dir`.
pub open spec fn manifest_path_of(host: &Host, tool_dir: Seq<char>) -> Seq<char> {
    joined(host.platform, tool_dir, "toolmanifest.vdf"@)
}

/// The command line that the manifest of the tool in `tool_dir` holds, or
/// the fault.
pub open spec fn commandline_of(host: &Host, tool_dir: Seq<char>) -> Result<Seq<char>, Fault> {
    match host.file_text(manifest_path_of(host, tool_dir)) {
        None => Err(Fault::ManifestInvalid("failed reading "@ + manifest_path_of(host, tool_dir))),
        Some(text) => match parse_text(text) {
            None => Err(Fault::ManifestInvalid("unclosed braces in VDF"@)),
            Some(m) => if m.contains_key("manifest/commandline"@) {
                Ok(m["manifest/commandline"@])
            } else {
                Err(
                    Fault::ManifestInvalid(
                        "toolmanifest missing manifest/commandline in "@ + manifest_path_of(
                            host,
                            tool_dir,
                        ),
                    ),
                )
            },
        },
    }
}

/// Looks the tool's name up in a parsed configuration.
pub fn shortname_from_config(vdf: &Vdf, app_id: &str) -> (r: Option<String>)
    ensures
        match r {
            Some(name) => shortname_in(vdf@, app_id@) == Some(name@),
            None => shortname_in(vdf@, app_id@) is None,
        },
{
    let tail = concat_str("CompatToolMapping/", app_id);
    let filter = concat_str(tail.as_str(), "/name");
    let mut keys: Vec<String> = Vec::new();
    keys.push(concat_str("InstallConfigStore/Software/Valve/Steam/", filter.as_str()));
    keys.push(concat_str("Software/Valve/Steam/", filter.as_str()));
    keys.push(filter.clone());
    assert(strings_view(keys@) =~= mapping_keys(app_id@));
    let mut i: usize = 0;
    while i < keys.len()
        invariant
            i <= keys.len(),
            strings_view(keys@) == mapping_keys(app_id@),
            first_present(vdf@, mapping_keys(app_id@), i as int) == first_present(
                vdf@,
                mapping_keys(app_id@),
                0,
            ),
        decreases keys.len() - i,
    {
        assert(strings_view(keys@)[i as int] == keys@[i as int]@);
        match vdf.get(keys[i].as_str()) {
            Some(v) => {
                return Some(v.clone());
            },
            None => {},
        }
        i += 1;
    }
    let mut found = vdf.values_with_filter(filter.as_str());
    let ghost all = strings_view(found@);
    match found.pop() {
        Some(v) => {
            assert(all.last() == v@);
            Some(v)
        },
        None => None,
    }
}

/// Reads the name of the compatibility tool that Steam assigns to the
/// application `app_id`.
pub fn compat_tool_shortname(host: &Host, steam_root: &str, app_id: &str) -> (r: Result<
    String,
    Arma3Error,
>)
    ensures
        match r {
            Ok(name) => shortname_of(host, steam_root@, app_id@) == Ok::<Seq<char>, Fault>(name@),
            Err(e) => shortname_of(host, steam_root@, app_id@) == Err::<Seq<char>, Fault>(e@),
        },
{
    let path = join(host.platform, steam_root, "config/config.vdf");
    let text = match host.read_to_string(path.as_str()) {
        Some(t) => t,
        None => {
            return Err(
                Arma3Error::SteamConfig { message: concat_str("failed reading ", path.as_str()) },
            );
        },
    };
    let vdf = match Vdf::parse(text.as_str()) {
        Ok(v) => v,
        Err(e) => {
            return Err(e);
        },
    };
    match shortname_from_config(&vdf, app_id) {
        Some(name) => Ok(name),
        None => Err(
            Arma3Error::CompatConfigMissing {
                message: concat_str("compatibility tool entry not found for appid ", app_id),
            },
        ),
    }
}

/// Finds the directory of the tool `shortname`.
pub fn compat_tool_dir(host: &Host, steam_root: &str, shortname: &str) -> (r: Option<String>)
    ensures
        match r {
            Some(dir) => tool_dir_of(host, steam_root@, shortname@) == Some(dir@),
            None => tool_dir_of(host, steam_root@, shortname@) is None,
        },
{
    let tools = join(host.platform, steam_root, "compatibilitytools.d");
    let user = join(host.platform, tools.as_str(), shortname);
    if host.is_dir(user.as_str()) {
        return Some(user);
    }
    let system = join(host.platform, "/usr/share/steam/compatibilitytools.d", shortname);
    if host.is_dir(system.as_str()) {
        return Some(system);
    }
    None
}

/// Reads the command line from the manifest of the tool in `tool_dir`.
pub fn toolmanifest_commandline(host: &Host, tool_dir: &str) -> (r: Result<String, Arma3Error>)
    ensures
        match r {
            Ok(line) => commandline_of(host, tool_dir@) == Ok::<Seq<char>, Fault>(line@),
            Err(e) => commandline_of(host, tool_dir@) == Err::<Seq<char>, Fault>(e@),
        },
{
    let path = join(host.platform, tool_dir, "toolmanifest.vdf");
    let text = match host.read_to_string(path.as_str()) {
        Some(t) => t,
        None => {
            return Err(
                Arma3Error::ManifestInvalid { message: concat_str("failed reading ", path.as_str()) },
            );
        },
    };
    let vdf = match Vdf::parse(text.as_str()) {
        Ok(v) => v,
        Err(_) => {
            return Err(
                Arma3Error::ManifestInvalid { message: "unclosed braces in VDF".to_owned() },
            );
        },
    };
    match vdf.get("manifest/commandline") {
        Some(v) => Ok(v.clone()),
        None => Err(
            Arma3Error::ManifestInvalid {
                message: concat_str("toolmanifest missing manifest/commandline in ", path.as_str()),
            },
        ),
    }
}

} // verus!
