//! Optional parts of Steam's Linux runtime.

use crate::host::Host;
use crate::platform::path::{join, joined};
use crate::steam::detect::{detect_steam_root, steam_root_of};
use vstd::prelude::*;

verus! {

/// Steam's overlay library: under the detected root, the 64-bit Ubuntu
/// build first, then the generic one.
pub open spec fn overlay_of(host: &Host) -> Option<Seq<char>> {
    match steam_root_of(host) {
        None => None,
        Some(root) => if host.has_file(
            joined(host.platform, root, "ubuntu12_64/gameoverlayrenderer.so"@),
        ) {
            Some(joined(host.platform, root, "ubuntu12_64/gameoverlayrenderer.so"@))
        } else if host.has_file(joined(host.platform, root, "linux64/gameoverlayrenderer.so"@)) {
            Some(joined(host.platform, root, "linux64/gameoverlayrenderer.so"@))
        } else {
            None
        },
    }
}

/// The wrapper script of Steam's runtime under the detected root.
pub open spec fn runsh_of(host: &Host) -> Option<Seq<char>> {
    match steam_root_of(host) {
        None => None,
        Some(root) => if host.has_file(
            joined(host.platform, root, "ubuntu12_32/steam-runtime/run.sh"@),
        ) {
            Some(joined(host.platform, root, "ubuntu12_32/steam-runtime/run.sh"@))
        } else {
            None
        },
    }
}

/// Finds Steam's overlay library, which a direct launch preloads.
pub fn linux_overlay_so(host: &Host) -> (r: Option<String>)
    ensures
        match r {
            Some(p) => overlay_of(host) == Some(p@),
            None => overlay_of(host) is None,
        },
{
    let steam = match detect_steam_root(host) {
        Some(s) => s,
        None => {
            return None;
        },
    };
    let a = join(host.platform, steam.as_str(), "ubuntu12_64/gameoverlayrenderer.so");
    if host.is_file(a.as_str()) {
        return Some(a);
    }
    let b = join(host.platform, steam.as_str(), "linux64/gameoverlayrenderer.so");
    if host.is_file(b.as_str()) {
        return Some(b);
    }
    None
}

/// Finds the wrapper script of Steam's runtime.
pub fn steam_runtime_runsh(host: &Host) -> (r: Option<String>)
    ensures
        match r {
            Some(p) => runsh_of(host) == Some(p@),
            None => runsh_of(host) is None,
        },
{
    let steam = match detect_steam_root(host) {
        Some(s) => s,
        None => {
            return None;
        },
    };
    let p = join(host.platform, steam.as_str(), "ubuntu12_32/steam-runtime/run.sh");
    if host.is_file(p.as_str()) {
        Some(p)
    } else {
        None
    }
}

} // verus!
