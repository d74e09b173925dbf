//! Running the game's executable under its compatibility tool.
//!
//! The tool is the one that Steam's configuration assigns to the game. Its
//! manifest holds a command line, whose first word is the tool's
//! executable and whose further words are the tool's own arguments.

use crate::error::{Arma3Error, Fault};
use crate::host::Host;
use crate::launch::backend::{cwd_of, working_dir_or_game, BackendParams, ParamsView};
use crate::launch::plan::{CommandSpec, CommandView};
use crate::platform::path::{join, joined, Platform};
use crate::steam::compat::{
    commandline_of, compat_tool_dir, compat_tool_shortname, shortname_of, tool_dir_of,
    toolmanifest_commandline,
};
use crate::steam::consts::{
    ARMA3_APP_ID_STR, ENV_PROTON_NO_ESYNC, ENV_STEAM_COMPAT_DATA_PATH, ENV_STEAM_GAME_ID,
};
use crate::steam::detect::{detect_steam_root, find_file, first_file, steam_root_of};
use crate::steam::paths::{
    compatdata_dir_in_library, compatdata_of, library_root_of, relative_compatdata_dir,
    relative_compatdata_of, steam_library_root_from_game_dir, steamapps_dir, steamapps_of,
};
use crate::steam::runtime::{linux_overlay_so, overlay_of, runsh_of, steam_runtime_runsh};
use crate::strmap::{entries_map, sorted_entries, sorted_keys};
use crate::text::{concat_str, replace_all, replaced, strings_view};
use vstd::prelude::*;

verus! {

/// The words into which `shell_words::split` splits a command line, or
/// `None` where it reports a quote that is not closed.
pub uninterp spec fn shell_split(s: Seq<char>) -> Option<Seq<Seq<char>>>;

/// The error of `shell_words::split`: a quote that is not closed. Nothing
/// is known of a value of it.
#[verifier::external_type_specification]
#[verifier::external_body]
pub struct ExParseError(shell_words::ParseError);

/// Splits a command line into words the way a Unix shell does.
///
/// Trusted: `shell_words::split`. It reads its argument alone, so the same
/// line always gives the same words; the contract only gives that result
/// its name.
#[verifier::external_body]
fn split_words(s: &str) -> (r: Result<Vec<String>, shell_words::ParseError>)
    ensures
        match r {
            Ok(words) => shell_split(s@) == Some(strings_view(words@)),
            Err(_) => shell_split(s@) is None,
        },
{
    shell_words::split(s)
}

/// Where the library `libpng12` may lie.
pub open spec fn libpng_candidates() -> Seq<Seq<char>> {
    seq![
        "/usr/lib/libpng12.so.0"@,
        "/usr/lib/libpng12.so"@,
        "/usr/lib64/libpng12.so.0"@,
        "/usr/lib64/libpng12.so"@,
        "/lib/libpng12.so.0"@,
        "/lib/libpng12.so"@,
        "/lib64/libpng12.so.0"@,
        "/lib64/libpng12.so"@,
        "/usr/lib/x86_64-linux-gnu/libpng12.so.0"@,
        "/usr/lib/x86_64-linux-gnu/libpng12.so"@,
    ]
}

/// Whether the system lacks the library `libpng12`.
pub open spec fn libpng_missing(host: &Host) -> bool {
    first_file(host, libpng_candidates(), 0) is None
}

/// The game's compatibility data: under the library root where the game
/// lies in Steam's usual layout, else under the Steam root where that
/// holds `steamapps`, else three levels above the game.
pub open spec fn compatdata_with_root(host: &Host, game_dir: Seq<char>, steam_root: Seq<char>)
    -> Seq<char> {
    match library_root_of(host.platform, game_dir) {
        Some(root) => compatdata_of(host.platform, root),
        None => if host.has_dir(steamapps_of(host.platform, steam_root)) {
            compatdata_of(host.platform, steam_root)
        } else {
            relative_compatdata_of(host.platform, game_dir)
        },
    }
}

/// The libraries to preload: Steam's overlay, where it is found, before
/// what the variable `LD_PRELOAD` holds already.
pub open spec fn preload_of(host: &Host) -> Option<Seq<char>> {
    match overlay_of(host) {
        None => None,
        Some(overlay) => match host.env_var("LD_PRELOAD"@) {
            Some(old) => if old.len() > 0 {
                Some(overlay + seq![':'] + old)
            } else {
                Some(overlay)
            },
            None => Some(overlay),
        },
    }
}

/// The variables of a start under the tool: the user's, then the preload,
/// the application's id and its compatibility data, and the switch for
/// esync where it is asked for. A variable set later replaces one of the
/// same name.
pub open spec fn proton_env(host: &Host, p: ParamsView, steam_root: Seq<char>) -> Map<
    Seq<char>,
    Seq<char>,
> {
    let e1 = match preload_of(host) {
        Some(v) => p.user_env.insert("LD_PRELOAD"@, v),
        None => p.user_env,
    };
    let e2 = e1.insert(ENV_STEAM_GAME_ID@, ARMA3_APP_ID_STR@).insert(
        ENV_STEAM_COMPAT_DATA_PATH@,
        compatdata_with_root(host, p.install.game_dir, steam_root),
    );
    if p.disable_esync {
        e2.insert(ENV_PROTON_NO_ESYNC@, "1"@)
    } else {
        e2
    }
}

/// The tool's own arguments: the words after the first, with `run` in
/// place of every `%verb%`.
pub open spec fn tool_args(words: Seq<Seq<char>>) -> Seq<Seq<char>> {
    words.drop_first().map_values(|w: Seq<char>| replaced(w, "%verb%"@, "run"@, 0))
}

/// Whether the command goes through the wrapper script of Steam's runtime:
/// `libpng12` is missing and the script is there.
pub open spec fn uses_runtime(host: &Host) -> bool {
    libpng_missing(host) && runsh_of(host) is Some
}

/// The command that runs the game under the tool in `tool_dir`, whose
/// command line splits into `words`, of which there is at least one.
pub open spec fn proton_command(
    host: &Host,
    p: ParamsView,
    steam_root: Seq<char>,
    tool_dir: Seq<char>,
    words: Seq<Seq<char>>,
) -> CommandView {
    let tool_program = joined(host.platform, tool_dir, words[0]);
    let args = tool_args(words) + seq![p.install.executable] + p.user_args;
    CommandView {
        program: if uses_runtime(host) {
            runsh_of(host)->0
        } else {
            tool_program
        },
        args: if uses_runtime(host) {
            seq![tool_program] + args
        } else {
            args
        },
        cwd: cwd_of(p),
        env: sorted_entries(proton_env(host, p, steam_root)),
    }
}

/// The command for a command line that splits into `words`, or the fault
/// where there is no word.
pub open spec fn wrapped_command(
    host: &Host,
    p: ParamsView,
    steam_root: Seq<char>,
    tool_dir: Seq<char>,
    words: Seq<Seq<char>>,
) -> Result<CommandView, Fault> {
    if words.len() == 0 {
        Err(Fault::EmptyCommandLine)
    } else {
        Ok(proton_command(host, p, steam_root, tool_dir, words))
    }
}

/// The command for the tool in `tool_dir`, or the fault.
pub open spec fn tool_plan(host: &Host, p: ParamsView, steam_root: Seq<char>, tool_dir: Seq<char>)
    -> Result<CommandView, Fault> {
    match commandline_of(host, tool_dir) {
        Err(f) => Err(f),
        Ok(line) => match shell_split(line) {
            None => Err(
                Fault::SteamConfig("failed parsing tool commandline: missing closing quote"@),
            ),
            Some(words) => wrapped_command(host, p, steam_root, tool_dir, words),
        },
    }
}

/// The command under the tool that Steam assigns, on Linux, or the fault.
pub open spec fn direct_spec(host: &Host, p: ParamsView) -> Result<CommandView, Fault> {
    match steam_root_of(host) {
        None => Err(Fault::SteamNotFound),
        Some(root) => match shortname_of(host, root, ARMA3_APP_ID_STR@) {
            Err(f) => Err(f),
            Ok(name) => match tool_dir_of(host, root, name) {
                None => Err(
                    Fault::ToolNotFound(
                        "cannot find compatibility tool directory for '"@ + name + "'"@,
                    ),
                ),
                Some(dir) => tool_plan(host, p, root, dir),
            },
        },
    }
}

/// What a start under the compatibility tool plans, or the fault. Only
/// Linux has the tool.
pub open spec fn proton_plan(host: &Host, p: ParamsView) -> Result<CommandView, Fault> {
    if host.platform == Platform::Linux {
        direct_spec(host, p)
    } else {
        Err(Fault::UnsupportedPlatform("proton direct launch is only supported on Linux"@))
    }
}

/// The places where the library `libpng12` may lie.
pub fn libpng_candidate_paths() -> (r: Vec<String>)
    ensures
        strings_view(r@) == libpng_candidates(),
{
    let mut c: Vec<String> = Vec::new();
    c.push("/usr/lib/libpng12.so.0".to_owned());
    c.push("/usr/lib/libpng12.so".to_owned());
    c.push("/usr/lib64/libpng12.so.0".to_owned());
    c.push("/usr/lib64/libpng12.so".to_owned());
    c.push("/lib/libpng12.so.0".to_owned());
    c.push("/lib/libpng12.so".to_owned());
    c.push("/lib64/libpng12.so.0".to_owned());
    c.push("/lib64/libpng12.so".to_owned());
    c.push("/usr/lib/x86_64-linux-gnu/libpng12.so.0".to_owned());
    c.push("/usr/lib/x86_64-linux-gnu/libpng12.so".to_owned());
    assert(strings_view(c@) =~= libpng_candidates());
    c
}

/// Whether the system lacks the library `libpng12`.
pub fn missing_libpng12(host: &Host) -> (r: bool)
    ensures
        r == libpng_missing(host),
{
    let c = libpng_candidate_paths();
    find_file(host, &c).is_none()
}

/// The game's compatibility data for a game in `game_dir` and Steam in
/// `steam_root`.
pub fn compatdata_dir_for_game_dir(host: &Host, game_dir: &str, steam_root: &str) -> (r: String)
    ensures
        r@ == compatdata_with_root(host, game_dir@, steam_root@),
{
    match steam_library_root_from_game_dir(host.platform, game_dir) {
        Some(root) => compatdata_dir_in_library(host.platform, root.as_str()),
        None => {
            let apps = steamapps_dir(host.platform, steam_root);
            if host.is_dir(apps.as_str()) {
                compatdata_dir_in_library(host.platform, steam_root)
            } else {
                relative_compatdata_dir(host.platform, game_dir)
            }
        },
    }
}

fn preload_value(host: &Host) -> (r: Option<String>)
    ensures
        match r {
            Some(v) => preload_of(host) == Some(v@),
            None => preload_of(host) is None,
        },
{
    match linux_overlay_so(host) {
        None => None,
        Some(overlay) => match host.var("LD_PRELOAD") {
            Some(old) => {
                if old.as_str().unicode_len() > 0 {
                    let head = concat_str(overlay.as_str(), ":");
                    proof {
                        reveal_strlit(":");
                        assert(":"@ =~= seq![':']);
                    }
                    Some(concat_str(head.as_str(), old.as_str()))
                } else {
                    Some(overlay)
                }
            },
            None => Some(overlay),
        },
    }
}

/// Builds the command that runs the game under the tool in `tool_dir`,
/// from the words of the tool's command line.
///
/// The first word names the tool's executable, seen from `tool_dir`; the
/// others are the tool's arguments, with `run` in place of `%verb%`. After
/// them come the game's executable and the user's arguments. Where
/// `libpng12` is missing and Steam's runtime has its wrapper script, the
/// script is the program and the tool's executable its first argument.
///
/// Fails with `EmptyCommandLine` where there is no word.
pub fn build_proton_command(
    host: &Host,
    params: &BackendParams<'_>,
    steam_root: &str,
    tool_dir: &str,
    words: Vec<String>,
) -> (r: Result<CommandSpec, Arma3Error>)
    ensures
        match r {
            Ok(c) => wrapped_command(host, params@, steam_root@, tool_dir@, strings_view(words@))
                == Ok::<CommandView, Fault>(c@) && sorted_keys(c@.env) && entries_map(c@.env)
                == proton_env(host, params@, steam_root@),
            Err(e) => wrapped_command(host, params@, steam_root@, tool_dir@, strings_view(words@))
                == Err::<CommandView, Fault>(e@),
        },
{
    if words.len() == 0 {
        return Err(Arma3Error::EmptyCommandLine);
    }
    let ghost ws = strings_view(words@);
    let tool_program = join(host.platform, tool_dir, words[0].as_str());
    let mut args: Vec<String> = Vec::new();
    let mut i: usize = 1;
    proof {
        reveal_strlit("%verb%");
        assert(tool_args(ws).subrange(0, 0) =~= Seq::<Seq<char>>::empty());
    }
    while i < words.len()
        invariant
            1 <= i <= words.len(),
            ws == strings_view(words@),
            "%verb%"@.len() > 0,
            strings_view(args@) == tool_args(ws).subrange(0, i - 1),
        decreases words.len() - i,
    {
        let ghost before = strings_view(args@);
        let w = replace_all(words[i].as_str(), "%verb%", "run");
        args.push(w);
        proof {
            assert(ws[i as int] == words@[i as int]@);
            assert(ws.drop_first()[i - 1] == ws[i as int]);
            assert(strings_view(args@) =~= before.push(tool_args(ws)[i - 1]));
            assert(strings_view(args@) =~= tool_args(ws).subrange(0, i as int));
        }
        i += 1;
    }
    assert(tool_args(ws).subrange(0, words.len() - 1) =~= tool_args(ws));
    let ghost fixed = strings_view(args@);
    args.push(params.install.executable().to_owned());
    assert(strings_view(args@) =~= fixed + seq![params@.install.executable]);
    let ghost head = strings_view(args@);
    let mut j: usize = 0;
    while j < params.user_args.len()
        invariant
            j <= params.user_args.len(),
            strings_view(args@) == head + strings_view(params.user_args@).subrange(0, j as int),
        decreases params.user_args.len() - j,
    {
        let ghost before = strings_view(args@);
        args.push(params.user_args[j].clone());
        assert(strings_view(params.user_args@)[j as int] == params.user_args@[j as int]@);
        assert(strings_view(args@) =~= before.push(params.user_args@[j as int]@));
        assert(strings_view(args@) =~= head + strings_view(params.user_args@).subrange(
            0,
            j + 1,
        ));
        j += 1;
    }
    assert(strings_view(params.user_args@).subrange(0, params.user_args.len() as int)
        =~= strings_view(params.user_args@));
    let ghost full = strings_view(args@);

    let mut env = params.user_env.duplicate();
    match preload_value(host) {
        Some(v) => {
            env.insert("LD_PRELOAD", v.as_str());
        },
        None => {},
    }
    let compat_data = compatdata_dir_for_game_dir(host, params.install.game_dir(), steam_root);
    env.insert(ENV_STEAM_GAME_ID, ARMA3_APP_ID_STR);
    env.insert(ENV_STEAM_COMPAT_DATA_PATH, compat_data.as_str());
    if params.disable_esync {
        env.insert(ENV_PROTON_NO_ESYNC, "1");
    }
    assert(env@ == proton_env(host, params@, steam_root@));
    let env_pairs = env.iter();
    let cwd = working_dir_or_game(params);

    if missing_libpng12(host) {
        match steam_runtime_runsh(host) {
            Some(runsh) => {
                let mut wrapped: Vec<String> = Vec::new();
                wrapped.push(tool_program);
                let ghost first = strings_view(wrapped@);
                let mut k: usize = 0;
                while k < args.len()
                    invariant
                        k <= args.len(),
                        full == strings_view(args@),
                        strings_view(wrapped@) == first + full.subrange(0, k as int),
                    decreases args.len() - k,
                {
                    let ghost before = strings_view(wrapped@);
                    wrapped.push(args[k].clone());
                    assert(full[k as int] == args@[k as int]@);
                    assert(strings_view(wrapped@) =~= before.push(args@[k as int]@));
                    assert(strings_view(wrapped@) =~= first + full.subrange(0, k + 1));
                    k += 1;
                }
                assert(full.subrange(0, args.len() as int) =~= full);
                assert(first =~= seq![joined(host.platform, tool_dir@, ws[0])]);
                return Ok(CommandSpec { program: runsh, args: wrapped, cwd, env: env_pairs });
            },
            None => {},
        }
    }
    Ok(CommandSpec { program: tool_program, args, cwd, env: env_pairs })
}

/// Builds the command for the tool in `tool_dir`: reads the tool's command
/// line from its manifest, splits it into words, and wraps the game in it.
pub fn build_tool_command(
    host: &Host,
    params: &BackendParams<'_>,
    steam_root: &str,
    tool_dir: &str,
) -> (r: Result<CommandSpec, Arma3Error>)
    ensures
        match r {
            Ok(c) => tool_plan(host, params@, steam_root@, tool_dir@) == Ok::<CommandView, Fault>(
                c@,
            ) && sorted_keys(c@.env) && entries_map(c@.env) == proton_env(
                host,
                params@,
                steam_root@,
            ),
            Err(e) => tool_plan(host, params@, steam_root@, tool_dir@) == Err::<
                CommandView,
                Fault,
            >(e@),
        },
{
    let cmdline = match toolmanifest_commandline(host, tool_dir) {
        Ok(c) => c,
        Err(e) => {
            return Err(e);
        },
    };
    match split_words(cmdline.as_str()) {
        Ok(words) => build_proton_command(host, params, steam_root, tool_dir, words),
        Err(_) => Err(
            Arma3Error::SteamConfig {
                message: "failed parsing tool commandline: missing closing quote".to_owned(),
            },
        ),
    }
}

/// Resolves the compatibility tool that Steam assigns to the game and
/// builds the command that runs the game under it.
pub fn build_proton_direct_spec(host: &Host, params: &BackendParams<'_>) -> (r: Result<
    CommandSpec,
    Arma3Error,
>)
    ensures
        match r {
            Ok(c) => direct_spec(host, params@) == Ok::<CommandView, Fault>(c@) && sorted_keys(
                c@.env,
            ) && entries_map(c@.env) == proton_env(host, params@, steam_root_of(host)->0),
            Err(e) => direct_spec(host, params@) == Err::<CommandView, Fault>(e@),
        },
{
    let steam_root = match detect_steam_root(host) {
        Some(r) => r,
        None => {
            return Err(Arma3Error::SteamNotFound);
        },
    };
    let shortname = match compat_tool_shortname(host, steam_root.as_str(), ARMA3_APP_ID_STR) {
        Ok(n) => n,
        Err(e) => {
            return Err(e);
        },
    };
    let tool_dir = match compat_tool_dir(host, steam_root.as_str(), shortname.as_str()) {
        Some(d) => d,
        None => {
            let head = concat_str("cannot find compatibility tool directory for '", shortname.as_str());
            return Err(Arma3Error::ToolNotFound { message: concat_str(head.as_str(), "'") });
        },
    };
    build_tool_command(host, params, steam_root.as_str(), tool_dir.as_str())
}

/// Plans a start under the compatibility tool.
pub fn plan(host: &Host, params: &BackendParams<'_>) -> (r: Result<CommandSpec, Arma3Error>)
    ensures
        match r {
            Ok(c) => proton_plan(host, params@) == Ok::<CommandView, Fault>(c@) && sorted_keys(
                c@.env,
            ) && entries_map(c@.env) == proton_env(host, params@, steam_root_of(host)->0),
            Err(e) => proton_plan(host, params@) == Err::<CommandView, Fault>(e@),
        },
{
    if host.platform == Platform::Linux {
        build_proton_direct_spec(host, params)
    } else {
        Err(
            Arma3Error::UnsupportedPlatform {
                message: "proton direct launch is only supported on Linux".to_owned(),
            },
        )
    }
}

} // verus!
