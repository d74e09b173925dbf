//! Asking Steam to start the game.

use crate::error::Arma3Error;
use crate::host::Host;
use crate::launch::backend::{collect_env, cwd_of, working_dir_or_game, BackendParams, ParamsView};
use crate::launch::plan::{CommandSpec, CommandView};
use crate::platform::path::Platform;
use crate::steam::consts::{ARMA3_APP_ID_STR, STEAM_ARG_APPLAUNCH, STEAM_ARG_NO_LAUNCHER};
use crate::steam::detect::{detect_steam_exe, flatpak_steam, is_flatpak_steam, steam_exe_of};
use crate::strmap::{entries_map, sorted_entries, sorted_keys};
use crate::text::strings_view;
use vstd::prelude::*;

verus! {

/// Whether Steam is reached through Flatpak.
pub open spec fn through_flatpak(host: &Host) -> bool {
    host.platform == Platform::Linux && flatpak_steam(host)
}

/// The program that reaches Steam: `flatpak` for a Flatpak, else Steam's
/// executable, and on a platform without Steam the bare name `steam`.
pub open spec fn steam_program(host: &Host) -> Seq<char> {
    if through_flatpak(host) {
        "flatpak"@
    } else if host.platform == Platform::Other {
        "steam"@
    } else {
        steam_exe_of(host)
    }
}

/// The arguments that come before the user's: for a Flatpak the words
/// that run Steam's package, then the pair that launches the application
/// and the word that suppresses the game's launcher.
pub open spec fn steam_prefix(host: &Host) -> Seq<Seq<char>> {
    (if through_flatpak(host) {
        seq!["run"@, "com.valvesoftware.Steam"@]
    } else {
        Seq::<Seq<char>>::empty()
    }) + seq![STEAM_ARG_APPLAUNCH@, ARMA3_APP_ID_STR@, STEAM_ARG_NO_LAUNCHER@]
}

/// The command that asks Steam to start the game.
pub open spec fn steam_command(host: &Host, p: ParamsView) -> CommandView {
    CommandView {
        program: steam_program(host),
        args: steam_prefix(host) + p.user_args,
        cwd: cwd_of(p),
        env: sorted_entries(p.user_env),
    }
}

/// Plans a start through Steam.
pub fn plan(host: &Host, params: &BackendParams<'_>) -> (r: Result<CommandSpec, Arma3Error>)
    ensures
        r matches Ok(c) && c@ == steam_command(host, params@) && sorted_keys(c@.env)
            && entries_map(c@.env) == params@.user_env,
{
    let env = collect_env(params.user_env);
    let mut args: Vec<String> = Vec::new();
    let program = match host.platform {
        Platform::Linux => {
            if is_flatpak_steam(host) {
                args.push("run".to_owned());
                args.push("com.valvesoftware.Steam".to_owned());
                "flatpak".to_owned()
            } else {
                detect_steam_exe(host)
            }
        },
        Platform::Windows => detect_steam_exe(host),
        Platform::Other => "steam".to_owned(),
    };
    args.push(STEAM_ARG_APPLAUNCH.to_owned());
    args.push(ARMA3_APP_ID_STR.to_owned());
    args.push(STEAM_ARG_NO_LAUNCHER.to_owned());
    assert(strings_view(args@) =~= steam_prefix(host));
    let ghost prefix = strings_view(args@);
    let mut i: usize = 0;
    while i < params.user_args.len()
        invariant
            i <= params.user_args.len(),
            strings_view(args@) == prefix + strings_view(params.user_args@).subrange(0, i as int),
        decreases params.user_args.len() - i,
    {
        let ghost before = strings_view(args@);
        args.push(params.user_args[i].clone());
        assert(strings_view(args@) =~= before.push(params.user_args@[i as int]@));
        assert(strings_view(params.user_args@)[i as int] == params.user_args@[i as int]@);
        assert(strings_view(args@) =~= prefix + strings_view(params.user_args@).subrange(
            0,
            i + 1,
        ));
        i += 1;
    }
    assert(strings_view(params.user_args@).subrange(0, params.user_args.len() as int)
        =~= strings_view(params.user_args@));
    Ok(CommandSpec { program, args, cwd: working_dir_or_game(params), env })
}

} // verus!
