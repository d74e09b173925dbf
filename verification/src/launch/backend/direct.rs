//! Running the game's executable as it is.

use crate::error::Arma3Error;
use crate::launch::backend::{
    clone_strings, collect_env, cwd_of, working_dir_or_game, BackendParams, ParamsView,
};
use crate::launch::plan::{CommandSpec, CommandView};
use crate::strmap::{entries_map, sorted_entries, sorted_keys};
use vstd::prelude::*;

verus! {

/// The command that runs the game's executable with the user's arguments
/// and variables.
pub open spec fn direct_command(p: ParamsView) -> CommandView {
    CommandView {
        program: p.install.executable,
        args: p.user_args,
        cwd: cwd_of(p),
        env: sorted_entries(p.user_env),
    }
}

/// Plans a direct start.
pub fn plan(params: &BackendParams<'_>) -> (r: Result<CommandSpec, Arma3Error>)
    ensures
        r matches Ok(c) && c@ == direct_command(params@) && sorted_keys(c@.env) && entries_map(
            c@.env,
        ) == params@.user_env,
{
    let env = collect_env(params.user_env);
    Ok(
        CommandSpec {
            program: params.install.executable().to_owned(),
            args: clone_strings(params.user_args),
            cwd: working_dir_or_game(params),
            env,
        },
    )
}

} // verus!
