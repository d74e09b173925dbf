//! The three ways to start the game, behind one contract.

pub mod direct;
pub mod proton;
pub mod steam;

use crate::error::{Arma3Error, Fault};
use crate::host::Host;
use crate::install::{Arma3Install, InstallKind, InstallView};
use crate::launch::env::EnvVars;
use crate::launch::plan::{CommandSpec, CommandView};
use crate::launch::LaunchMode;
use crate::strmap::{entries_map, pairs_view, sorted_entries, sorted_keys};
use crate::steam::detect::steam_root_of;
use crate::text::strings_view;
use vstd::prelude::*;

verus! {

/// What every backend plans from.
pub struct BackendParams<'a> {
    /// The installation to start.
    pub install: &'a Arma3Install,
    /// The user's arguments, in order.
    pub user_args: &'a Vec<String>,
    /// The user's environment variables.
    pub user_env: &'a EnvVars,
    /// The working directory, where the user chose one.
    pub working_dir: Option<&'a str>,
    /// Whether Proton's esync is switched off.
    pub disable_esync: bool,
}

/// What a backend plans from, as plain values.
pub struct ParamsView {
    /// The installation to start.
    pub install: InstallView,
    /// The user's arguments, in order.
    pub user_args: Seq<Seq<char>>,
    /// The user's environment variables.
    pub user_env: Map<Seq<char>, Seq<char>>,
    /// The working directory, where the user chose one.
    pub working_dir: Option<Seq<char>>,
    /// Whether Proton's esync is switched off.
    pub disable_esync: bool,
}

impl<'a> View for BackendParams<'a> {
    type V = ParamsView;

    open spec fn view(&self) -> ParamsView {
        ParamsView {
            install: self.install@,
            user_args: strings_view(self.user_args@),
            user_env: self.user_env@,
            working_dir: match self.working_dir {
                Some(d) => Some(d@),
                None => None,
            },
            disable_esync: self.disable_esync,
        }
    }
}

/// The way in which the game is started.
#[derive(Clone, Copy, Debug, PartialEq, Eq, Structural)]
pub enum Backend {
    /// The game's executable is run as it is.
    Direct,
    /// Steam is asked to start the game.
    Steam,
    /// The game's executable is run under its compatibility tool.
    Proton,
}

/// The working directory of a plan: the user's, else the game's
/// directory.
pub open spec fn cwd_of(p: ParamsView) -> Option<Seq<char>> {
    match p.working_dir {
        Some(d) => Some(d),
        None => Some(p.install.game_dir),
    }
}

/// The backend for a launch mode and an installation.
pub open spec fn backend_of(mode: LaunchMode, kind: InstallKind) -> Backend {
    match mode {
        LaunchMode::ThroughSteam => Backend::Steam,
        LaunchMode::Direct => if kind == InstallKind::LinuxProton {
            Backend::Proton
        } else {
            Backend::Direct
        },
    }
}

/// What `backend` plans for `p`, or the fault.
pub open spec fn plan_of(host: &Host, backend: Backend, p: ParamsView) -> Result<
    CommandView,
    Fault,
> {
    match backend {
        Backend::Direct => Ok(direct::direct_command(p)),
        Backend::Steam => Ok(steam::steam_command(host, p)),
        Backend::Proton => proton::proton_plan(host, p),
    }
}

/// The variables that `backend` sets for `p`: the user's, and under the
/// compatibility tool those that the tool needs.
pub open spec fn env_of(host: &Host, backend: Backend, p: ParamsView) -> Map<Seq<char>, Seq<char>> {
    match backend {
        Backend::Proton => proton::proton_env(host, p, steam_root_of(host)->0),
        _ => p.user_env,
    }
}

/// The user's working directory, else the game's directory.
pub fn working_dir_or_game(params: &BackendParams<'_>) -> (r: Option<String>)
    ensures
        match r {
            Some(d) => cwd_of(params@) == Some(d@),
            None => cwd_of(params@) is None,
        },
{
    match params.working_dir {
        Some(d) => Some(d.to_owned()),
        None => Some(params.install.game_dir().to_owned()),
    }
}

/// The user's environment variables as pairs, in the order of their names.
pub fn collect_env(user_env: &EnvVars) -> (r: Vec<(String, String)>)
    ensures
        pairs_view(r@) == sorted_entries(user_env@),
        sorted_keys(pairs_view(r@)),
        entries_map(pairs_view(r@)) == user_env@,
{
    user_env.iter()
}

/// A copy of `v`.
pub fn clone_strings(v: &Vec<String>) -> (r: Vec<String>)
    ensures
        strings_view(r@) == strings_view(v@),
{
    let mut r: Vec<String> = Vec::new();
    let mut i: usize = 0;
    while i < v.len()
        invariant
            i <= v.len(),
            r@.len() == i,
            forall|j: int| 0 <= j < i ==> (#[trigger] r@[j])@ == v@[j]@,
        decreases v.len() - i,
    {
        r.push(v[i].clone());
        i += 1;
    }
    assert(strings_view(r@) =~= strings_view(v@));
    r
}

impl Backend {
    /// Chooses the backend for a launch mode and an installation; the
    /// choice is made once for a plan.
    pub fn select(mode: LaunchMode, install: &Arma3Install) -> (r: Backend)
        ensures
            r == backend_of(mode, install@.kind),
    {
        match mode {
            LaunchMode::ThroughSteam => Backend::Steam,
            LaunchMode::Direct => {
                if install.is_proton() {
                    Backend::Proton
                } else {
                    Backend::Direct
                }
            },
        }
    }

    /// Plans the process to start.
    pub fn plan(&self, host: &Host, params: &BackendParams<'_>) -> (r: Result<
        CommandSpec,
        Arma3Error,
    >)
        ensures
            match r {
                Ok(c) => plan_of(host, *self, params@) == Ok::<CommandView, Fault>(c@)
                    && sorted_keys(c@.env) && entries_map(c@.env) == env_of(host, *self, params@),
                Err(e) => plan_of(host, *self, params@) == Err::<CommandView, Fault>(e@),
            },
    {
        match self {
            Backend::Direct => direct::plan(params),
            Backend::Steam => steam::plan(host, params),
            Backend::Proton => proton::plan(host, params),
        }
    }
}

/// Plans the process that starts the game.
///
/// Through Steam, the Steam client is asked to start the application and
/// to suppress the game's own launcher. Directly, the game's executable is
/// run as it is, or, for an installation under Proton, wrapped in the
/// command of its compatibility tool.
pub fn build_command(
    host: &Host,
    install: &Arma3Install,
    mode: LaunchMode,
    disable_esync: bool,
    user_args: &Vec<String>,
    user_env: &EnvVars,
    working_dir: Option<&str>,
) -> (r: Result<CommandSpec, Arma3Error>)
    ensures
        match r {
            Ok(c) => plan_of(
                host,
                backend_of(mode, install@.kind),
                (BackendParams { install, user_args, user_env, working_dir, disable_esync })@,
            ) == Ok::<CommandView, Fault>(c@) && sorted_keys(c@.env) && entries_map(c@.env)
                == env_of(
                host,
                backend_of(mode, install@.kind),
                (BackendParams { install, user_args, user_env, working_dir, disable_esync })@,
            ),
            Err(e) => plan_of(
                host,
                backend_of(mode, install@.kind),
                (BackendParams { install, user_args, user_env, working_dir, disable_esync })@,
            ) == Err::<CommandView, Fault>(e@),
        },
{
    let params = BackendParams { install, user_args, user_env, working_dir, disable_esync };
    let backend = Backend::select(mode, install);
    backend.plan(host, &params)
}

} // verus!
