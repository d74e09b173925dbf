//! Configuring and planning a launch.

pub mod backend;
pub mod env;
pub mod plan;

use crate::cfg::modlauncherlist::{block_text, items_of};
use crate::cfg::strip::{fault_message, Bounds};
use crate::cfg::{existing_text, new_cfg_text, write_cfg, CfgMode};
use crate::error::{Arma3Error, Fault};
use crate::host::Host;
use crate::install::cfg_path::cfg_path_of;
use crate::install::{Arma3Install, InstallKind, InstallView};
use crate::launch::backend::{backend_of, build_command, env_of, plan_of, ParamsView};
use crate::launch::env::EnvVars;
use crate::launch::plan::{CommandSpec, CommandView};
use crate::mods::{mod_paths, LocalMod, ModSet};
use crate::strmap::{entries_map, pairs_view, sorted_keys};
use crate::text::strings_view;
use vstd::prelude::*;

verus! {

/// How the game is started.
#[derive(Clone, Copy, Debug, PartialEq, Eq, Structural)]
pub enum LaunchMode {
    /// Steam starts the game.
    ThroughSteam,
    /// The game's executable is run, under Proton where the installation
    /// needs it.
    Direct,
}

impl Default for LaunchMode {
    fn default() -> (r: Self)
        ensures
            r == LaunchMode::ThroughSteam,
    {
        LaunchMode::ThroughSteam
    }
}

/// A plan for a launch: the process to start, and what the settings file
/// is to hold before it starts.
#[derive(Clone, Debug)]
pub struct LaunchPlan {
    command: CommandSpec,
    cfg_path: String,
    cfg_text: String,
}

/// What a plan holds.
pub struct PlanView {
    /// The process to start.
    pub command: CommandView,
    /// The settings file.
    pub cfg_path: Seq<char>,
    /// What the settings file is to hold.
    pub cfg_text: Seq<char>,
}

impl View for LaunchPlan {
    type V = PlanView;

    closed spec fn view(&self) -> PlanView {
        PlanView { command: self.command@, cfg_path: self.cfg_path@, cfg_text: self.cfg_text@ }
    }
}

impl LaunchPlan {
    /// The settings file that belongs to the plan.
    pub fn cfg_path(&self) -> (r: &str)
        ensures
            r@ == self@.cfg_path,
    {
        self.cfg_path.as_str()
    }

    /// What the settings file is to hold before the process starts.
    pub fn cfg_text(&self) -> (r: &str)
        ensures
            r@ == self@.cfg_text,
    {
        self.cfg_text.as_str()
    }

    /// The process to start.
    pub fn command(&self) -> (r: &CommandSpec)
        ensures
            r@ == self@.command,
    {
        &self.command
    }

    /// The executable to run.
    pub fn program(&self) -> (r: &str)
        ensures
            r@ == self@.command.program,
    {
        self.command.program.as_str()
    }

    /// The arguments, in order.
    pub fn args(&self) -> (r: &[String])
        ensures
            strings_view(r@) == self@.command.args,
    {
        self.command.args.as_slice()
    }

    /// The working directory.
    pub fn cwd(&self) -> (r: Option<&str>)
        ensures
            match r {
                Some(d) => self@.command.cwd == Some(d@),
                None => self@.command.cwd is None,
            },
    {
        match &self.command.cwd {
            Some(d) => Some(d.as_str()),
            None => None,
        }
    }

    /// The environment variables to set, in the order of their names.
    pub fn env(&self) -> (r: &[(String, String)])
        ensures
            pairs_view(r@) == self@.command.env,
    {
        self.command.env.as_slice()
    }
}

/// The settings of a launch: which installation, how to start it, which
/// mods, arguments and variables.
#[derive(Clone, Debug)]
pub struct Launcher {
    install: Arma3Install,
    launch_mode: LaunchMode,
    disable_esync: bool,
    cfg_mode: CfgMode,
    cfg_override: Option<String>,
    mods: ModSet,
    args: Vec<String>,
    env: EnvVars,
    working_dir: Option<String>,
}

/// What a launcher holds.
pub struct LauncherView {
    /// The installation to start.
    pub install: InstallView,
    /// How the game is started.
    pub launch_mode: LaunchMode,
    /// Whether Proton's esync is switched off.
    pub disable_esync: bool,
    /// How the settings file is written.
    pub cfg_mode: CfgMode,
    /// The settings file, where the user chose one.
    pub cfg_override: Option<Seq<char>>,
    /// The directories of the enabled mods, in order.
    pub mods: Seq<Seq<char>>,
    /// The user's arguments, in order.
    pub args: Seq<Seq<char>>,
    /// The user's environment variables.
    pub env: Map<Seq<char>, Seq<char>>,
    /// The working directory, where the user chose one.
    pub working_dir: Option<Seq<char>>,
}

impl View for Launcher {
    type V = LauncherView;

    closed spec fn view(&self) -> LauncherView {
        LauncherView {
            install: self.install@,
            launch_mode: self.launch_mode,
            disable_esync: self.disable_esync,
            cfg_mode: self.cfg_mode,
            cfg_override: match self.cfg_override {
                Some(p) => Some(p@),
                None => None,
            },
            mods: self.mods@,
            args: strings_view(self.args@),
            env: self.env@,
            working_dir: match self.working_dir {
                Some(d) => Some(d@),
                None => None,
            },
        }
    }
}

/// What the backend plans from for the launcher `l`.
pub open spec fn params_of(l: LauncherView) -> ParamsView {
    ParamsView {
        install: l.install,
        user_args: l.args,
        user_env: l.env,
        working_dir: l.working_dir,
        disable_esync: l.disable_esync,
    }
}

/// The settings file of the launcher `l`: the user's choice, else the
/// usual place for the installation.
pub open spec fn cfg_path_for(host: &Host, l: LauncherView) -> Result<Seq<char>, Fault> {
    match l.cfg_override {
        Some(p) => Ok(p),
        None => match cfg_path_of(host, l.install.kind, l.install.game_dir) {
            Ok(p) => Ok(p),
            Err(m) => Err(Fault::Parse(m)),
        },
    }
}

/// What the settings file `path` is to hold for the launcher `l`.
pub open spec fn cfg_text_for(host: &Host, l: LauncherView, path: Seq<char>) -> Result<
    Seq<char>,
    Fault,
> {
    match new_cfg_text(
        l.cfg_mode,
        existing_text(host, path),
        block_text(items_of(host, l.install.kind == InstallKind::LinuxProton, l.mods)),
    ) {
        Ok(text) => Ok(text),
        Err(b) => Err(Fault::MalformedBlock(fault_message(b))),
    }
}

/// The plan of the launcher `l`, or the fault.
pub open spec fn launch_plan(host: &Host, l: LauncherView) -> Result<PlanView, Fault> {
    match cfg_path_for(host, l) {
        Err(f) => Err(f),
        Ok(path) => match cfg_text_for(host, l, path) {
            Err(f) => Err(f),
            Ok(text) => match plan_of(
                host,
                backend_of(l.launch_mode, l.install.kind),
                params_of(l),
            ) {
                Err(f) => Err(f),
                Ok(command) => Ok(PlanView { command, cfg_path: path, cfg_text: text }),
            },
        },
    }
}

impl Launcher {
    /// A launcher for `install` that starts the game through Steam, with
    /// no mods, arguments or variables, and merges the settings file.
    pub fn new(install: Arma3Install) -> (r: Self)
        ensures
            r@ == (LauncherView {
                install: install@,
                launch_mode: LaunchMode::ThroughSteam,
                disable_esync: false,
                cfg_mode: CfgMode::MergeOrCreate,
                cfg_override: None,
                mods: Seq::<Seq<char>>::empty(),
                args: Seq::<Seq<char>>::empty(),
                env: Map::<Seq<char>, Seq<char>>::empty(),
                working_dir: None,
            }),
    {
        let r = Launcher {
            install,
            launch_mode: LaunchMode::ThroughSteam,
            disable_esync: false,
            cfg_mode: CfgMode::MergeOrCreate,
            cfg_override: None,
            mods: ModSet::new(),
            args: Vec::new(),
            env: EnvVars::new(),
            working_dir: None,
        };
        assert(strings_view(r.args@) =~= Seq::<Seq<char>>::empty());
        r
    }

    /// Sets how the game is started.
    pub fn launch_mode(self, mode: LaunchMode) -> (r: Self)
        ensures
            r@ == (LauncherView { launch_mode: mode, ..self@ }),
    {
        let mut r = self;
        r.launch_mode = mode;
        r
    }

    /// Switches Proton's esync off or on; it matters only for a direct
    /// start under Proton.
    pub fn disable_esync(self, value: bool) -> (r: Self)
        ensures
            r@ == (LauncherView { disable_esync: value, ..self@ }),
    {
        let mut r = self;
        r.disable_esync = value;
        r
    }

    /// Sets how the settings file is written.
    pub fn cfg_mode(self, mode: CfgMode) -> (r: Self)
        ensures
            r@ == (LauncherView { cfg_mode: mode, ..self@ }),
    {
        let mut r = self;
        r.cfg_mode = mode;
        r
    }

    /// Chooses the settings file.
    pub fn cfg_path_override(self, path: &str) -> (r: Self)
        ensures
            r@ == (LauncherView { cfg_override: Some(path@), ..self@ }),
    {
        let mut r = self;
        r.cfg_override = Some(path.to_owned());
        r
    }

    /// Chooses the working directory of the process; without a choice it
    /// is the game's directory.
    pub fn working_dir(self, dir: &str) -> (r: Self)
        ensures
            r@ == (LauncherView { working_dir: Some(dir@), ..self@ }),
    {
        let mut r = self;
        r.working_dir = Some(dir.to_owned());
        r
    }

    /// Enables a mod, after those enabled before.
    pub fn mod_enabled(self, m: LocalMod) -> (r: Self)
        ensures
            r@ == (LauncherView { mods: self@.mods.push(m@), ..self@ }),
    {
        let mut r = self;
        r.mods.push(m);
        r
    }

    /// Enables the mods of `mods`, in their order, after those enabled
    /// before.
    pub fn mods_enabled(self, mods: Vec<LocalMod>) -> (r: Self)
        ensures
            r@ == (LauncherView { mods: self@.mods + mod_paths(mods@), ..self@ }),
    {
        let mut r = self;
        r.mods.extend(mods);
        r
    }

    /// Replaces the enabled mods by `mods`.
    pub fn mods(self, mods: ModSet) -> (r: Self)
        ensures
            r@ == (LauncherView { mods: mods@, ..self@ }),
    {
        let mut r = self;
        r.mods = mods;
        r
    }

    /// Adds an argument, after those added before.
    pub fn arg(self, arg: &str) -> (r: Self)
        ensures
            r@ == (LauncherView { args: self@.args.push(arg@), ..self@ }),
    {
        let mut r = self;
        let ghost before = r.args@;
        r.args.push(arg.to_owned());
        assert(strings_view(r.args@) =~= strings_view(before).push(arg@));
        r
    }

    /// Adds the arguments of `args`, in their order, after those added
    /// before.
    pub fn args(self, args: Vec<String>) -> (r: Self)
        ensures
            r@ == (LauncherView { args: self@.args + strings_view(args@), ..self@ }),
    {
        let mut r = self;
        let mut more = args;
        let ghost before = r.args@;
        let ghost added = more@;
        r.args.append(&mut more);
        assert(strings_view(r.args@) =~= strings_view(before) + strings_view(added));
        r
    }

    /// Sets an environment variable for the process; a value set before
    /// for the same name is replaced.
    pub fn env(self, key: &str, val: &str) -> (r: Self)
        ensures
            r@ == (LauncherView { env: self@.env.insert(key@, val@), ..self@ }),
    {
        let mut r = self;
        r.env.insert(key, val);
        r
    }

    /// Sets the environment variables of `vars`, in their order.
    pub fn envs(self, vars: Vec<(String, String)>) -> (r: Self)
        ensures
            r@ == (LauncherView { env: with_vars(self@.env, pairs_view(vars@), 0), ..self@ }),
    {
        let mut r = self;
        let mut i: usize = 0;
        let ghost goal = with_vars(self@.env, pairs_view(vars@), 0);
        while i < vars.len()
            invariant
                i <= vars.len(),
                r@ == (LauncherView { env: r@.env, ..self@ }),
                with_vars(r@.env, pairs_view(vars@), i as int) == goal,
            decreases vars.len() - i,
        {
            assert(pairs_view(vars@)[i as int] == (vars@[i as int].0@, vars@[i as int].1@));
            r.env.insert(vars[i].0.as_str(), vars[i].1.as_str());
            i += 1;
        }
        r
    }

    /// The installation to start.
    pub fn install(&self) -> (r: &Arma3Install)
        ensures
            r@ == self@.install,
    {
        &self.install
    }

    /// The settings file that the launch writes.
    pub fn cfg_path(&self, host: &Host) -> (r: Result<String, Arma3Error>)
        ensures
            match r {
                Ok(p) => cfg_path_for(host, self@) == Ok::<Seq<char>, Fault>(p@),
                Err(e) => cfg_path_for(host, self@) == Err::<Seq<char>, Fault>(e@),
            },
    {
        match &self.cfg_override {
            Some(p) => Ok(p.clone()),
            None => self.install.default_cfg_path(host),
        }
    }

    /// Plans the launch: what the settings file is to hold, and the
    /// process to start. Nothing is written and nothing is started.
    pub fn plan(&self, host: &Host) -> (r: Result<LaunchPlan, Arma3Error>)
        ensures
            match r {
                Ok(p) => launch_plan(host, self@) == Ok::<PlanView, Fault>(p@) && sorted_keys(
                    p@.command.env,
                ) && entries_map(p@.command.env) == env_of(
                    host,
                    backend_of(self@.launch_mode, self@.install.kind),
                    params_of(self@),
                ),
                Err(e) => launch_plan(host, self@) == Err::<PlanView, Fault>(e@),
            },
    {
        let cfg_path = match self.cfg_path(host) {
            Ok(p) => p,
            Err(e) => {
                return Err(e);
            },
        };
        let cfg_text = match write_cfg(
            host,
            cfg_path.as_str(),
            self.cfg_mode,
            &self.install,
            &self.mods,
        ) {
            Ok(t) => t,
            Err(e) => {
                return Err(e);
            },
        };
        let wd: Option<&str> = match &self.working_dir {
            Some(d) => Some(d.as_str()),
            None => None,
        };
        let command = match build_command(
            host,
            &self.install,
            self.launch_mode,
            self.disable_esync,
            &self.args,
            &self.env,
            wd,
        ) {
            Ok(c) => c,
            Err(e) => {
                return Err(e);
            },
        };
        Ok(LaunchPlan { command, cfg_path, cfg_text })
    }
}

/// `m` with the variables of `vars` from index `i` on set, in their
/// order.
pub open spec fn with_vars(
    m: Map<Seq<char>, Seq<char>>,
    vars: Seq<(Seq<char>, Seq<char>)>,
    i: int,
) -> Map<Seq<char>, Seq<char>>
    decreases vars.len() - i,
{
    if i < 0 || i >= vars.len() {
        m
    } else {
        with_vars(m.insert(vars[i].0, vars[i].1), vars, i + 1)
    }
}

} // verus!
