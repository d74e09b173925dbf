//! Launch planning and settings-file maintenance for Arma 3.
//!
//! The library validates an installation of the game, builds the block of
//! the settings file that lists the enabled mods, and plans the process
//! that starts the game: through Steam, directly, or directly under the
//! compatibility tool that Steam assigns. Everything it knows of the
//! machine comes from a [`Host`] snapshot, so a plan is a function of its
//! inputs; writing files and starting processes is left to the caller.

pub mod cfg;
pub mod detect;
pub mod error;
pub mod host;
pub mod install;
pub mod launch;
pub mod mods;
pub mod platform;
pub mod steam;
pub mod strmap;
pub mod text;

pub use crate::cfg::modlauncherlist::{build_modlauncherlist_block, escape_cfg};
pub use crate::cfg::strip::{class_boundaries, strip_cpp_class};
pub use crate::cfg::{render_cfg, write_cfg, CfgMode, CfgPaths};
pub use crate::detect::{detect_arma3_install_candidates, detect_arma3_install_path};
pub use crate::error::Arma3Error;
pub use crate::host::{DirEntry, FileEntry, Host};
pub use crate::install::detect::{detect_best_install, detect_install_candidates};
pub use crate::install::{Arma3Install, InstallKind};
pub use crate::launch::backend::build_command;
pub use crate::launch::env::EnvVars;
pub use crate::launch::plan::CommandSpec;
pub use crate::launch::{LaunchMode, LaunchPlan, Launcher};
pub use crate::mods::meta::{read_mod_meta, ModMeta};
pub use crate::mods::validate::validate_local_mod_dir;
pub use crate::mods::{LocalMod, ModSet, ModSpec};
pub use crate::platform::path::{arma_path_string, Platform};
pub use crate::steam::paths::arma_path_arg;
pub use crate::steam::vdf::Vdf;
pub use crate::strmap::StringMap;
