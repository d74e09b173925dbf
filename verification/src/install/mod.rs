//! A validated installation of the game.

pub mod cfg_path;
pub mod detect;

use crate::error::Arma3Error;
use crate::host::Host;
use crate::platform::path::{join, joined, Platform};
use vstd::prelude::*;

verus! {

/// How the installed game runs.
#[derive(Clone, Copy, Debug, PartialEq, Eq, Structural)]
pub enum InstallKind {
    /// Natively on Linux (`arma3.x86_64`).
    LinuxNative,
    /// On Linux under Proton (`arma3_x64.exe`).
    LinuxProton,
    /// Natively on Windows (`arma3_x64.exe` or `arma3.exe`).
    WindowsNative,
}

/// A validated installation of the game, with an optional workshop
/// directory.
#[derive(Clone, Debug)]
pub struct Arma3Install {
    game_dir: String,
    workshop_dir: Option<String>,
    executable: String,
    kind: InstallKind,
}

/// What an installation holds.
pub struct InstallView {
    /// The game's directory.
    pub game_dir: Seq<char>,
    /// The workshop directory, if one was given.
    pub workshop_dir: Option<Seq<char>>,
    /// The game's executable.
    pub executable: Seq<char>,
    /// How the game runs.
    pub kind: InstallKind,
}

/// The executable in `game_dir` and the kind that it decides: on Linux the
/// native binary before the Windows one, which runs under Proton; on
/// Windows the 64-bit binary before the 32-bit one.
pub open spec fn executable_of(host: &Host, game_dir: Seq<char>) -> Option<
    (Seq<char>, InstallKind),
> {
    match host.platform {
        Platform::Linux => if host.has_file(joined(host.platform, game_dir, "arma3.x86_64"@)) {
            Some((joined(host.platform, game_dir, "arma3.x86_64"@), InstallKind::LinuxNative))
        } else if host.has_file(joined(host.platform, game_dir, "arma3_x64.exe"@)) {
            Some((joined(host.platform, game_dir, "arma3_x64.exe"@), InstallKind::LinuxProton))
        } else {
            None
        },
        Platform::Windows => if host.has_file(
            joined(host.platform, game_dir, "arma3_x64.exe"@),
        ) {
            Some((joined(host.platform, game_dir, "arma3_x64.exe"@), InstallKind::WindowsNative))
        } else if host.has_file(joined(host.platform, game_dir, "arma3.exe"@)) {
            Some((joined(host.platform, game_dir, "arma3.exe"@), InstallKind::WindowsNative))
        } else {
            None
        },
        Platform::Other => None,
    }
}

/// Whether `game_dir` is a valid installation: a directory that holds a
/// recognised executable.
pub open spec fn is_install(host: &Host, game_dir: Seq<char>) -> bool {
    host.has_dir(game_dir) && executable_of(host, game_dir) is Some
}

/// Finds the game's executable in `game_dir`.
pub fn find_executable(host: &Host, game_dir: &str) -> (r: Option<(String, InstallKind)>)
    ensures
        match r {
            Some((exe, kind)) => executable_of(host, game_dir@) == Some((exe@, kind)),
            None => executable_of(host, game_dir@) is None,
        },
{
    match host.platform {
        Platform::Linux => {
            let p = join(host.platform, game_dir, "arma3.x86_64");
            if host.is_file(p.as_str()) {
                return Some((p, InstallKind::LinuxNative));
            }
            let p = join(host.platform, game_dir, "arma3_x64.exe");
            if host.is_file(p.as_str()) {
                return Some((p, InstallKind::LinuxProton));
            }
            None
        },
        Platform::Windows => {
            let p = join(host.platform, game_dir, "arma3_x64.exe");
            if host.is_file(p.as_str()) {
                return Some((p, InstallKind::WindowsNative));
            }
            let p = join(host.platform, game_dir, "arma3.exe");
            if host.is_file(p.as_str()) {
                return Some((p, InstallKind::WindowsNative));
            }
            None
        },
        Platform::Other => None,
    }
}

impl View for Arma3Install {
    type V = InstallView;

    closed spec fn view(&self) -> InstallView {
        InstallView {
            game_dir: self.game_dir@,
            workshop_dir: match self.workshop_dir {
                Some(w) => Some(w@),
                None => None,
            },
            executable: self.executable@,
            kind: self.kind,
        }
    }
}

impl Arma3Install {
    /// Whether the installation is what `host` shows at its directory.
    pub open spec fn valid_in(&self, host: &Host) -> bool {
        host.has_dir(self@.game_dir) && executable_of(host, self@.game_dir) == Some(
            (self@.executable, self@.kind),
        )
    }

    /// Validates `game_dir` and makes an installation of it.
    ///
    /// Fails with `InvalidInstallDir` where `game_dir` is no directory, and
    /// with `ExecutableNotFound` where it holds no recognised executable.
    pub fn new(host: &Host, game_dir: &str, workshop_dir: Option<String>) -> (r: Result<
        Self,
        Arma3Error,
    >)
        ensures
            match r {
                Ok(install) => is_install(host, game_dir@) && install.valid_in(host)
                    && install@.game_dir == game_dir@ && install@.workshop_dir == (
                match workshop_dir {
                    Some(w) => Some(w@),
                    None => None,
                }),
                Err(Arma3Error::InvalidInstallDir { path }) => !host.has_dir(game_dir@) && path@
                    == game_dir@,
                Err(Arma3Error::ExecutableNotFound { install_dir }) => host.has_dir(game_dir@)
                    && executable_of(host, game_dir@) is None && install_dir@ == game_dir@,
                Err(_) => false,
            },
    {
        if !host.is_dir(game_dir) {
            return Err(Arma3Error::InvalidInstallDir { path: game_dir.to_owned() });
        }
        match find_executable(host, game_dir) {
            Some((executable, kind)) => Ok(
                Arma3Install { game_dir: game_dir.to_owned(), workshop_dir, executable, kind },
            ),
            None => Err(Arma3Error::ExecutableNotFound { install_dir: game_dir.to_owned() }),
        }
    }

    /// The game's directory.
    pub fn game_dir(&self) -> (r: &str)
        ensures
            r@ == self@.game_dir,
    {
        self.game_dir.as_str()
    }

    /// The workshop directory (`.../workshop/content/107410`), if one was
    /// given.
    pub fn workshop_dir(&self) -> (r: Option<&str>)
        ensures
            match r {
                Some(w) => self@.workshop_dir == Some(w@),
                None => self@.workshop_dir is None,
            },
    {
        match &self.workshop_dir {
            Some(w) => Some(w.as_str()),
            None => None,
        }
    }

    /// The game's executable.
    pub fn executable(&self) -> (r: &str)
        ensures
            r@ == self@.executable,
    {
        self.executable.as_str()
    }

    /// How the game runs.
    pub fn kind(&self) -> (r: InstallKind)
        ensures
            r == self@.kind,
    {
        self.kind
    }

    /// Whether the game runs under Proton.
    pub fn is_proton(&self) -> (r: bool)
        ensures
            r == (self@.kind == InstallKind::LinuxProton),
    {
        self.kind == InstallKind::LinuxProton
    }

    /// The settings file's usual place for this installation.
    pub fn default_cfg_path(&self, host: &Host) -> (r: Result<String, Arma3Error>)
        ensures
            match r {
                Ok(p) => cfg_path::cfg_path_of(host, self@.kind, self@.game_dir) == Ok::<
                    Seq<char>,
                    Seq<char>,
                >(p@),
                Err(Arma3Error::Parse { message }) => cfg_path::cfg_path_of(
                    host,
                    self@.kind,
                    self@.game_dir,
                ) == Err::<Seq<char>, Seq<char>>(message@),
                Err(_) => false,
            },
    {
        cfg_path::default_cfg_path(host, self.kind, self.game_dir.as_str())
    }
}

} // verus!
