//! The error type of the library.

use crate::text::concat_str;
use vstd::prelude::*;

verus! {

/// What can go wrong while validating an installation, maintaining the
/// settings file or planning a launch.
#[derive(Clone, Debug)]
pub enum Arma3Error {
    /// The installation directory is missing or is no directory.
    InvalidInstallDir {
        /// The path that failed validation.
        path: String,
    },
    /// No recognised executable stands in the installation directory.
    ExecutableNotFound {
        /// The installation directory that was searched.
        install_dir: String,
    },
    /// A workshop id was given, but the installation has no workshop
    /// directory.
    WorkshopDirMissing,
    /// A mod directory is invalid.
    InvalidModDir {
        /// The mod directory.
        path: String,
    },
    /// No Steam installation was found.
    SteamNotFound,
    /// A Steam configuration file could not be read or parsed.
    SteamConfig {
        /// Human-readable message.
        message: String,
    },
    /// Steam's configuration assigns no compatibility tool to the
    /// application.
    CompatConfigMissing {
        /// Human-readable message.
        message: String,
    },
    /// The directory of the assigned compatibility tool was not found.
    ToolNotFound {
        /// Human-readable message.
        message: String,
    },
    /// The tool's manifest holds no command line.
    ManifestInvalid {
        /// Human-readable message.
        message: String,
    },
    /// The tool's command line holds no word.
    EmptyCommandLine,
    /// The owned block of the settings file is malformed.
    MalformedBlock {
        /// Human-readable message.
        message: String,
    },
    /// A path or setting could not be determined.
    Parse {
        /// Human-readable message.
        message: String,
    },
    /// The platform does not support the requested operation.
    UnsupportedPlatform {
        /// Human-readable message.
        message: String,
    },
    /// Reading or writing a file failed.
    Io {
        /// Human-readable message.
        message: String,
    },
    /// Starting the process failed.
    Spawn {
        /// Human-readable message.
        message: String,
    },
}

/// An error with its texts as character sequences.
pub enum Fault {
    /// See [`Arma3Error::InvalidInstallDir`].
    InvalidInstallDir(Seq<char>),
    /// See [`Arma3Error::ExecutableNotFound`].
    ExecutableNotFound(Seq<char>),
    /// See [`Arma3Error::WorkshopDirMissing`].
    WorkshopDirMissing,
    /// See [`Arma3Error::InvalidModDir`].
    InvalidModDir(Seq<char>),
    /// See [`Arma3Error::SteamNotFound`].
    SteamNotFound,
    /// See [`Arma3Error::SteamConfig`].
    SteamConfig(Seq<char>),
    /// See [`Arma3Error::CompatConfigMissing`].
    CompatConfigMissing(Seq<char>),
    /// See [`Arma3Error::ToolNotFound`].
    ToolNotFound(Seq<char>),
    /// See [`Arma3Error::ManifestInvalid`].
    ManifestInvalid(Seq<char>),
    /// See [`Arma3Error::EmptyCommandLine`].
    EmptyCommandLine,
    /// See [`Arma3Error::MalformedBlock`].
    MalformedBlock(Seq<char>),
    /// See [`Arma3Error::Parse`].
    Parse(Seq<char>),
    /// See [`Arma3Error::UnsupportedPlatform`].
    UnsupportedPlatform(Seq<char>),
    /// See [`Arma3Error::Io`].
    Io(Seq<char>),
    /// See [`Arma3Error::Spawn`].
    Spawn(Seq<char>),
}

impl View for Arma3Error {
    type V = Fault;

    open spec fn view(&self) -> Fault {
        match *self {
            Arma3Error::InvalidInstallDir { path } => Fault::InvalidInstallDir(path@),
            Arma3Error::ExecutableNotFound { install_dir } => Fault::ExecutableNotFound(
                install_dir@,
            ),
            Arma3Error::WorkshopDirMissing => Fault::WorkshopDirMissing,
            Arma3Error::InvalidModDir { path } => Fault::InvalidModDir(path@),
            Arma3Error::SteamNotFound => Fault::SteamNotFound,
            Arma3Error::SteamConfig { message } => Fault::SteamConfig(message@),
            Arma3Error::CompatConfigMissing { message } => Fault::CompatConfigMissing(message@),
            Arma3Error::ToolNotFound { message } => Fault::ToolNotFound(message@),
            Arma3Error::ManifestInvalid { message } => Fault::ManifestInvalid(message@),
            Arma3Error::EmptyCommandLine => Fault::EmptyCommandLine,
            Arma3Error::MalformedBlock { message } => Fault::MalformedBlock(message@),
            Arma3Error::Parse { message } => Fault::Parse(message@),
            Arma3Error::UnsupportedPlatform { message } => Fault::UnsupportedPlatform(message@),
            Arma3Error::Io { message } => Fault::Io(message@),
            Arma3Error::Spawn { message } => Fault::Spawn(message@),
        }
    }
}

/// The text that shows a fault to a human.
pub open spec fn fault_text(f: Fault) -> Seq<char> {
    match f {
        Fault::InvalidInstallDir(path) => "invalid Arma 3 install directory: "@ + path,
        Fault::ExecutableNotFound(dir) => "arma executable not found in install directory: "@
            + dir,
        Fault::WorkshopDirMissing =>
            "workshop directory is required for workshop IDs but was not configured"@,
        Fault::InvalidModDir(path) => "invalid mod directory: "@ + path
            + " (expected an 'addons' directory inside)"@,
        Fault::SteamNotFound =>
            "steam installation could not be detected (required for Proton direct launch)"@,
        Fault::SteamConfig(m) => "steam config error: "@ + m,
        Fault::CompatConfigMissing(m) => "steam config error: "@ + m,
        Fault::ToolNotFound(m) => "steam config error: "@ + m,
        Fault::ManifestInvalid(m) => "steam config error: "@ + m,
        Fault::EmptyCommandLine => "steam config error: empty tool commandline"@,
        Fault::MalformedBlock(m) => "config parsing error: "@ + m,
        Fault::Parse(m) => "config parsing error: "@ + m,
        Fault::UnsupportedPlatform(m) => "config parsing error: "@ + m,
        Fault::Io(m) => m,
        Fault::Spawn(m) => "failed to spawn process: "@ + m,
    }
}

impl Arma3Error {
    /// The text that shows the error to a human.
    pub fn message(&self) -> (r: String)
        ensures
            r@ == fault_text(self@),
    {
        match self {
            Arma3Error::InvalidInstallDir { path } => concat_str(
                "invalid Arma 3 install directory: ",
                path.as_str(),
            ),
            Arma3Error::ExecutableNotFound { install_dir } => concat_str(
                "arma executable not found in install directory: ",
                install_dir.as_str(),
            ),
            Arma3Error::WorkshopDirMissing =>
                "workshop directory is required for workshop IDs but was not configured".to_owned(),
            Arma3Error::InvalidModDir { path } => {
                let head = concat_str("invalid mod directory: ", path.as_str());
                concat_str(head.as_str(), " (expected an 'addons' directory inside)")
            },
            Arma3Error::SteamNotFound =>
                "steam installation could not be detected (required for Proton direct launch)".to_owned(),
            Arma3Error::SteamConfig { message } => concat_str("steam config error: ", message.as_str()),
            Arma3Error::CompatConfigMissing { message } => concat_str(
                "steam config error: ",
                message.as_str(),
            ),
            Arma3Error::ToolNotFound { message } => concat_str(
                "steam config error: ",
                message.as_str(),
            ),
            Arma3Error::ManifestInvalid { message } => concat_str(
                "steam config error: ",
                message.as_str(),
            ),
            Arma3Error::EmptyCommandLine => "steam config error: empty tool commandline".to_owned(),
            Arma3Error::MalformedBlock { message } => concat_str(
                "config parsing error: ",
                message.as_str(),
            ),
            Arma3Error::Parse { message } => concat_str("config parsing error: ", message.as_str()),
            Arma3Error::UnsupportedPlatform { message } => concat_str(
                "config parsing error: ",
                message.as_str(),
            ),
            Arma3Error::Io { message } => message.clone(),
            Arma3Error::Spawn { message } => concat_str("failed to spawn process: ", message.as_str()),
        }
    }
}

} // verus!
