//! Steam's file formats and layout.

pub mod compat;
pub mod consts;
pub mod detect;
pub mod laws;
pub mod library;
pub mod paths;
pub mod runtime;
pub mod shlex;
pub mod vdf;
