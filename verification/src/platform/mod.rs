//! What differs between the platforms that the game runs on.

pub mod path;
