//! Configuration resolution for an AppImage package manager: locating the
//! configuration file under XDG conventions, building the default
//! configuration, and turning the file's text into a resolved configuration.

pub mod cli;
pub mod environment;
pub mod paths;
pub mod expansion;
pub mod toml_format;
pub mod config;
