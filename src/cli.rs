//! The command line, as plain values: the program's argument parser fills
//! these in.
use vstd::prelude::*;

verus! {

/// The parsed command line.
#[derive(Debug, Clone)]
pub struct Cli {
    pub command: Commands,
}

/// The subcommands.
#[derive(Debug, Clone)]
pub enum Commands {
    /// Install an AppImage from a URL or a file path, under an optional name.
    Install { source: InstallSource, name: Option<String> },
    /// List installed AppImages, optionally filtered by a query.
    List { query: Option<String> },
    /// Remove an installed AppImage.
    Remove { name: String },
}

/// Where an AppImage to install comes from: a URL or a file (the parser
/// admits exactly one).
#[derive(Debug, Clone)]
pub struct InstallSource {
    pub url: Option<String>,
    pub file: Option<String>,
}

} // verus!
