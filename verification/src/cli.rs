//! The commands of the launcher.

use vstd::prelude::*;

verus! {

/// What the user asks for.
#[derive(Debug)]
pub enum Command {
    /// Open the project in the directory `path`.
    Path { path: String },
    /// Open the recent project with this index.
    Open { index: usize },
    /// Drop the recent project with this index.
    Remove { index: usize },
    /// Drop all recent projects.
    Clear,
    /// List the recent projects with their indices.
    Options,
    /// Pick a recent project from a menu and open it.
    Recent,
}

/// The command line: a command, or none to open the current directory.
#[derive(Debug)]
pub struct Cli {
    pub command: Option<Command>,
}

} // verus!
