//! The commands of the program, as values.

use vstd::prelude::*;

verus! {

/// One invocation of the program.
#[derive(Debug, PartialEq, Eq)]
pub struct Cli {
    pub command: Commands,
}

/// What the user asks the program to do.
#[derive(Debug, PartialEq, Eq)]
pub enum Commands {
    /// Add a server profile through the wizard.
    Add {},
    /// Copy `remote_path` from the server stored under `alias`, to
    /// `destination` where one is given.
    Download { alias: String, remote_path: String, destination: Option<String> },
    /// Remove the profile stored under `alias`.
    Remove { alias: String },
    /// Show the stored profiles.
    List,
}

} // verus!
