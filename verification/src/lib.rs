//! Named SSH server profiles and the rules for fetching one remote file with
//! them: the profile store, the checks on key files, the steps of a
//! connection and of a transfer, and the flows of the four commands.

pub mod add;
pub mod cli;
pub mod config;
pub mod download;
pub mod error;
pub mod list;
pub mod paths;
mod platform;
pub mod remove;
pub mod ssh;
pub mod text;
