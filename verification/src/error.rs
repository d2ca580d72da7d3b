//! The failures that a command can end with, and the text shown for each.

use vstd::prelude::*;
use crate::text::{chain, chain3};

verus! {

/// Why a command failed.
///
/// Where a failure was caused by the operating system, the transport or the
/// file format, the variant holds the text of that cause.
#[derive(Debug, PartialEq, Eq)]
pub enum DownloaderError {
    /// No profile is stored under this alias.
    ServerNotFound(String),
    /// No key file at this path.
    SshKeyNotFound(String),
    /// The session could not be opened or authenticated.
    ConnectionFailed(String),
    /// The remote side has no file at this path.
    RemoteFileNotFound(String),
    /// Access to this path was refused.
    PermissionDenied(String),
    /// The stored profiles could not be read or written.
    ConfigError(String),
    /// The key file does not hold a key.
    InvalidSshKeyFormat(String),
    /// The comment of a public key names no host.
    HostnameExtractionFailed,
    /// A local read or write failed.
    IoError(String),
    /// The transport reported a failure.
    SshError(String),
    /// A document was not valid JSON.
    JsonError(String),
    /// The user's home directory is unknown.
    HomeDirectoryNotFound,
}

/// The mathematical form of a `DownloaderError`.
pub enum Failure {
    ServerNotFound(Seq<char>),
    SshKeyNotFound(Seq<char>),
    ConnectionFailed(Seq<char>),
    RemoteFileNotFound(Seq<char>),
    PermissionDenied(Seq<char>),
    ConfigError(Seq<char>),
    InvalidSshKeyFormat(Seq<char>),
    HostnameExtractionFailed,
    IoError(Seq<char>),
    SshError(Seq<char>),
    JsonError(Seq<char>),
    HomeDirectoryNotFound,
}

impl Failure {
    /// The text shown to the user for this failure.
    pub open spec fn message(self) -> Seq<char> {
        match self {
            Failure::ServerNotFound(alias) => "Server '"@ + alias + "' not found in configuration"@,
            Failure::SshKeyNotFound(path) => "SSH key file not found: "@ + path,
            Failure::ConnectionFailed(cause) => "Failed to connect to server: "@ + cause,
            Failure::RemoteFileNotFound(path) => "File not found on remote server: "@ + path,
            Failure::PermissionDenied(path) => "Permission denied accessing: "@ + path,
            Failure::ConfigError(cause) => "Configuration error: "@ + cause,
            Failure::InvalidSshKeyFormat(cause) => "Invalid SSH key format: "@ + cause,
            Failure::HostnameExtractionFailed => "Could not extract hostname from SSH key comment"@,
            Failure::IoError(cause) => "IO error: "@ + cause,
            Failure::SshError(cause) => "SSH error: "@ + cause,
            Failure::JsonError(cause) => "JSON error: "@ + cause,
            Failure::HomeDirectoryNotFound => "Home directory not found"@,
        }
    }
}

impl View for DownloaderError {
    type V = Failure;

    open spec fn view(&self) -> Failure {
        match self {
            DownloaderError::ServerNotFound(alias) => Failure::ServerNotFound(alias@),
            DownloaderError::SshKeyNotFound(path) => Failure::SshKeyNotFound(path@),
            DownloaderError::ConnectionFailed(cause) => Failure::ConnectionFailed(cause@),
            DownloaderError::RemoteFileNotFound(path) => Failure::RemoteFileNotFound(path@),
            DownloaderError::PermissionDenied(path) => Failure::PermissionDenied(path@),
            DownloaderError::ConfigError(cause) => Failure::ConfigError(cause@),
            DownloaderError::InvalidSshKeyFormat(cause) => Failure::InvalidSshKeyFormat(cause@),
            DownloaderError::HostnameExtractionFailed => Failure::HostnameExtractionFailed,
            DownloaderError::IoError(cause) => Failure::IoError(cause@),
            DownloaderError::SshError(cause) => Failure::SshError(cause@),
            DownloaderError::JsonError(cause) => Failure::JsonError(cause@),
            DownloaderError::HomeDirectoryNotFound => Failure::HomeDirectoryNotFound,
        }
    }
}

/// The view of a result that holds text.
pub open spec fn text_result(r: Result<String, DownloaderError>) -> Result<Seq<char>, Failure> {
    match r {
        Ok(text) => Ok(text@),
        Err(failure) => Err(failure@),
    }
}

impl Clone for DownloaderError {
    fn clone(&self) -> (copy: Self)
        ensures
            copy == *self,
    {
        match self {
            DownloaderError::ServerNotFound(alias) => DownloaderError::ServerNotFound(
                alias.clone(),
            ),
            DownloaderError::SshKeyNotFound(path) => DownloaderError::SshKeyNotFound(path.clone()),
            DownloaderError::ConnectionFailed(cause) => DownloaderError::ConnectionFailed(
                cause.clone(),
            ),
            DownloaderError::RemoteFileNotFound(path) => DownloaderError::RemoteFileNotFound(
                path.clone(),
            ),
            DownloaderError::PermissionDenied(path) => DownloaderError::PermissionDenied(
                path.clone(),
            ),
            DownloaderError::ConfigError(cause) => DownloaderError::ConfigError(cause.clone()),
            DownloaderError::InvalidSshKeyFormat(cause) => DownloaderError::InvalidSshKeyFormat(
                cause.clone(),
            ),
            DownloaderError::HostnameExtractionFailed => DownloaderError::HostnameExtractionFailed,
            DownloaderError::IoError(cause) => DownloaderError::IoError(cause.clone()),
            DownloaderError::SshError(cause) => DownloaderError::SshError(cause.clone()),
            DownloaderError::JsonError(cause) => DownloaderError::JsonError(cause.clone()),
            DownloaderError::HomeDirectoryNotFound => DownloaderError::HomeDirectoryNotFound,
        }
    }
}

impl DownloaderError {
    /// The text shown to the user for this failure.
    pub fn message(&self) -> (text: String)
        ensures
            text@ == self@.message(),
    {
        match self {
            DownloaderError::ServerNotFound(alias) => chain3(
                "Server '",
                alias.as_str(),
                "' not found in configuration",
            ),
            DownloaderError::SshKeyNotFound(path) => chain(
                "SSH key file not found: ",
                path.as_str(),
            ),
            DownloaderError::ConnectionFailed(cause) => chain(
                "Failed to connect to server: ",
                cause.as_str(),
            ),
            DownloaderError::RemoteFileNotFound(path) => chain(
                "File not found on remote server: ",
                path.as_str(),
            ),
            DownloaderError::PermissionDenied(path) => chain(
                "Permission denied accessing: ",
                path.as_str(),
            ),
            DownloaderError::ConfigError(cause) => chain("Configuration error: ", cause.as_str()),
            DownloaderError::InvalidSshKeyFormat(cause) => chain(
                "Invalid SSH key format: ",
                cause.as_str(),
            ),
            DownloaderError::HostnameExtractionFailed => {
                "Could not extract hostname from SSH key comment".to_owned()
            },
            DownloaderError::IoError(cause) => chain("IO error: ", cause.as_str()),
            DownloaderError::SshError(cause) => chain("SSH error: ", cause.as_str()),
            DownloaderError::JsonError(cause) => chain("JSON error: ", cause.as_str()),
            DownloaderError::HomeDirectoryNotFound => "Home directory not found".to_owned(),
        }
    }
}

} // verus!
