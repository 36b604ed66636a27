//! The error type shared by every part of the exporter.

use crate::text::{decimal, push_decimal};
use vstd::prelude::*;

verus! {

/// What can go wrong during an export.
///
/// Errors that come from the network, from git, from the file system, from a
/// parser or from the terminal are carried as the text that describes them.
#[derive(Debug, PartialEq, Eq)]
pub enum GhExportError {
    /// The GitHub API answered with something other than success.
    GitHubApi(String),
    /// A request did not reach the remote host or no answer came back.
    Network(String),
    /// A git operation on a local or remote repository failed.
    Git(String),
    /// A file system operation failed.
    Io(String),
    /// The configuration is missing something or holds a value out of range.
    Config(String),
    /// JSON could not be written or read.
    Serialization(String),
    /// The configuration file is not valid TOML.
    Toml(String),
    /// The token cannot be used to authenticate.
    Auth(String),
    /// The API rate limit is used up; the text says when it resets.
    RateLimit(String),
    /// The task that downloads a repository did not run to its end.
    Download(String),
    /// A URL could not be understood.
    InvalidUrl(String),
    /// The output volume is too small for the batch.
    InsufficientSpace { needed: u64, available: u64 },
    /// A question to the user could not be asked or answered.
    Dialog(String),
}

impl GhExportError {
    /// The text shown for this error.
    pub open spec fn message_text(&self) -> Seq<char> {
        match self {
            GhExportError::GitHubApi(detail) => "GitHub API error: "@ + detail@,
            GhExportError::Network(detail) => "Network error: "@ + detail@,
            GhExportError::Git(detail) => "Git error: "@ + detail@,
            GhExportError::Io(detail) => "IO error: "@ + detail@,
            GhExportError::Config(detail) => "Configuration error: "@ + detail@,
            GhExportError::Serialization(detail) => "Serialization error: "@ + detail@,
            GhExportError::Toml(detail) => "TOML error: "@ + detail@,
            GhExportError::Auth(detail) => "Authentication error: "@ + detail@,
            GhExportError::RateLimit(detail) => "Rate limit exceeded. Reset at: "@ + detail@,
            GhExportError::Download(detail) => "Repository download failed: "@ + detail@,
            GhExportError::InvalidUrl(detail) => "Invalid URL: "@ + detail@,
            GhExportError::InsufficientSpace { needed, available } => {
                "Disk space insufficient: need "@ + decimal(*needed as nat) + " bytes, have "@
                    + decimal(*available as nat) + " bytes"@
            },
            GhExportError::Dialog(detail) => "Dialog error: "@ + detail@,
        }
    }

    /// Renders the error as the text shown to the user.
    pub fn message(&self) -> (text: String)
        ensures
            text@ == self.message_text(),
    {
        match self {
            GhExportError::GitHubApi(detail) => prefixed("GitHub API error: ", detail),
            GhExportError::Network(detail) => prefixed("Network error: ", detail),
            GhExportError::Git(detail) => prefixed("Git error: ", detail),
            GhExportError::Io(detail) => prefixed("IO error: ", detail),
            GhExportError::Config(detail) => prefixed("Configuration error: ", detail),
            GhExportError::Serialization(detail) => prefixed("Serialization error: ", detail),
            GhExportError::Toml(detail) => prefixed("TOML error: ", detail),
            GhExportError::Auth(detail) => prefixed("Authentication error: ", detail),
            GhExportError::RateLimit(detail) => prefixed("Rate limit exceeded. Reset at: ", detail),
            GhExportError::Download(detail) => prefixed("Repository download failed: ", detail),
            GhExportError::InvalidUrl(detail) => prefixed("Invalid URL: ", detail),
            GhExportError::InsufficientSpace { needed, available } => {
                let mut text = String::from_str("Disk space insufficient: need ");
                push_decimal(&mut text, *needed);
                text.append(" bytes, have ");
                push_decimal(&mut text, *available);
                text.append(" bytes");
                text
            },
            GhExportError::Dialog(detail) => prefixed("Dialog error: ", detail),
        }
    }
}

/// `prefix` followed by `detail`.
fn prefixed(prefix: &str, detail: &String) -> (text: String)
    ensures
        text@ == prefix@ + detail@,
{
    String::from_str(prefix).concat(detail.as_str())
}

} // verus!
