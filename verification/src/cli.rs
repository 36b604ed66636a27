//! What the command line asks for, as plain values.

use vstd::prelude::*;

verus! {

/// The options and the subcommand of one invocation.
#[derive(Debug, PartialEq, Eq)]
pub struct Cli {
    pub command: Option<Commands>,
    /// The GitHub personal access token.
    pub token: Option<String>,
    /// The output directory for repositories.
    pub output: Option<String>,
    /// The number of parallel downloads; zero leaves the configured number.
    pub parallel: usize,
    pub include_archived: bool,
    pub exclude_forks: bool,
    /// Clone with a history of one commit.
    pub shallow: bool,
    /// A pattern for repository names.
    pub filter: Option<String>,
    pub quiet: bool,
    pub verbose: bool,
}

/// The subcommands.
#[derive(Debug, PartialEq, Eq)]
pub enum Commands {
    /// Synchronise the repositories that were exported before.
    Sync { since: Option<String> },
    /// Show or change the stored configuration.
    Config { action: ConfigAction },
    /// Show what the last export did.
    Status,
}

/// What to do with the stored configuration.
#[derive(Debug, PartialEq, Eq)]
pub enum ConfigAction {
    Show,
    SetValue { key: String, value: String },
    Clear,
}

impl Clone for ConfigAction {
    fn clone(&self) -> (copy: Self)
        ensures
            copy == *self,
    {
        match self {
            ConfigAction::Show => ConfigAction::Show,
            ConfigAction::SetValue { key, value } => ConfigAction::SetValue {
                key: key.clone(),
                value: value.clone(),
            },
            ConfigAction::Clear => ConfigAction::Clear,
        }
    }
}

/// The name of the log level that the options ask for: verbose wins over
/// quiet.
pub fn log_level(verbose: bool, quiet: bool) -> (level: &'static str)
    ensures
        level@ == if verbose {
            "debug"@
        } else if quiet {
            "error"@
        } else {
            "info"@
        },
{
    if verbose {
        "debug"
    } else if quiet {
        "error"
    } else {
        "info"
    }
}

} // verus!
