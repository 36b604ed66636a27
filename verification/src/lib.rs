//! Bulk synchronisation of the repositories of one GitHub account into a
//! local directory tree.
//!
//! The crate holds the decisions of the synchronisation engine: which
//! repositories are exported, whether a repository is cloned or updated, how
//! the result of each transport step is classified, how many workers may run
//! at once and what the progress counters show. Network, file system and
//! terminal are left to the caller, which performs the actions that the
//! engine asks for and reports what happened.

pub mod cli;
pub mod config;
pub mod download;
pub mod error;
pub mod export;
pub mod format;
pub mod gate;
pub mod github;
pub mod progress;
pub mod text;
pub mod worker;
