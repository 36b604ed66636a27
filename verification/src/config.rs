//! The stored configuration and the record of the last export.

use crate::cli::Cli;
use crate::error::GhExportError;
use crate::export::ExportSummary;
use crate::format::{duration_text, format_duration, MAX_DURATION_SECONDS};
use crate::text::{
    bool_text, decimal, numeral_value, parse_usize, push_decimal, same_text, texts,
};
use vstd::prelude::*;

verus! {

/// The largest number of parallel downloads that a configuration may ask
/// for.
pub const MAX_PARALLEL_DOWNLOADS: usize = 10;

/// What an export is run with.
#[derive(Debug, PartialEq, Eq)]
pub struct Config {
    pub github_token: Option<String>,
    pub output_directory: String,
    pub parallel_downloads: usize,
    pub include_archived: bool,
    pub exclude_forks: bool,
    pub shallow_clone: bool,
}

impl Default for Config {
    /// No token, the directory `./github-backup`, four parallel downloads,
    /// no archived repositories, forks included, full clones.
    fn default() -> (config: Self)
        ensures
            config.github_token is None,
            config.output_directory@ == "./github-backup"@,
            config.parallel_downloads == 4,
            !config.include_archived,
            !config.exclude_forks,
            !config.shallow_clone,
    {
        Config {
            github_token: None,
            output_directory: String::from_str("./github-backup"),
            parallel_downloads: 4,
            include_archived: false,
            exclude_forks: false,
            shallow_clone: false,
        }
    }
}

/// The configuration that `key` and `value` make of `config`, where the key
/// names a setting and the value suits it.
pub open spec fn with_setting(config: Config, key: Seq<char>, value: String) -> Option<Config> {
    if key == "token"@ {
        Some(
            Config {
                github_token: Some(value),
                output_directory: config.output_directory,
                parallel_downloads: config.parallel_downloads,
                include_archived: config.include_archived,
                exclude_forks: config.exclude_forks,
                shallow_clone: config.shallow_clone,
            },
        )
    } else if key == "output"@ {
        Some(
            Config {
                github_token: config.github_token,
                output_directory: value,
                parallel_downloads: config.parallel_downloads,
                include_archived: config.include_archived,
                exclude_forks: config.exclude_forks,
                shallow_clone: config.shallow_clone,
            },
        )
    } else if key == "parallel"@ {
        match numeral_value(value@) {
            Some(number) => if number <= usize::MAX {
                Some(
                    Config {
                        github_token: config.github_token,
                        output_directory: config.output_directory,
                        parallel_downloads: number as usize,
                        include_archived: config.include_archived,
                        exclude_forks: config.exclude_forks,
                        shallow_clone: config.shallow_clone,
                    },
                )
            } else {
                None
            },
            None => None,
        }
    } else {
        None
    }
}

/// The text of the error for a setting that cannot be applied.
pub open spec fn setting_error_text(key: Seq<char>) -> Seq<char> {
    if key == "parallel"@ {
        "Invalid parallel value"@
    } else {
        "Unknown configuration key: "@ + key
    }
}

/// The configuration after the command line has been laid over it: an option
/// that is given replaces the stored value, a flag that is set switches the
/// setting on, and a parallel count of zero leaves the stored number.
pub open spec fn merged(config: Config, cli: Cli) -> Config {
    Config {
        github_token: if cli.token is Some {
            cli.token
        } else {
            config.github_token
        },
        output_directory: match cli.output {
            Some(output) => output,
            None => config.output_directory,
        },
        parallel_downloads: if cli.parallel > 0 {
            cli.parallel
        } else {
            config.parallel_downloads
        },
        include_archived: config.include_archived || cli.include_archived,
        exclude_forks: config.exclude_forks || cli.exclude_forks,
        shallow_clone: config.shallow_clone || cli.shallow,
    }
}

/// Lays the options of the command line over the stored configuration.
pub fn merge_cli_config(config: &mut Config, cli: &Cli)
    ensures
        *final(config) == merged(*old(config), *cli),
{
    if let Some(token) = &cli.token {
        config.github_token = Some(token.clone());
    }
    if let Some(output) = &cli.output {
        config.output_directory = output.clone();
    }
    if cli.parallel > 0 {
        config.parallel_downloads = cli.parallel;
    }
    if cli.include_archived {
        config.include_archived = true;
    }
    if cli.exclude_forks {
        config.exclude_forks = true;
    }
    if cli.shallow {
        config.shallow_clone = true;
    }
}

impl Config {
    /// The lines that show the configuration. The token itself is never
    /// shown.
    pub open spec fn description(&self) -> Seq<Seq<char>> {
        seq![
            "  Token: "@ + if self.github_token is Some {
                "***"@
            } else {
                "Not set"@
            },
            "  Output directory: "@ + self.output_directory@,
            "  Parallel downloads: "@ + decimal(self.parallel_downloads as nat),
            "  Include archived: "@ + if self.include_archived {
                "true"@
            } else {
                "false"@
            },
            "  Exclude forks: "@ + if self.exclude_forks {
                "true"@
            } else {
                "false"@
            },
            "  Shallow clone: "@ + if self.shallow_clone {
                "true"@
            } else {
                "false"@
            },
        ]
    }

    /// Checks that the number of parallel downloads is between one and ten.
    pub fn validate(&self) -> (checked: Result<(), GhExportError>)
        ensures
            checked is Ok <==> 1 <= self.parallel_downloads <= MAX_PARALLEL_DOWNLOADS,
            checked matches Err(error) ==> error matches GhExportError::Config(text) && text@ == (
            if self.parallel_downloads == 0 {
                "Parallel downloads must be at least 1"@
            } else {
                "Parallel downloads should not exceed 10 to avoid rate limiting"@
            }),
    {
        if self.parallel_downloads == 0 {
            return Err(
                GhExportError::Config(String::from_str("Parallel downloads must be at least 1")),
            );
        }
        if self.parallel_downloads > MAX_PARALLEL_DOWNLOADS {
            return Err(
                GhExportError::Config(
                    String::from_str(
                        "Parallel downloads should not exceed 10 to avoid rate limiting",
                    ),
                ),
            );
        }
        Ok(())
    }

    /// The place of the configuration file below the configuration
    /// directory of the user, if there is such a directory.
    pub fn config_path(config_dir: Option<&str>) -> (path: Result<String, GhExportError>)
        ensures
            match config_dir {
                Some(dir) => {
                    &&& path matches Ok(file)
                    &&& file@ == dir@ + "/gh-export/config.toml"@
                },
                None => {
                    &&& path matches Err(GhExportError::Config(text))
                    &&& text@ == "Could not determine config directory"@
                },
            },
    {
        match config_dir {
            Some(dir) => Ok(String::from_str(dir).concat("/gh-export/config.toml")),
            None => Err(
                GhExportError::Config(String::from_str("Could not determine config directory")),
            ),
        }
    }

    /// Changes one setting: `token`, `output`, or `parallel` with a number.
    /// Any other key, and a parallel value that is no number, is an error
    /// and leaves the configuration as it is.
    pub fn apply_setting(&mut self, key: &str, value: String) -> (applied: Result<
        (),
        GhExportError,
    >)
        ensures
            match with_setting(*old(self), key@, value) {
                Some(config) => applied is Ok && *final(self) == config,
                None => {
                    &&& *final(self) == *old(self)
                    &&& applied matches Err(GhExportError::Config(text))
                    &&& text@ == setting_error_text(key@)
                },
            },
    {
        if same_text(key, "token") {
            self.github_token = Some(value);
            Ok(())
        } else if same_text(key, "output") {
            self.output_directory = value;
            Ok(())
        } else if same_text(key, "parallel") {
            match parse_usize(value.as_str()) {
                Some(number) => {
                    self.parallel_downloads = number;
                    Ok(())
                },
                None => Err(GhExportError::Config(String::from_str("Invalid parallel value"))),
            }
        } else {
            Err(
                GhExportError::Config(
                    String::from_str("Unknown configuration key: ").concat(key),
                ),
            )
        }
    }

    /// The lines that show the configuration.
    pub fn describe(&self) -> (lines: Vec<String>)
        ensures
            texts(lines@) == self.description(),
    {
        let token = String::from_str("  Token: ").concat(
            if self.github_token.is_some() {
                "***"
            } else {
                "Not set"
            },
        );
        let output = String::from_str("  Output directory: ").concat(
            self.output_directory.as_str(),
        );
        let mut parallel = String::from_str("  Parallel downloads: ");
        push_decimal(&mut parallel, self.parallel_downloads as u64);
        let archived = String::from_str("  Include archived: ").concat(
            bool_text(self.include_archived),
        );
        let forks = String::from_str("  Exclude forks: ").concat(bool_text(self.exclude_forks));
        let shallow = String::from_str("  Shallow clone: ").concat(bool_text(self.shallow_clone));
        let mut lines: Vec<String> = Vec::new();
        lines.push(token);
        lines.push(output);
        lines.push(parallel);
        lines.push(archived);
        lines.push(forks);
        lines.push(shallow);
        assert(texts(lines@) =~= self.description());
        lines
    }
}

/// A moment in time: seconds since the start of 1970 in UTC and the
/// nanoseconds into the second.
#[derive(Clone, Copy, Debug, PartialEq, Eq, Structural)]
pub struct Timestamp {
    pub seconds: i64,
    pub nanoseconds: u32,
}

/// The record of an export, kept beside the repositories of the account.
#[derive(Debug, PartialEq, Eq)]
pub struct ExportMetadata {
    pub last_export: Timestamp,
    pub total_repos: usize,
    pub successful_exports: usize,
    pub failed_exports: Vec<String>,
    pub export_duration_seconds: u64,
}

impl ExportMetadata {
    /// The place of the record below the directory of the account.
    pub fn path(output_dir: &str) -> (path: String)
        ensures
            path@ == output_dir@ + "/.gh-export-metadata.json"@,
    {
        String::from_str(output_dir).concat("/.gh-export-metadata.json")
    }

    /// The record of an export that ended at `last_export` after
    /// `export_duration_seconds` seconds with the given summary.
    pub fn from_summary(
        last_export: Timestamp,
        summary: ExportSummary,
        export_duration_seconds: u64,
    ) -> (metadata: ExportMetadata)
        ensures
            metadata.last_export == last_export,
            metadata.total_repos == summary.total,
            metadata.successful_exports == summary.successful,
            metadata.failed_exports == summary.failed,
            metadata.export_duration_seconds == export_duration_seconds,
    {
        ExportMetadata {
            last_export,
            total_repos: summary.total,
            successful_exports: summary.successful,
            failed_exports: summary.failed,
            export_duration_seconds,
        }
    }
}

/// The date and time of a moment in UTC as chrono writes it with year,
/// month, day, hours, minutes and seconds, or nothing where chrono cannot
/// hold the moment.
pub uninterp spec fn chrono_utc_text(seconds: int, nanoseconds: int) -> Option<Seq<char>>;

/// The date and time of a moment in UTC, such as `2015-05-15 00:00:00 UTC`.
///
/// Calls `chrono::DateTime::from_timestamp` and, where that gives a moment,
/// `format` on it with the pattern for year, month, day, hours, minutes and
/// seconds, followed by `UTC`. The text depends on the two numbers alone.
#[verifier::external_body]
fn utc_text(seconds: i64, nanoseconds: u32) -> (text: Option<String>)
    ensures
        match text {
            Some(written) => chrono_utc_text(seconds as int, nanoseconds as int) == Some(written@),
            None => chrono_utc_text(seconds as int, nanoseconds as int).is_none(),
        },
{
    match chrono::DateTime::from_timestamp(seconds, nanoseconds) {
        Some(moment) => Some(moment.format("%Y-%m-%d %H:%M:%S UTC").to_string()),
        None => None,
    }
}

/// One line for each name: the name after a dash.
pub open spec fn name_lines(names: Seq<Seq<char>>) -> Seq<Seq<char>> {
    Seq::new(names.len(), |k: int| "  - "@ + names[k])
}

impl ExportMetadata {
    /// The lines that tell of the export, with `date` as the text of its
    /// moment. The repositories that failed are listed under a heading of
    /// their own where there are any.
    pub open spec fn status_text(&self, date: Seq<char>) -> Seq<Seq<char>> {
        seq![
            "Last export information:"@,
            "  Date: "@ + date,
            "  Total repositories: "@ + decimal(self.total_repos as nat),
            "  Successful: "@ + decimal(self.successful_exports as nat),
            "  Failed: "@ + decimal(self.failed_exports@.len()),
        ] + (if self.failed_exports@.len() > 0 {
            seq![""@, "Failed repositories:"@] + name_lines(texts(self.failed_exports@))
        } else {
            Seq::empty()
        }) + seq![""@, "  Duration: "@ + duration_text(self.export_duration_seconds as int)]
    }

    /// The lines that tell of the export, with `date` as the text of its
    /// moment.
    pub fn status_lines_with(&self, date: &str) -> (lines: Vec<String>)
        requires
            self.export_duration_seconds <= MAX_DURATION_SECONDS,
        ensures
            texts(lines@) == self.status_text(date@),
    {
        let mut lines: Vec<String> = Vec::new();
        lines.push(String::from_str("Last export information:"));
        lines.push(String::from_str("  Date: ").concat(date));
        let mut total = String::from_str("  Total repositories: ");
        push_decimal(&mut total, self.total_repos as u64);
        lines.push(total);
        let mut successful = String::from_str("  Successful: ");
        push_decimal(&mut successful, self.successful_exports as u64);
        lines.push(successful);
        let mut failed = String::from_str("  Failed: ");
        push_decimal(&mut failed, self.failed_exports.len() as u64);
        lines.push(failed);
        let ghost head = texts(lines@);
        let ghost names = texts(self.failed_exports@);
        assert(head =~= seq![
            "Last export information:"@,
            "  Date: "@ + date@,
            "  Total repositories: "@ + decimal(self.total_repos as nat),
            "  Successful: "@ + decimal(self.successful_exports as nat),
            "  Failed: "@ + decimal(self.failed_exports@.len()),
        ]);
        if self.failed_exports.len() > 0 {
            lines.push(String::from_str(""));
            lines.push(String::from_str("Failed repositories:"));
            let ghost listed = texts(lines@);
            assert(listed =~= head + seq![""@, "Failed repositories:"@] + name_lines(
                names.take(0),
            ));
            let mut i: usize = 0;
            while i < self.failed_exports.len()
                invariant
                    i <= self.failed_exports@.len(),
                    names == texts(self.failed_exports@),
                    texts(lines@) == head + seq![""@, "Failed repositories:"@] + name_lines(
                        names.take(i as int),
                    ),
                decreases self.failed_exports@.len() - i,
            {
                let ghost before = texts(lines@);
                lines.push(String::from_str("  - ").concat(self.failed_exports[i].as_str()));
                proof {
                    assert(name_lines(names.take(i + 1)) =~= name_lines(names.take(i as int)).push(
                        "  - "@ + names[i as int],
                    ));
                    assert(texts(lines@) =~= before.push("  - "@ + names[i as int]));
                }
                i = i + 1;
            }
            assert(names.take(i as int) =~= names);
        }
        let ghost body = texts(lines@);
        lines.push(String::from_str(""));
        lines.push(
            String::from_str("  Duration: ").concat(
                format_duration(self.export_duration_seconds as i64).as_str(),
            ),
        );
        assert(texts(lines@) =~= body + seq![
            ""@,
            "  Duration: "@ + duration_text(self.export_duration_seconds as int),
        ]);
        lines
    }

    /// The lines that tell of the export, or nothing where the moment of the
    /// export cannot be written as a date or the export took longer than a
    /// duration can hold.
    pub fn status_lines(&self) -> (lines: Option<Vec<String>>)
        ensures
            match lines {
                Some(lines) => {
                    &&& self.export_duration_seconds <= MAX_DURATION_SECONDS
                    &&& chrono_utc_text(
                        self.last_export.seconds as int,
                        self.last_export.nanoseconds as int,
                    ) matches Some(date)
                    &&& texts(lines@) == self.status_text(date)
                },
                None => self.export_duration_seconds > MAX_DURATION_SECONDS || chrono_utc_text(
                    self.last_export.seconds as int,
                    self.last_export.nanoseconds as int,
                ).is_none(),
            },
    {
        if self.export_duration_seconds > MAX_DURATION_SECONDS as u64 {
            return None;
        }
        match utc_text(self.last_export.seconds, self.last_export.nanoseconds) {
            Some(date) => Some(self.status_lines_with(date.as_str())),
            None => None,
        }
    }
}

/// The token of a configuration, or the error of a command that cannot go
/// on without one: a sync points to the set-up, an export says that no
/// token was provided.
pub fn require_token(config: &Config, is_sync: bool) -> (token: Result<String, GhExportError>)
    ensures
        match config.github_token {
            Some(held) => token == Ok::<String, GhExportError>(held),
            None => {
                &&& token matches Err(GhExportError::Config(text))
                &&& text@ == sync_or_export(is_sync)
            },
        },
{
    match &config.github_token {
        Some(held) => Ok(held.clone()),
        None => Err(
            GhExportError::Config(
                String::from_str(
                    if is_sync {
                        "No GitHub token configured. Run without subcommand to set up."
                    } else {
                        "No GitHub token provided"
                    },
                ),
            ),
        ),
    }
}

/// The text of the error for a missing token.
pub open spec fn sync_or_export(is_sync: bool) -> Seq<char> {
    if is_sync {
        "No GitHub token configured. Run without subcommand to set up."@
    } else {
        "No GitHub token provided"@
    }
}

/// Whether an export begins with the questions of the set-up: no token is
/// known and the user has not asked for quiet.
pub fn needs_setup(config: &Config, quiet: bool) -> (ask: bool)
    ensures
        ask == (config.github_token is None && !quiet),
{
    config.github_token.is_none() && !quiet
}

} // verus!
