use gh_export::cli::{log_level, Cli, Commands, ConfigAction};
use gh_export::config::{
    merge_cli_config, needs_setup, require_token, Config, ExportMetadata, Timestamp,
    MAX_PARALLEL_DOWNLOADS,
};
use gh_export::error::GhExportError;
use gh_export::export::ExportSummary;

fn cli() -> Cli {
    Cli {
        command: None,
        token: None,
        output: None,
        parallel: 0,
        include_archived: false,
        exclude_forks: false,
        shallow: false,
        filter: None,
        quiet: false,
        verbose: false,
    }
}

fn metadata(failed: Vec<&str>, seconds: u64) -> ExportMetadata {
    ExportMetadata {
        last_export: Timestamp { seconds: 1_431_648_000, nanoseconds: 0 },
        total_repos: 12,
        successful_exports: 12 - failed.len(),
        failed_exports: failed.into_iter().map(|name| name.to_string()).collect(),
        export_duration_seconds: seconds,
    }
}

#[test]
fn default_configuration() {
    let config = Config::default();
    assert_eq!(config.github_token, None);
    assert_eq!(config.output_directory, "./github-backup");
    assert_eq!(config.parallel_downloads, 4);
    assert!(!config.include_archived);
    assert!(!config.exclude_forks);
    assert!(!config.shallow_clone);
    assert_eq!(config.validate(), Ok(()));
}

#[test]
fn parallel_downloads_must_be_between_one_and_ten() {
    let mut config = Config::default();
    assert_eq!(MAX_PARALLEL_DOWNLOADS, 10);
    for parallel in 1..=10 {
        config.parallel_downloads = parallel;
        assert_eq!(config.validate(), Ok(()));
    }
    config.parallel_downloads = 0;
    assert_eq!(
        config.validate(),
        Err(GhExportError::Config("Parallel downloads must be at least 1".to_string()))
    );
    config.parallel_downloads = 11;
    assert_eq!(
        config.validate(),
        Err(GhExportError::Config(
            "Parallel downloads should not exceed 10 to avoid rate limiting".to_string()
        ))
    );
    config.parallel_downloads = usize::MAX;
    assert!(config.validate().is_err());
}

#[test]
fn command_line_without_options_changes_nothing() {
    let mut config = Config::default();
    config.github_token = Some("stored".to_string());
    config.include_archived = true;
    merge_cli_config(&mut config, &cli());
    let mut expected = Config::default();
    expected.github_token = Some("stored".to_string());
    expected.include_archived = true;
    assert_eq!(config, expected);
}

#[test]
fn command_line_options_replace_stored_values() {
    let mut config = Config::default();
    config.github_token = Some("stored".to_string());
    let mut options = cli();
    options.token = Some("given".to_string());
    options.output = Some("/tmp/out".to_string());
    options.parallel = 8;
    options.include_archived = true;
    options.exclude_forks = true;
    options.shallow = true;
    options.filter = Some("ignored".to_string());
    options.command = Some(Commands::Sync { since: Some("2024-01-01".to_string()) });
    merge_cli_config(&mut config, &options);
    assert_eq!(
        config,
        Config {
            github_token: Some("given".to_string()),
            output_directory: "/tmp/out".to_string(),
            parallel_downloads: 8,
            include_archived: true,
            exclude_forks: true,
            shallow_clone: true,
        }
    );
}

#[test]
fn flags_only_switch_settings_on() {
    let mut config = Config::default();
    config.shallow_clone = true;
    config.exclude_forks = true;
    merge_cli_config(&mut config, &cli());
    assert!(config.shallow_clone);
    assert!(config.exclude_forks);
    assert_eq!(config.parallel_downloads, 4);
}

#[test]
fn settings_are_applied_by_key() {
    let mut config = Config::default();
    assert_eq!(config.apply_setting("token", "abc".to_string()), Ok(()));
    assert_eq!(config.github_token, Some("abc".to_string()));
    assert_eq!(config.apply_setting("output", "/data".to_string()), Ok(()));
    assert_eq!(config.output_directory, "/data");
    assert_eq!(config.apply_setting("parallel", "7".to_string()), Ok(()));
    assert_eq!(config.parallel_downloads, 7);
    // the number is not checked against the range when it is set
    assert_eq!(config.apply_setting("parallel", "0".to_string()), Ok(()));
    assert_eq!(config.parallel_downloads, 0);
    assert_eq!(config.apply_setting("parallel", "+25".to_string()), Ok(()));
    assert_eq!(config.parallel_downloads, 25);
}

#[test]
fn settings_that_cannot_be_applied_change_nothing() {
    let mut config = Config::default();
    assert_eq!(
        config.apply_setting("parallel", "many".to_string()),
        Err(GhExportError::Config("Invalid parallel value".to_string()))
    );
    assert_eq!(
        config.apply_setting("parallel", "-1".to_string()),
        Err(GhExportError::Config("Invalid parallel value".to_string()))
    );
    assert_eq!(
        config.apply_setting("colour", "blue".to_string()),
        Err(GhExportError::Config("Unknown configuration key: colour".to_string()))
    );
    assert_eq!(
        config.apply_setting("", "x".to_string()),
        Err(GhExportError::Config("Unknown configuration key: ".to_string()))
    );
    assert_eq!(config, Config::default());
}

#[test]
fn configuration_is_shown_without_the_token() {
    let mut config = Config::default();
    assert_eq!(
        config.describe(),
        vec![
            "  Token: Not set",
            "  Output directory: ./github-backup",
            "  Parallel downloads: 4",
            "  Include archived: false",
            "  Exclude forks: false",
            "  Shallow clone: false",
        ]
    );
    config.github_token = Some("t0ken".to_string());
    config.exclude_forks = true;
    let lines = config.describe();
    assert_eq!(lines[0], "  Token: ***");
    assert_eq!(lines[4], "  Exclude forks: true");
}

#[test]
fn configuration_file_lies_below_the_configuration_directory() {
    assert_eq!(
        Config::config_path(Some("/home/u/.config")),
        Ok("/home/u/.config/gh-export/config.toml".to_string())
    );
    assert_eq!(
        Config::config_path(None),
        Err(GhExportError::Config("Could not determine config directory".to_string()))
    );
    assert_eq!(ExportMetadata::path("/backup/octo"), "/backup/octo/.gh-export-metadata.json");
}

#[test]
fn missing_token_is_an_error_of_its_command() {
    let mut config = Config::default();
    assert_eq!(
        require_token(&config, true),
        Err(GhExportError::Config(
            "No GitHub token configured. Run without subcommand to set up.".to_string()
        ))
    );
    assert_eq!(
        require_token(&config, false),
        Err(GhExportError::Config("No GitHub token provided".to_string()))
    );
    assert!(needs_setup(&config, false));
    assert!(!needs_setup(&config, true));
    config.github_token = Some("abc".to_string());
    assert_eq!(require_token(&config, true), Ok("abc".to_string()));
    assert!(!needs_setup(&config, false));
}

#[test]
fn log_level_follows_the_options() {
    assert_eq!(log_level(false, false), "info");
    assert_eq!(log_level(false, true), "error");
    assert_eq!(log_level(true, false), "debug");
    assert_eq!(log_level(true, true), "debug");
}

#[test]
fn config_action_is_copied() {
    let action = ConfigAction::SetValue { key: "token".to_string(), value: "abc".to_string() };
    assert_eq!(action.clone(), action);
    assert_eq!(ConfigAction::Show.clone(), ConfigAction::Show);
    assert_eq!(ConfigAction::Clear.clone(), ConfigAction::Clear);
    assert_eq!(Commands::Status, Commands::Status);
}

#[test]
fn status_of_an_export_without_failures() {
    assert_eq!(
        metadata(vec![], 3723).status_lines(),
        Some(vec![
            "Last export information:".to_string(),
            "  Date: 2015-05-15 00:00:00 UTC".to_string(),
            "  Total repositories: 12".to_string(),
            "  Successful: 12".to_string(),
            "  Failed: 0".to_string(),
            "".to_string(),
            "  Duration: 1h 2m 3s".to_string(),
        ])
    );
}

#[test]
fn status_lists_the_repositories_that_failed() {
    assert_eq!(
        metadata(vec!["octo/a", "octo/b"], 59).status_lines_with("yesterday"),
        vec![
            "Last export information:",
            "  Date: yesterday",
            "  Total repositories: 12",
            "  Successful: 10",
            "  Failed: 2",
            "",
            "Failed repositories:",
            "  - octo/a",
            "  - octo/b",
            "",
            "  Duration: 59s",
        ]
    );
}

#[test]
fn status_needs_a_date_and_a_duration_that_can_be_held() {
    let mut record = metadata(vec![], 1);
    record.last_export = Timestamp { seconds: i64::MAX, nanoseconds: 0 };
    assert_eq!(record.status_lines(), None);
    let mut record = metadata(vec![], 1);
    record.last_export = Timestamp { seconds: 0, nanoseconds: 2_000_000_000 };
    assert_eq!(record.status_lines(), None);
    assert_eq!(metadata(vec![], u64::MAX).status_lines(), None);
    let record = metadata(vec![], 0);
    assert_eq!(record.status_lines().map(|lines| lines.len()), Some(7));
}

#[test]
fn record_is_made_from_the_summary() {
    let summary = ExportSummary {
        total: 3,
        successful: 2,
        failed: vec!["octo/x".to_string()],
        failure_lines: vec!["  - octo/x: Clone failed: y".to_string()],
    };
    let finished = Timestamp { seconds: 10, nanoseconds: 20 };
    assert_eq!(
        ExportMetadata::from_summary(finished, summary, 99),
        ExportMetadata {
            last_export: finished,
            total_repos: 3,
            successful_exports: 2,
            failed_exports: vec!["octo/x".to_string()],
            export_duration_seconds: 99,
        }
    );
}
