use gh_export::error::GhExportError;

#[test]
fn every_error_has_its_message() {
    let detail = || "why".to_string();
    assert_eq!(GhExportError::GitHubApi(detail()).message(), "GitHub API error: why");
    assert_eq!(GhExportError::Network(detail()).message(), "Network error: why");
    assert_eq!(GhExportError::Git(detail()).message(), "Git error: why");
    assert_eq!(GhExportError::Io(detail()).message(), "IO error: why");
    assert_eq!(GhExportError::Config(detail()).message(), "Configuration error: why");
    assert_eq!(GhExportError::Serialization(detail()).message(), "Serialization error: why");
    assert_eq!(GhExportError::Toml(detail()).message(), "TOML error: why");
    assert_eq!(GhExportError::Auth(detail()).message(), "Authentication error: why");
    assert_eq!(
        GhExportError::RateLimit(detail()).message(),
        "Rate limit exceeded. Reset at: why"
    );
    assert_eq!(GhExportError::Download(detail()).message(), "Repository download failed: why");
    assert_eq!(GhExportError::InvalidUrl(detail()).message(), "Invalid URL: why");
    assert_eq!(GhExportError::Dialog(detail()).message(), "Dialog error: why");
}

#[test]
fn insufficient_space_names_both_amounts() {
    let error = GhExportError::InsufficientSpace { needed: 2048, available: 1000 };
    assert_eq!(error.message(), "Disk space insufficient: need 2048 bytes, have 1000 bytes");
    let error = GhExportError::InsufficientSpace { needed: u64::MAX, available: 0 };
    assert_eq!(
        error.message(),
        "Disk space insufficient: need 18446744073709551615 bytes, have 0 bytes"
    );
}
