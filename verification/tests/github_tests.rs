use gh_export::config::Timestamp;
use gh_export::error::GhExportError;
use gh_export::github::{
    accept_header, api_base, api_failure, authorization_header, is_success, listing_url,
    rate_limit_url, rate_limit_wait, user_agent, user_url, wait_until_reset, ListingAction,
    ListingEvent, ListingStage, Owner, RateLimit, RateLimitResponse, Repository,
    RepositoryListing, User, WaitTime, PER_PAGE, REQUEST_TIMEOUT_SECONDS,
};

fn repository(number: usize) -> Repository {
    Repository {
        id: number as u64,
        name: format!("r{number}"),
        full_name: format!("octo/r{number}"),
        owner: Owner { login: "octo".to_string(), id: 7, owner_type: "User".to_string() },
        private: false,
        html_url: String::new(),
        description: None,
        fork: false,
        created_at: String::new(),
        updated_at: String::new(),
        pushed_at: None,
        clone_url: String::new(),
        ssh_url: String::new(),
        size: 1,
        stargazers_count: 0,
        watchers_count: 0,
        language: None,
        archived: false,
        disabled: false,
        default_branch: "main".to_string(),
    }
}

fn page(from: usize, count: usize) -> Vec<Repository> {
    (from..from + count).map(repository).collect()
}

fn status(code: u16, line: &str) -> ListingEvent {
    ListingEvent::Status { code, line: line.to_string() }
}

fn rate(remaining: u64, reset: u64) -> RateLimit {
    RateLimit { limit: 5000, remaining, reset, used: 5000 - remaining }
}

#[test]
fn addresses_of_the_api() {
    assert_eq!(api_base(), "https://api.github.com");
    assert_eq!(user_agent(), "gh-export/0.1.0");
    assert_eq!(accept_header(), "application/vnd.github+json");
    assert_eq!(REQUEST_TIMEOUT_SECONDS, 30);
    assert_eq!(PER_PAGE, 100);
    assert_eq!(user_url(), "https://api.github.com/user");
    assert_eq!(rate_limit_url(), "https://api.github.com/rate_limit");
    assert_eq!(
        listing_url(false, "octo", 1),
        "https://api.github.com/users/octo/repos?per_page=100&page=1"
    );
    assert_eq!(
        listing_url(true, "octo", 12),
        "https://api.github.com/user/repos?per_page=100&page=12"
    );
}

#[test]
fn token_becomes_a_bearer_header() {
    assert_eq!(authorization_header("abc123"), Ok("Bearer abc123".to_string()));
    assert_eq!(authorization_header(""), Ok("Bearer ".to_string()));
    assert_eq!(authorization_header("tab\there"), Ok("Bearer tab\there".to_string()));
    assert_eq!(authorization_header("ümlaut"), Ok("Bearer ümlaut".to_string()));
}

#[test]
fn token_with_control_characters_is_refused() {
    for token in ["line\nbreak", "carriage\rreturn", "nul\0", "delete\u{7f}", "escape\u{1b}"] {
        assert_eq!(
            authorization_header(token),
            Err(GhExportError::Auth("Invalid token format".to_string())),
            "{token:?}"
        );
    }
}

#[test]
fn success_is_two_hundred_to_two_hundred_ninety_nine() {
    assert!(!is_success(199));
    assert!(is_success(200));
    assert!(is_success(204));
    assert!(is_success(299));
    assert!(!is_success(300));
    assert!(!is_success(404));
    assert!(!is_success(0));
}

#[test]
fn api_failure_quotes_status_and_body() {
    assert_eq!(
        api_failure("Failed to get user info", "401 Unauthorized", "Bad credentials"),
        GhExportError::GitHubApi(
            "Failed to get user info: 401 Unauthorized - Bad credentials".to_string()
        )
    );
}

#[test]
fn short_first_page_ends_the_listing() {
    let mut listing = RepositoryListing::new("octo".to_string());
    assert_eq!(listing.current_stage(), ListingStage::Idle);
    assert_eq!(listing.account(), "octo");
    assert_eq!(listing.start(), ListingAction::Get { own: false, page: 1 });
    assert_eq!(listing.step(status(200, "200 OK")), ListingAction::ReadRepositories);
    assert_eq!(listing.step(ListingEvent::Repositories(page(0, 3))), ListingAction::Stop);
    assert_eq!(listing.current_stage(), ListingStage::Finished);
    assert_eq!(listing.into_result(), Some(Ok(page(0, 3))));
}

#[test]
fn full_pages_are_followed_by_the_next() {
    let mut listing = RepositoryListing::new("octo".to_string());
    listing.start();
    listing.step(status(200, "200 OK"));
    assert_eq!(
        listing.step(ListingEvent::Repositories(page(0, 100))),
        ListingAction::Get { own: false, page: 2 }
    );
    listing.step(status(200, "200 OK"));
    assert_eq!(
        listing.step(ListingEvent::Repositories(page(100, 100))),
        ListingAction::Get { own: false, page: 3 }
    );
    listing.step(status(200, "200 OK"));
    assert_eq!(listing.step(ListingEvent::Repositories(Vec::new())), ListingAction::Stop);
    assert_eq!(listing.into_result(), Some(Ok(page(0, 200))));
}

#[test]
fn unknown_user_falls_back_to_the_own_repositories() {
    let mut listing = RepositoryListing::new("octo".to_string());
    listing.start();
    assert_eq!(
        listing.step(status(404, "404 Not Found")),
        ListingAction::Get { own: true, page: 1 }
    );
    assert_eq!(listing.step(status(200, "200 OK")), ListingAction::ReadRepositories);
    // the next page is asked for from the first address again
    assert_eq!(
        listing.step(ListingEvent::Repositories(page(0, 100))),
        ListingAction::Get { own: false, page: 2 }
    );
    assert_eq!(
        listing.step(status(404, "404 Not Found")),
        ListingAction::Get { own: true, page: 2 }
    );
    listing.step(status(200, "200 OK"));
    listing.step(ListingEvent::Repositories(page(100, 1)));
    assert_eq!(listing.into_result(), Some(Ok(page(0, 101))));
}

#[test]
fn second_not_found_is_an_error() {
    let mut listing = RepositoryListing::new("octo".to_string());
    listing.start();
    listing.step(status(404, "404 Not Found"));
    assert_eq!(listing.step(status(404, "404 Not Found")), ListingAction::ReadText);
    assert_eq!(listing.step(ListingEvent::Text("gone".to_string())), ListingAction::Stop);
    assert_eq!(listing.current_stage(), ListingStage::Failed);
    assert_eq!(
        listing.into_result(),
        Some(Err(GhExportError::GitHubApi(
            "Failed to list repositories: 404 Not Found - gone".to_string()
        )))
    );
}

#[test]
fn other_status_is_an_error_with_the_text_of_the_answer() {
    let mut listing = RepositoryListing::new("octo".to_string());
    listing.start();
    assert_eq!(listing.step(status(500, "500 Internal Server Error")), ListingAction::ReadText);
    listing.step(ListingEvent::Text(String::new()));
    assert_eq!(
        listing.into_result(),
        Some(Err(GhExportError::GitHubApi(
            "Failed to list repositories: 500 Internal Server Error - ".to_string()
        )))
    );
}

#[test]
fn reported_failure_ends_the_listing() {
    let mut listing = RepositoryListing::new("octo".to_string());
    let early = GhExportError::Network("early".to_string());
    assert_eq!(listing.step(ListingEvent::Failed(early)), ListingAction::Ignore);
    listing.start();
    listing.step(status(200, "200 OK"));
    let error = GhExportError::Network("body is no JSON".to_string());
    assert_eq!(listing.step(ListingEvent::Failed(error)), ListingAction::Stop);
    let late = GhExportError::Network("late".to_string());
    assert_eq!(listing.step(ListingEvent::Failed(late)), ListingAction::Ignore);
    assert_eq!(
        listing.into_result(),
        Some(Err(GhExportError::Network("body is no JSON".to_string())))
    );
}

#[test]
fn listing_ignores_what_it_does_not_wait_for() {
    let mut listing = RepositoryListing::new("octo".to_string());
    assert_eq!(listing.step(status(200, "200 OK")), ListingAction::Ignore);
    assert_eq!(listing.step(ListingEvent::Repositories(page(0, 1))), ListingAction::Ignore);
    assert_eq!(listing.step(ListingEvent::Text("x".to_string())), ListingAction::Ignore);
    listing.start();
    assert_eq!(listing.start(), ListingAction::Ignore);
    assert_eq!(listing.step(ListingEvent::Repositories(page(0, 1))), ListingAction::Ignore);
    assert_eq!(listing.current_stage(), ListingStage::AwaitingStatus { own: false });
    assert_eq!(listing.into_result(), None);
}

#[test]
fn no_wait_while_requests_are_left() {
    let now = Timestamp { seconds: 1_700_000_000, nanoseconds: 0 };
    assert_eq!(rate_limit_wait(rate(1, 1_700_000_600), now), None);
    assert_eq!(wait_until_reset(rate(1, 1_700_000_600), now, true), None);
}

#[test]
fn wait_lasts_until_the_reset() {
    let now = Timestamp { seconds: 1_700_000_000, nanoseconds: 0 };
    assert_eq!(
        rate_limit_wait(rate(0, 1_700_000_600), now),
        Some(WaitTime { seconds: 600, nanoseconds: 0 })
    );
    let now = Timestamp { seconds: 1_700_000_000, nanoseconds: 250_000_000 };
    assert_eq!(
        rate_limit_wait(rate(0, 1_700_000_600), now),
        Some(WaitTime { seconds: 599, nanoseconds: 750_000_000 })
    );
    assert_eq!(
        rate_limit_wait(rate(0, 1_700_000_001), now),
        Some(WaitTime { seconds: 0, nanoseconds: 750_000_000 })
    );
}

#[test]
fn no_wait_for_a_reset_that_has_passed() {
    let now = Timestamp { seconds: 1_700_000_000, nanoseconds: 1 };
    assert_eq!(rate_limit_wait(rate(0, 1_700_000_000), now), None);
    assert_eq!(rate_limit_wait(rate(0, 1_600_000_000), now), None);
    assert_eq!(rate_limit_wait(rate(0, 0), now), None);
}

#[test]
fn no_wait_for_a_reset_that_is_no_moment() {
    let now = Timestamp { seconds: 1_700_000_000, nanoseconds: 0 };
    // ahead of now, but beyond every date that can be held
    assert_eq!(rate_limit_wait(rate(0, i64::MAX as u64), now), None);
    assert_eq!(rate_limit_wait(rate(0, 1 << 62), now), None);
    // read as a signed number this lies before 1970
    assert_eq!(rate_limit_wait(rate(0, u64::MAX), now), None);
    assert_eq!(wait_until_reset(rate(0, 1_700_000_600), now, false), None);
    assert_eq!(
        wait_until_reset(rate(0, 1 << 62), now, true),
        Some(WaitTime { seconds: (1 << 62) - 1_700_000_000, nanoseconds: 0 })
    );
}

#[test]
fn api_values_are_plain_data() {
    let response = RateLimitResponse { rate: rate(3, 9) };
    assert_eq!(response.rate.used, 4997);
    let user = User {
        login: "octo".to_string(),
        id: 1,
        name: None,
        public_repos: 2,
        total_private_repos: Some(3),
    };
    assert_eq!(user.login, "octo");
    let first = repository(5);
    assert_eq!(first.clone(), first);
    assert_eq!(first.owner.clone(), first.owner);
}
