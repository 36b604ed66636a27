//! What the GitHub API tells about an account: its repositories, their
//! owner, the user behind a token and the state of the rate limit.

use crate::config::Timestamp;
use crate::error::GhExportError;
use crate::text::{decimal, push_decimal};
use vstd::prelude::*;

verus! {

/// The account that owns a repository.
#[derive(Debug, PartialEq, Eq)]
pub struct Owner {
    pub login: String,
    pub id: u64,
    pub owner_type: String,
}

impl Clone for Owner {
    fn clone(&self) -> (copy: Self)
        ensures
            copy == *self,
    {
        Owner { login: self.login.clone(), id: self.id, owner_type: self.owner_type.clone() }
    }
}

/// A repository as the API lists it. The size is an estimate in kibibytes.
#[derive(Debug, PartialEq, Eq)]
pub struct Repository {
    pub id: u64,
    pub name: String,
    pub full_name: String,
    pub owner: Owner,
    pub private: bool,
    pub html_url: String,
    pub description: Option<String>,
    pub fork: bool,
    pub created_at: String,
    pub updated_at: String,
    pub pushed_at: Option<String>,
    pub clone_url: String,
    pub ssh_url: String,
    pub size: u64,
    pub stargazers_count: u64,
    pub watchers_count: u64,
    pub language: Option<String>,
    pub archived: bool,
    pub disabled: bool,
    pub default_branch: String,
}

/// A copy of an optional text.
fn copy_text(text: &Option<String>) -> (copy: Option<String>)
    ensures
        copy == *text,
{
    match text {
        Some(value) => Some(value.clone()),
        None => None,
    }
}

impl Clone for Repository {
    fn clone(&self) -> (copy: Self)
        ensures
            copy == *self,
    {
        Repository {
            id: self.id,
            name: self.name.clone(),
            full_name: self.full_name.clone(),
            owner: self.owner.clone(),
            private: self.private,
            html_url: self.html_url.clone(),
            description: copy_text(&self.description),
            fork: self.fork,
            created_at: self.created_at.clone(),
            updated_at: self.updated_at.clone(),
            pushed_at: copy_text(&self.pushed_at),
            clone_url: self.clone_url.clone(),
            ssh_url: self.ssh_url.clone(),
            size: self.size,
            stargazers_count: self.stargazers_count,
            watchers_count: self.watchers_count,
            language: copy_text(&self.language),
            archived: self.archived,
            disabled: self.disabled,
            default_branch: self.default_branch.clone(),
        }
    }
}

/// The answer of the rate limit endpoint.
#[derive(Clone, Copy, Debug, PartialEq, Eq, Structural)]
pub struct RateLimitResponse {
    pub rate: RateLimit,
}

/// The state of the rate limit: the allowance, what is left of it, the time
/// at which it is restored (seconds since the epoch) and what was used.
#[derive(Clone, Copy, Debug, PartialEq, Eq, Structural)]
pub struct RateLimit {
    pub limit: u64,
    pub remaining: u64,
    pub reset: u64,
    pub used: u64,
}

/// The user that a token belongs to.
#[derive(Debug, PartialEq, Eq)]
pub struct User {
    pub login: String,
    pub id: u64,
    pub name: Option<String>,
    pub public_repos: u64,
    pub total_private_repos: Option<u64>,
}

/// The number of repositories asked for with each page of a listing.
pub const PER_PAGE: usize = 100;

/// The number of seconds after which a request is given up.
pub const REQUEST_TIMEOUT_SECONDS: u64 = 30;

/// The root of the GitHub API.
pub fn api_base() -> (url: &'static str)
    ensures
        url@ == "https://api.github.com"@,
{
    "https://api.github.com"
}

/// The name that the exporter gives itself in every request.
pub fn user_agent() -> (agent: &'static str)
    ensures
        agent@ == "gh-export/0.1.0"@,
{
    "gh-export/0.1.0"
}

/// The media type asked for in every request.
pub fn accept_header() -> (media_type: &'static str)
    ensures
        media_type@ == "application/vnd.github+json"@,
{
    "application/vnd.github+json"
}

/// Whether a character may stand in the value of an HTTP header: anything
/// from the space on but the delete character, and the tabulator.
pub open spec fn header_char(c: char) -> bool {
    (c as u32 >= 32 && c as u32 != 127) || c as u32 == 9
}

/// Whether a text can be the value of an HTTP header.
pub open spec fn header_text(text: Seq<char>) -> bool {
    forall|i: int| 0 <= i < text.len() ==> header_char(#[trigger] text[i])
}

/// Whether `value` can be the value of an HTTP header.
///
/// Calls `reqwest::header::HeaderValue::from_str`. It accepts a text if and
/// only if each of its bytes is 32 or above and not 127, or is 9. A
/// character beyond ASCII is made of bytes above 127, so the same holds
/// character by character.
#[verifier::external_body]
fn is_header_value(value: &str) -> (accepted: bool)
    ensures
        accepted == header_text(value@),
{
    match reqwest::header::HeaderValue::from_str(value) {
        Ok(_) => true,
        Err(_) => false,
    }
}

/// The value of the authorization header for `token`. A token with a
/// character that no header value can hold is refused.
pub fn authorization_header(token: &str) -> (header: Result<String, GhExportError>)
    ensures
        match header {
            Ok(value) => header_text("Bearer "@ + token@) && value@ == "Bearer "@ + token@,
            Err(error) => {
                &&& !header_text("Bearer "@ + token@)
                &&& error matches GhExportError::Auth(text)
                &&& text@ == "Invalid token format"@
            },
        },
{
    let value = String::from_str("Bearer ").concat(token);
    if is_header_value(value.as_str()) {
        Ok(value)
    } else {
        Err(GhExportError::Auth(String::from_str("Invalid token format")))
    }
}

/// Whether a status code stands for success: 200 up to 299.
pub fn is_success(status: u16) -> (success: bool)
    ensures
        success == (200 <= status < 300),
{
    200 <= status && status < 300
}

/// The address that tells which user a token belongs to.
pub fn user_url() -> (url: String)
    ensures
        url@ == "https://api.github.com"@ + "/user"@,
{
    String::from_str(api_base()).concat("/user")
}

/// The address that tells the state of the rate limit.
pub fn rate_limit_url() -> (url: String)
    ensures
        url@ == "https://api.github.com"@ + "/rate_limit"@,
{
    String::from_str(api_base()).concat("/rate_limit")
}

/// The address of one page of a listing: the public repositories of a user,
/// or, with `own`, all repositories of the user that the token belongs to.
pub open spec fn listing_url_text(own: bool, username: Seq<char>, page: nat) -> Seq<char> {
    if own {
        "https://api.github.com"@ + "/user/repos?per_page="@ + decimal(PER_PAGE as nat)
            + "&page="@ + decimal(page)
    } else {
        "https://api.github.com"@ + "/users/"@ + username + "/repos?per_page="@ + decimal(
            PER_PAGE as nat,
        ) + "&page="@ + decimal(page)
    }
}

/// The address of one page of a listing.
pub fn listing_url(own: bool, username: &str, page: u64) -> (url: String)
    ensures
        url@ == listing_url_text(own, username@, page as nat),
{
    let mut url = String::from_str(api_base());
    if own {
        url.append("/user/repos?per_page=");
    } else {
        url.append("/users/");
        url.append(username);
        url.append("/repos?per_page=");
    }
    push_decimal(&mut url, PER_PAGE as u64);
    url.append("&page=");
    push_decimal(&mut url, page);
    url
}

/// The error for an answer of the API that is no success: what was being
/// done, the status line and the body of the answer.
pub fn api_failure(doing: &str, status_line: &str, body: &str) -> (error: GhExportError)
    ensures
        error matches GhExportError::GitHubApi(text) && text@ == doing@ + ": "@ + status_line@
            + " - "@ + body@,
{
    let mut text = String::from_str(doing);
    text.append(": ");
    text.append(status_line);
    text.append(" - ");
    text.append(body);
    GhExportError::GitHubApi(text)
}

/// Where the listing of the repositories of an account stands.
#[derive(Clone, Copy, Debug, PartialEq, Eq, Structural)]
pub enum ListingStage {
    /// Nothing was asked for yet.
    Idle,
    /// A page was asked for; `own` tells from which of the two addresses.
    AwaitingStatus { own: bool },
    /// The page was a success and its repositories are being read.
    AwaitingRepositories,
    /// The page was no success and the text of the answer is being read.
    AwaitingText,
    /// The last page was read.
    Finished,
    /// The listing failed.
    Failed,
}

/// What the caller reports to a listing.
#[derive(Debug, PartialEq, Eq)]
pub enum ListingEvent {
    /// The answer to a request has arrived, with this status code and
    /// status line.
    Status { code: u16, line: String },
    /// The repositories of the page.
    Repositories(Vec<Repository>),
    /// The text of an answer that was no success.
    Text(String),
    /// The request or the reading of the answer failed.
    Failed(GhExportError),
}

/// What a listing asks the caller to do next.
#[derive(Clone, Copy, Debug, PartialEq, Eq, Structural)]
pub enum ListingAction {
    /// Request the page from the address that [`listing_url`] gives.
    Get { own: bool, page: u64 },
    /// Read the repositories from the answer.
    ReadRepositories,
    /// Read the text of the answer; an answer that cannot be read counts as
    /// empty.
    ReadText,
    /// Nothing is left to do.
    Stop,
    /// The event does not belong to the stage that the listing is in.
    Ignore,
}

/// The listing of the repositories of an account, page by page.
pub struct RepositoryListing {
    username: String,
    page: u64,
    stage: ListingStage,
    status_line: String,
    repositories: Vec<Repository>,
    failure: Option<GhExportError>,
}

impl RepositoryListing {
    /// The account whose repositories are listed.
    pub closed spec fn username(&self) -> Seq<char> {
        self.username@
    }

    /// The page that is being asked for or read.
    pub closed spec fn page(&self) -> nat {
        self.page as nat
    }

    /// Where the listing stands.
    pub closed spec fn stage(&self) -> ListingStage {
        self.stage
    }

    /// The status line of the answer whose text is being read.
    pub closed spec fn status_line(&self) -> Seq<char> {
        self.status_line@
    }

    /// The repositories of the pages read so far.
    pub closed spec fn collected(&self) -> Seq<Repository> {
        self.repositories@
    }

    /// The error that the listing failed with.
    pub closed spec fn failure(&self) -> Option<GhExportError> {
        self.failure
    }

    /// Every page before the current one was full, and a listing has failed
    /// exactly when it holds an error.
    pub closed spec fn wf(&self) -> bool {
        &&& self.page >= 1
        &&& (self.page - 1) * PER_PAGE <= self.repositories@.len()
        &&& self.stage is Failed <==> self.failure is Some
    }

    /// A listing of the repositories of `username` that has not begun.
    pub fn new(username: String) -> (listing: RepositoryListing)
        ensures
            listing.wf(),
            listing.username() == username@,
            listing.page() == 1,
            listing.stage() == ListingStage::Idle,
            listing.collected() == Seq::<Repository>::empty(),
            listing.failure() is None,
    {
        RepositoryListing {
            username,
            page: 1,
            stage: ListingStage::Idle,
            status_line: String::new(),
            repositories: Vec::new(),
            failure: None,
        }
    }

    /// Begins the listing with its first page.
    pub fn start(&mut self) -> (action: ListingAction)
        requires
            old(self).wf(),
        ensures
            final(self).wf(),
            final(self).username() == old(self).username(),
            final(self).page() == old(self).page(),
            final(self).collected() == old(self).collected(),
            final(self).failure() == old(self).failure(),
            old(self).stage() is Idle ==> action == first_request(old(self).page())
                && final(self).stage() == requesting(false),
            !(old(self).stage() is Idle) ==> action == ListingAction::Ignore
                && final(self).stage() == old(self).stage(),
    {
        match self.stage {
            ListingStage::Idle => {
                self.stage = ListingStage::AwaitingStatus { own: false };
                ListingAction::Get { own: false, page: self.page }
            },
            _ => ListingAction::Ignore,
        }
    }

    /// Takes `event` in and says what to do next.
    ///
    /// A page that the first address does not know (status 404) is asked
    /// for again from the second. A page that is a success is read; with
    /// fewer repositories than were asked for it is the last one, otherwise
    /// the next page follows from the first address. Any other status ends
    /// the listing with an error that quotes the status line and the text of
    /// the answer, and a failure that is reported ends it with that failure.
    pub fn step(&mut self, event: ListingEvent) -> (action: ListingAction)
        requires
            old(self).wf(),
        ensures
            final(self).wf(),
            final(self).username() == old(self).username(),
            match (old(self).stage(), event) {
                (ListingStage::AwaitingStatus { own }, ListingEvent::Status { code, line }) => {
                    &&& final(self).page() == old(self).page()
                    &&& final(self).collected() == old(self).collected()
                    &&& if code == 404 && !own {
                        action == next_request(true, old(self).page()) && final(self).stage()
                            == requesting(true)
                    } else if 200 <= code < 300 {
                        action == ListingAction::ReadRepositories && final(self).stage()
                            == ListingStage::AwaitingRepositories
                    } else {
                        &&& action == ListingAction::ReadText
                        &&& final(self).stage() == ListingStage::AwaitingText
                        &&& final(self).status_line() == line@
                    }
                },
                (ListingStage::AwaitingRepositories, ListingEvent::Repositories(found)) => {
                    &&& final(self).collected() == old(self).collected() + found@
                    &&& if found@.len() < PER_PAGE {
                        &&& action == ListingAction::Stop
                        &&& final(self).stage() == ListingStage::Finished
                        &&& final(self).page() == old(self).page()
                    } else {
                        &&& action == next_request(false, old(self).page() + 1)
                        &&& final(self).stage() == requesting(false)
                        &&& final(self).page() == old(self).page() + 1
                    }
                },
                (ListingStage::AwaitingText, ListingEvent::Text(body)) => {
                    &&& action == ListingAction::Stop
                    &&& final(self).stage() == ListingStage::Failed
                    &&& final(self).page() == old(self).page()
                    &&& final(self).collected() == old(self).collected()
                    &&& final(self).failure() matches Some(GhExportError::GitHubApi(text))
                    &&& text@ == "Failed to list repositories"@ + ": "@ + old(self).status_line()
                        + " - "@ + body@
                },
                (stage, ListingEvent::Failed(error)) => {
                    &&& final(self).page() == old(self).page()
                    &&& final(self).collected() == old(self).collected()
                    &&& if awaiting(stage) {
                        &&& action == ListingAction::Stop
                        &&& final(self).stage() == ListingStage::Failed
                        &&& final(self).failure() == Some(error)
                    } else {
                        &&& action == ListingAction::Ignore
                        &&& final(self).stage() == stage
                        &&& final(self).failure() == old(self).failure()
                    }
                },
                (stage, _) => {
                    &&& action == ListingAction::Ignore
                    &&& final(self).stage() == stage
                    &&& final(self).page() == old(self).page()
                    &&& final(self).collected() == old(self).collected()
                    &&& final(self).failure() == old(self).failure()
                },
            },
    {
        match event {
            ListingEvent::Status { code, line } => {
                if let ListingStage::AwaitingStatus { own } = self.stage {
                    if code == 404 && !own {
                        self.stage = ListingStage::AwaitingStatus { own: true };
                        ListingAction::Get { own: true, page: self.page }
                    } else if is_success(code) {
                        self.stage = ListingStage::AwaitingRepositories;
                        ListingAction::ReadRepositories
                    } else {
                        self.stage = ListingStage::AwaitingText;
                        self.status_line = line;
                        ListingAction::ReadText
                    }
                } else {
                    ListingAction::Ignore
                }
            },
            ListingEvent::Repositories(found) => {
                if let ListingStage::AwaitingRepositories = self.stage {
                    let last = found.len() < PER_PAGE;
                    let mut found = found;
                    self.repositories.append(&mut found);
                    if last {
                        self.stage = ListingStage::Finished;
                        ListingAction::Stop
                    } else {
                        let held: usize = self.repositories.len();
                        assert(self.page * 100 <= held);
                        self.page = self.page + 1;
                        self.stage = ListingStage::AwaitingStatus { own: false };
                        ListingAction::Get { own: false, page: self.page }
                    }
                } else {
                    ListingAction::Ignore
                }
            },
            ListingEvent::Text(body) => {
                if let ListingStage::AwaitingText = self.stage {
                    let error = api_failure(
                        "Failed to list repositories",
                        self.status_line.as_str(),
                        body.as_str(),
                    );
                    self.failure = Some(error);
                    self.stage = ListingStage::Failed;
                    ListingAction::Stop
                } else {
                    ListingAction::Ignore
                }
            },
            ListingEvent::Failed(error) => {
                let waiting: bool = match self.stage {
                    ListingStage::AwaitingStatus { .. } => true,
                    ListingStage::AwaitingRepositories => true,
                    ListingStage::AwaitingText => true,
                    _ => false,
                };
                if waiting {
                    self.failure = Some(error);
                    self.stage = ListingStage::Failed;
                    ListingAction::Stop
                } else {
                    ListingAction::Ignore
                }
            },
        }
    }

    /// Where the listing stands.
    pub fn current_stage(&self) -> (stage: ListingStage)
        ensures
            stage == self.stage(),
    {
        self.stage
    }

    /// The account whose repositories are listed.
    pub fn account(&self) -> (username: &str)
        ensures
            username@ == self.username(),
    {
        self.username.as_str()
    }

    /// Ends the listing: the repositories of all pages where the last page
    /// was read, the error where the listing failed, and nothing where it
    /// is still under way.
    pub fn into_result(self) -> (ended: Option<Result<Vec<Repository>, GhExportError>>)
        requires
            self.wf(),
        ensures
            match ended {
                Some(Ok(repositories)) => self.stage() is Finished && repositories@
                    == self.collected(),
                Some(Err(error)) => self.stage() is Failed && self.failure() == Some(error),
                None => !(self.stage() is Finished) && !(self.stage() is Failed),
            },
    {
        match self.stage {
            ListingStage::Finished => Some(Ok(self.repositories)),
            ListingStage::Failed => match self.failure {
                Some(error) => Some(Err(error)),
                None => None,
            },
            _ => None,
        }
    }
}

/// A listing holds an error exactly when it has failed, and every page
/// before the one that it is at was full.
pub proof fn lemma_listing_is_consistent(listing: RepositoryListing)
    requires
        listing.wf(),
    ensures
        listing.stage() is Failed <==> listing.failure() is Some,
        listing.page() >= 1,
        (listing.page() - 1) * PER_PAGE <= listing.collected().len(),
{
}

/// The request for the first page of a listing.
pub open spec fn first_request(page: nat) -> ListingAction {
    ListingAction::Get { own: false, page: page as u64 }
}

/// The request for a page.
pub open spec fn next_request(own: bool, page: nat) -> ListingAction {
    ListingAction::Get { own, page: page as u64 }
}

/// The stage in which a page was asked for.
pub open spec fn requesting(own: bool) -> ListingStage {
    ListingStage::AwaitingStatus { own }
}

/// Whether the listing waits for the caller in this stage.
pub open spec fn awaiting(stage: ListingStage) -> bool {
    stage is AwaitingStatus || stage is AwaitingRepositories || stage is AwaitingText
}

/// Whether chrono can hold the moment that lies `seconds` seconds after the
/// start of 1970 in UTC.
pub uninterp spec fn chrono_timestamp_valid(seconds: int) -> bool;

/// Whether the moment `seconds` seconds after the start of 1970 can be held.
///
/// Calls `chrono::DateTime::from_timestamp` with no nanoseconds and tells
/// whether it gave a moment. The answer depends on the seconds alone.
#[verifier::external_body]
fn timestamp_in_range(seconds: i64) -> (valid: bool)
    ensures
        valid == chrono_timestamp_valid(seconds as int),
{
    match chrono::DateTime::from_timestamp(seconds, 0) {
        Some(_) => true,
        None => false,
    }
}

/// A span of time to wait.
#[derive(Clone, Copy, Debug, PartialEq, Eq, Structural)]
pub struct WaitTime {
    pub seconds: u64,
    pub nanoseconds: u32,
}

/// How long to wait for the rate limit at the moment `now`: until the reset,
/// where nothing is left of the allowance and the reset is a moment that
/// can be held and lies ahead; not at all otherwise.
pub open spec fn wait_for(rate: RateLimit, now: Timestamp, reset_valid: bool) -> Option<WaitTime> {
    let reset = rate.reset as i64;
    if rate.remaining == 0 && reset_valid && reset > now.seconds {
        if now.nanoseconds == 0 {
            Some(WaitTime { seconds: (reset - now.seconds) as u64, nanoseconds: 0 })
        } else {
            Some(
                WaitTime {
                    seconds: (reset - now.seconds - 1) as u64,
                    nanoseconds: (1_000_000_000 - now.nanoseconds) as u32,
                },
            )
        }
    } else {
        None
    }
}

/// Decides how long to wait for the rate limit, given whether the reset is
/// a moment that can be held.
pub fn wait_until_reset(rate: RateLimit, now: Timestamp, reset_valid: bool) -> (wait: Option<
    WaitTime,
>)
    requires
        now.nanoseconds < 1_000_000_000,
    ensures
        wait == wait_for(rate, now, reset_valid),
{
    let reset: i64 = #[verifier::truncate]
    (rate.reset as i64);
    if rate.remaining == 0 && reset_valid && reset > now.seconds {
        let ahead: i128 = reset as i128 - now.seconds as i128;
        if now.nanoseconds == 0 {
            Some(WaitTime { seconds: ahead as u64, nanoseconds: 0 })
        } else {
            Some(
                WaitTime {
                    seconds: (ahead - 1) as u64,
                    nanoseconds: 1_000_000_000 - now.nanoseconds,
                },
            )
        }
    } else {
        None
    }
}

/// Decides how long to wait for the rate limit at the moment `now`.
pub fn rate_limit_wait(rate: RateLimit, now: Timestamp) -> (wait: Option<WaitTime>)
    requires
        now.nanoseconds < 1_000_000_000,
    ensures
        wait == wait_for(rate, now, chrono_timestamp_valid((rate.reset as i64) as int)),
{
    let reset: i64 = #[verifier::truncate]
    (rate.reset as i64);
    let reset_valid = timestamp_in_range(reset);
    wait_until_reset(rate, now, reset_valid)
}

} // verus!
