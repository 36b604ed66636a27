//! Planning an export and summing it up: which repositories are taken, how
//! much room they need, whether the output volume has it, and what the
//! outcomes of a batch amount to.

use crate::config::{Config, ExportMetadata, Timestamp, MAX_PARALLEL_DOWNLOADS};
use crate::download::{
    successes, waiting, DownloadResult, Downloader, SyncBatch, SyncOutcome,
};
use crate::error::GhExportError;
use crate::github::{authorization_header, header_text, Repository};
use crate::progress::{ProgressTracker, TransferProgress};
use crate::text::{decimal, push_decimal, texts};
use crate::worker::WorkerEvent;
use vstd::prelude::*;

verus! {

/// Whether a repository is exported: archived repositories only where they
/// are asked for, forks unless they are excluded.
pub open spec fn wanted(repository: Repository, include_archived: bool, exclude_forks: bool) -> bool {
    (include_archived || !repository.archived) && (!exclude_forks || !repository.fork)
}

/// The test that picks the repositories to export.
pub open spec fn selection(include_archived: bool, exclude_forks: bool) -> spec_fn(
    Repository,
) -> bool {
    |repository: Repository| wanted(repository, include_archived, exclude_forks)
}

/// The repositories to export, in the order in which they were listed.
pub fn select_repositories(
    repositories: &Vec<Repository>,
    include_archived: bool,
    exclude_forks: bool,
) -> (selected: Vec<Repository>)
    ensures
        selected@ == repositories@.filter(selection(include_archived, exclude_forks)),
{
    let ghost keep = selection(include_archived, exclude_forks);
    let mut selected: Vec<Repository> = Vec::new();
    let mut i: usize = 0;
    proof {
        reveal(Seq::filter);
        assert(repositories@.take(0) =~= Seq::<Repository>::empty());
    }
    while i < repositories.len()
        invariant
            i <= repositories@.len(),
            keep == selection(include_archived, exclude_forks),
            selected@ == repositories@.take(i as int).filter(keep),
        decreases repositories@.len() - i,
    {
        let repository = &repositories[i];
        proof {
            reveal(Seq::filter);
            assert(repositories@.take(i + 1).drop_last() =~= repositories@.take(i as int));
            assert(repositories@.take(i + 1).last() == repositories@[i as int]);
        }
        if (include_archived || !repository.archived) && (!exclude_forks || !repository.fork) {
            selected.push(repository.clone());
        }
        i = i + 1;
    }
    assert(repositories@.take(i as int) =~= repositories@);
    selected
}

/// The size of the repositories together, in bytes: the API gives the size
/// of each in kibibytes.
pub open spec fn estimated_bytes(repositories: Seq<Repository>) -> nat
    decreases repositories.len(),
{
    if repositories.len() == 0 {
        0
    } else {
        estimated_bytes(repositories.drop_last()) + (repositories.last().size * 1024) as nat
    }
}

/// The room that a batch needs on the output volume: twice the size of its
/// repositories, for the working copies and the object databases.
pub open spec fn required_bytes(repositories: Seq<Repository>) -> nat {
    2 * estimated_bytes(repositories)
}

/// `amount`, or the largest number of 64 bits where it is beyond that.
pub open spec fn saturated(amount: nat) -> u64 {
    if amount > u64::MAX {
        u64::MAX
    } else {
        amount as u64
    }
}

/// The size of the repositories together in bytes, cut off at the largest
/// number of 64 bits.
pub fn estimated_size(repositories: &Vec<Repository>) -> (bytes: u64)
    ensures
        bytes == saturated(estimated_bytes(repositories@)),
{
    let mut bytes: u64 = 0;
    let mut i: usize = 0;
    assert(repositories@.take(0) =~= Seq::<Repository>::empty());
    while i < repositories.len()
        invariant
            i <= repositories@.len(),
            bytes == saturated(estimated_bytes(repositories@.take(i as int))),
        decreases repositories@.len() - i,
    {
        proof {
            assert(repositories@.take(i + 1).drop_last() =~= repositories@.take(i as int));
            assert(repositories@.take(i + 1).last() == repositories@[i as int]);
        }
        let sum: u128 = bytes as u128 + repositories[i].size as u128 * 1024;
        bytes = if sum > u64::MAX as u128 {
            u64::MAX
        } else {
            sum as u64
        };
        i = i + 1;
    }
    assert(repositories@.take(i as int) =~= repositories@);
    bytes
}

/// The room that is free on a volume with `blocks_available` free blocks of
/// `block_size` bytes each, cut off at the largest number of 64 bits.
pub fn available_space(blocks_available: u64, block_size: u64) -> (bytes: u64)
    ensures
        bytes == saturated((blocks_available * block_size) as nat),
{
    match blocks_available.checked_mul(block_size) {
        Some(bytes) => bytes,
        None => u64::MAX,
    }
}

/// Compares the room that is free with the room that is needed.
pub fn check_disk_space(available: u64, required_bytes: u64) -> (checked: Result<
    (),
    GhExportError,
>)
    ensures
        checked is Ok <==> available >= required_bytes,
        checked matches Err(error) ==> error == (GhExportError::InsufficientSpace {
            needed: required_bytes,
            available,
        }),
{
    if available < required_bytes {
        Err(GhExportError::InsufficientSpace { needed: required_bytes, available })
    } else {
        Ok(())
    }
}

/// Checks, before any worker starts, that the output volume has room for the
/// batch. The batch is refused exactly where it needs more than is free.
pub fn check_batch_space(repositories: &Vec<Repository>, available: u64) -> (checked: Result<
    (),
    GhExportError,
>)
    ensures
        checked is Ok <==> required_bytes(repositories@) <= available,
        checked matches Err(error) ==> error == (GhExportError::InsufficientSpace {
            needed: saturated(required_bytes(repositories@)),
            available,
        }),
{
    let estimate = estimated_size(repositories);
    let needed: u128 = 2 * (estimate as u128);
    if needed > available as u128 {
        let shown: u64 = if needed > u64::MAX as u128 {
            u64::MAX
        } else {
            needed as u64
        };
        Err(GhExportError::InsufficientSpace { needed: shown, available })
    } else {
        Ok(())
    }
}

/// Whether the user is asked before the export begins: on a first export,
/// that is, not on a sync and while the account has no directory yet.
pub fn needs_confirmation(is_sync: bool, user_directory_exists: bool) -> (ask: bool)
    ensures
        ask == (!is_sync && !user_directory_exists),
{
    !is_sync && !user_directory_exists
}

/// The directory of an account below the output root.
pub fn user_directory(output_dir: &str, login: &str) -> (path: String)
    ensures
        path@ == output_dir@ + "/"@ + login@,
{
    let mut path = String::from_str(output_dir);
    path.append("/");
    path.append(login);
    path
}

/// The names of the repositories that failed, in the order of the outcomes.
pub open spec fn failed_names(outcomes: Seq<(Seq<char>, SyncOutcome)>) -> Seq<Seq<char>>
    decreases outcomes.len(),
{
    if outcomes.len() == 0 {
        Seq::empty()
    } else if outcomes.last().1 is Failed {
        failed_names(outcomes.drop_last()).push(outcomes.last().0)
    } else {
        failed_names(outcomes.drop_last())
    }
}

/// The lines that report the failures: one for each repository that failed,
/// with its name and the reason, in the order of the outcomes.
pub open spec fn failure_lines(outcomes: Seq<(Seq<char>, SyncOutcome)>) -> Seq<Seq<char>>
    decreases outcomes.len(),
{
    if outcomes.len() == 0 {
        Seq::empty()
    } else {
        match outcomes.last().1 {
            SyncOutcome::Failed(reason) => failure_lines(outcomes.drop_last()).push(
                "  - "@ + outcomes.last().0 + ": "@ + reason,
            ),
            _ => failure_lines(outcomes.drop_last()),
        }
    }
}

/// The outcomes as mathematical values.
pub open spec fn outcomes_of(results: Seq<(String, DownloadResult)>) -> Seq<(Seq<char>, SyncOutcome)> {
    Seq::new(results.len(), |k: int| (results[k].0@, results[k].1@))
}

/// What a batch amounts to.
#[derive(Debug, PartialEq, Eq)]
pub struct ExportSummary {
    /// The number of repositories that were to be exported.
    pub total: usize,
    /// The number of repositories that were synchronised.
    pub successful: usize,
    /// The names of the repositories that failed.
    pub failed: Vec<String>,
    /// One line for each repository that failed, with the reason.
    pub failure_lines: Vec<String>,
}

/// Sums up the outcomes of a batch of `total` repositories.
pub fn summarize(total: usize, results: &Vec<(String, DownloadResult)>) -> (summary: ExportSummary)
    ensures
        summary.total == total,
        summary.successful == successes(outcomes_of(results@)),
        texts(summary.failed@) == failed_names(outcomes_of(results@)),
        texts(summary.failure_lines@) == failure_lines(outcomes_of(results@)),
{
    let ghost outcomes = outcomes_of(results@);
    let mut successful: usize = 0;
    let mut failed: Vec<String> = Vec::new();
    let mut lines: Vec<String> = Vec::new();
    let mut i: usize = 0;
    assert(outcomes.take(0) =~= Seq::<(Seq<char>, SyncOutcome)>::empty());
    assert(texts(failed@) =~= Seq::<Seq<char>>::empty());
    assert(texts(lines@) =~= Seq::<Seq<char>>::empty());
    while i < results.len()
        invariant
            i <= results@.len(),
            outcomes == outcomes_of(results@),
            successful == successes(outcomes.take(i as int)),
            successful <= i,
            texts(failed@) == failed_names(outcomes.take(i as int)),
            texts(lines@) == failure_lines(outcomes.take(i as int)),
        decreases results@.len() - i,
    {
        proof {
            assert(outcomes.take(i + 1).drop_last() =~= outcomes.take(i as int));
            assert(outcomes.take(i + 1).last() == outcomes[i as int]);
        }
        let ghost names_before = texts(failed@);
        let ghost lines_before = texts(lines@);
        match &results[i].1 {
            DownloadResult::Success => {
                successful = successful + 1;
            },
            DownloadResult::Failed(reason) => {
                let mut line = String::from_str("  - ");
                line.append(results[i].0.as_str());
                line.append(": ");
                line.append(reason.as_str());
                failed.push(results[i].0.clone());
                lines.push(line);
                proof {
                    assert(texts(failed@) =~= names_before.push(results@[i as int].0@));
                    assert(texts(lines@) =~= lines_before.push(
                        "  - "@ + results@[i as int].0@ + ": "@ + reason@,
                    ));
                }
            },
            DownloadResult::Skipped(_) => {},
        }
        i = i + 1;
    }
    assert(outcomes.take(i as int) =~= outcomes);
    ExportSummary { total, successful, failed, failure_lines: lines }
}

/// The three lines that give the counts of a summary.
pub fn count_lines(summary: &ExportSummary) -> (lines: Vec<String>)
    ensures
        texts(lines@) == seq![
            "  Total: "@ + decimal(summary.total as nat),
            "  Successful: "@ + decimal(summary.successful as nat),
            "  Failed: "@ + decimal(summary.failed@.len()),
        ],
{
    let mut total = String::from_str("  Total: ");
    push_decimal(&mut total, summary.total as u64);
    let mut successful = String::from_str("  Successful: ");
    push_decimal(&mut successful, summary.successful as u64);
    let mut failed = String::from_str("  Failed: ");
    push_decimal(&mut failed, summary.failed.len() as u64);
    let mut lines: Vec<String> = Vec::new();
    lines.push(total);
    lines.push(successful);
    lines.push(failed);
    assert(texts(lines@) =~= seq![
        "  Total: "@ + decimal(summary.total as nat),
        "  Successful: "@ + decimal(summary.successful as nat),
        "  Failed: "@ + decimal(summary.failed@.len()),
    ]);
    lines
}

/// Where an export stands.
#[derive(Clone, Copy, Debug, PartialEq, Eq, Structural)]
pub enum ExportStage {
    /// The output directory is being made sure of.
    PreparingOutput,
    /// The user behind the token is being asked for.
    Authenticating,
    /// The repositories of the user are being listed.
    Listing,
    /// The free room on the output volume is being measured.
    MeasuringSpace,
    /// The directory of the account is being looked for.
    CheckingDirectory,
    /// The user is being asked whether to go ahead.
    Confirming,
    /// The repositories are being synchronised.
    Downloading,
    /// The record of the export is being written.
    Saving,
    /// Ended: there was nothing to export.
    NothingToExport,
    /// Ended: the user did not want to go ahead.
    Cancelled,
    /// Ended: the batch ran and its record is written.
    Completed,
    /// Ended with an error.
    Failed,
}

impl ExportStage {
    /// Whether the export has ended.
    pub open spec fn ended(self) -> bool {
        self is NothingToExport || self is Cancelled || self is Completed || self is Failed
    }
}

/// What the caller reports to an export.
#[derive(Debug, PartialEq, Eq)]
pub enum ExportEvent {
    /// The output directory is there.
    OutputReady,
    /// The token belongs to the user with this login.
    Authenticated { login: String },
    /// The repositories of the user, as the API lists them.
    Listed(Vec<Repository>),
    /// The output volume has this many free blocks of this size.
    SpaceMeasured { blocks_available: u64, block_size: u64 },
    /// Whether the directory of the account is there.
    DirectoryChecked { exists: bool },
    /// What the user answered.
    Confirmed(bool),
    /// The batch has ended with these outcomes.
    Downloaded(Vec<(String, DownloadResult)>),
    /// The record of the export is written.
    Saved,
    /// The step that was asked for failed.
    Failed(GhExportError),
}

/// What an export asks the caller to do next.
#[derive(Clone, Copy, Debug, PartialEq, Eq, Structural)]
pub enum ExportAction {
    /// Create the output directory if it is not there.
    EnsureOutputDirectory,
    /// Ask the API which user the token belongs to.
    Authenticate,
    /// List the repositories of the user.
    ListRepositories,
    /// Measure the free room on the volume of the output directory.
    MeasureSpace,
    /// Look whether the directory of the account is there.
    CheckUserDirectory,
    /// Ask the user whether to go ahead.
    Confirm,
    /// Synchronise the selected repositories.
    Download,
    /// Write the record of the export into the directory of the account.
    SaveMetadata,
    /// Nothing is left to do.
    Stop,
    /// The event does not belong to the stage that the export is in.
    Ignore,
}

/// One run of an export or a sync, from the check of the configuration to
/// the record of what was done.
pub struct ExportFlow {
    config: Config,
    is_sync: bool,
    stage: ExportStage,
    login: String,
    repositories: Vec<Repository>,
    available: u64,
    results: Vec<(String, DownloadResult)>,
    failure: Option<GhExportError>,
}

impl ExportFlow {
    /// The configuration of the run.
    pub closed spec fn config(&self) -> Config {
        self.config
    }

    /// Whether the run is a sync of an earlier export.
    pub closed spec fn is_sync(&self) -> bool {
        self.is_sync
    }

    /// Where the export stands.
    pub closed spec fn stage(&self) -> ExportStage {
        self.stage
    }

    /// The login of the user that the token belongs to.
    pub closed spec fn login(&self) -> Seq<char> {
        self.login@
    }

    /// The repositories that are exported.
    pub closed spec fn selected(&self) -> Seq<Repository> {
        self.repositories@
    }

    /// The free room that was measured on the output volume, in bytes.
    pub closed spec fn measured_space(&self) -> u64 {
        self.available
    }

    /// The outcomes of the batch.
    pub closed spec fn outcomes(&self) -> Seq<(Seq<char>, SyncOutcome)> {
        outcomes_of(self.results@)
    }

    /// The error that the export failed with.
    pub closed spec fn failure(&self) -> Option<GhExportError> {
        self.failure
    }

    /// An export has failed exactly when it holds an error, it goes ahead
    /// with a valid configuration only, from the measuring of the room on
    /// there is something to export, only a first export asks the user, and
    /// past the measuring the volume has the room that the batch needs.
    pub closed spec fn wf(&self) -> bool {
        &&& self.stage is Failed <==> self.failure is Some
        &&& self.config.github_token is Some
        &&& !(self.stage is Failed) ==> 1 <= self.config.parallel_downloads
            <= MAX_PARALLEL_DOWNLOADS
        &&& (self.stage is MeasuringSpace || self.stage is CheckingDirectory || self.stage
            is Confirming || self.stage is Downloading) ==> self.repositories@.len() > 0
        &&& (self.stage is CheckingDirectory || self.stage is Confirming) ==> !self.is_sync
        &&& (self.stage is CheckingDirectory || self.stage is Confirming || self.stage
            is Downloading) ==> required_bytes(self.repositories@) <= self.available
    }

    /// What stays as it is while nothing is taken in that changes it.
    pub open spec fn carries(&self, before: &ExportFlow) -> bool {
        &&& self.config() == before.config()
        &&& self.is_sync() == before.is_sync()
        &&& self.login() == before.login()
        &&& self.selected() == before.selected()
        &&& self.outcomes() == before.outcomes()
    }

    /// Begins a run with `config`. A configuration that is not valid ends
    /// the run at once with the error of the check.
    pub fn new(config: Config, is_sync: bool) -> (start: (ExportFlow, ExportAction))
        requires
            config.github_token is Some,
        ensures
            start.0.wf(),
            start.0.config() == config,
            start.0.is_sync() == is_sync,
            start.0.selected() == Seq::<Repository>::empty(),
            if 1 <= config.parallel_downloads <= MAX_PARALLEL_DOWNLOADS {
                &&& start.0.stage() == ExportStage::PreparingOutput
                &&& start.1 == ExportAction::EnsureOutputDirectory
            } else {
                &&& start.0.stage() == ExportStage::Failed
                &&& start.1 == ExportAction::Stop
                &&& start.0.failure() matches Some(GhExportError::Config(text))
                &&& text@ == (if config.parallel_downloads == 0 {
                    "Parallel downloads must be at least 1"@
                } else {
                    "Parallel downloads should not exceed 10 to avoid rate limiting"@
                })
            },
    {
        let checked = config.validate();
        let mut flow = ExportFlow {
            config,
            is_sync,
            stage: ExportStage::PreparingOutput,
            login: String::new(),
            repositories: Vec::new(),
            available: 0,
            results: Vec::new(),
            failure: None,
        };
        match checked {
            Ok(()) => (flow, ExportAction::EnsureOutputDirectory),
            Err(error) => {
                flow.stage = ExportStage::Failed;
                flow.failure = Some(error);
                (flow, ExportAction::Stop)
            },
        }
    }

    /// Takes `event` in and says what to do next.
    ///
    /// The steps follow one another: output directory, authentication,
    /// listing, room on the volume, and on a first export the question to
    /// the user; then the batch and its record. The run ends early where
    /// the token cannot be sent, where nothing is left to export after the
    /// selection, where the volume lacks the room, and where the user says
    /// no. A failure that is reported while a step is under way ends the
    /// run with that failure.
    pub fn step(&mut self, event: ExportEvent) -> (action: ExportAction)
        requires
            old(self).wf(),
        ensures
            final(self).wf(),
            final(self).config() == old(self).config(),
            final(self).is_sync() == old(self).is_sync(),
            match (old(self).stage(), event) {
                (ExportStage::PreparingOutput, ExportEvent::OutputReady) => {
                    &&& final(self).carries(old(self))
                    &&& if header_text("Bearer "@ + old(self).config().github_token.unwrap()@) {
                        &&& final(self).stage() == ExportStage::Authenticating
                        &&& action == ExportAction::Authenticate
                    } else {
                        &&& final(self).stage() == ExportStage::Failed
                        &&& action == ExportAction::Stop
                        &&& final(self).failure() matches Some(GhExportError::Auth(text))
                        &&& text@ == "Invalid token format"@
                    }
                },
                (ExportStage::Authenticating, ExportEvent::Authenticated { login }) => {
                    &&& final(self).stage() == ExportStage::Listing
                    &&& action == ExportAction::ListRepositories
                    &&& final(self).login() == login@
                    &&& final(self).selected() == old(self).selected()
                    &&& final(self).outcomes() == old(self).outcomes()
                },
                (ExportStage::Listing, ExportEvent::Listed(listed)) => {
                    &&& final(self).login() == old(self).login()
                    &&& final(self).outcomes() == old(self).outcomes()
                    &&& final(self).selected() == listed@.filter(
                        selection(
                            old(self).config().include_archived,
                            old(self).config().exclude_forks,
                        ),
                    )
                    &&& if final(self).selected().len() == 0 {
                        &&& final(self).stage() == ExportStage::NothingToExport
                        &&& action == ExportAction::Stop
                    } else {
                        &&& final(self).stage() == ExportStage::MeasuringSpace
                        &&& action == ExportAction::MeasureSpace
                    }
                },
                (
                    ExportStage::MeasuringSpace,
                    ExportEvent::SpaceMeasured { blocks_available, block_size },
                ) => {
                    let available = saturated((blocks_available * block_size) as nat);
                    &&& final(self).carries(old(self))
                    &&& final(self).measured_space() == available
                    &&& if required_bytes(old(self).selected()) > available {
                        &&& final(self).stage() == ExportStage::Failed
                        &&& action == ExportAction::Stop
                        &&& final(self).failure() == Some(
                            GhExportError::InsufficientSpace {
                                needed: saturated(required_bytes(old(self).selected())),
                                available,
                            },
                        )
                    } else if old(self).is_sync() {
                        &&& final(self).stage() == ExportStage::Downloading
                        &&& action == ExportAction::Download
                    } else {
                        &&& final(self).stage() == ExportStage::CheckingDirectory
                        &&& action == ExportAction::CheckUserDirectory
                    }
                },
                (ExportStage::CheckingDirectory, ExportEvent::DirectoryChecked { exists }) => {
                    &&& final(self).carries(old(self))
                    &&& if exists {
                        &&& final(self).stage() == ExportStage::Downloading
                        &&& action == ExportAction::Download
                    } else {
                        &&& final(self).stage() == ExportStage::Confirming
                        &&& action == ExportAction::Confirm
                    }
                },
                (ExportStage::Confirming, ExportEvent::Confirmed(yes)) => {
                    &&& final(self).carries(old(self))
                    &&& if yes {
                        &&& final(self).stage() == ExportStage::Downloading
                        &&& action == ExportAction::Download
                    } else {
                        &&& final(self).stage() == ExportStage::Cancelled
                        &&& action == ExportAction::Stop
                    }
                },
                (ExportStage::Downloading, ExportEvent::Downloaded(results)) => {
                    &&& final(self).stage() == ExportStage::Saving
                    &&& action == ExportAction::SaveMetadata
                    &&& final(self).login() == old(self).login()
                    &&& final(self).selected() == old(self).selected()
                    &&& final(self).outcomes() == outcomes_of(results@)
                },
                (ExportStage::Saving, ExportEvent::Saved) => {
                    &&& final(self).carries(old(self))
                    &&& final(self).stage() == ExportStage::Completed
                    &&& action == ExportAction::Stop
                },
                (stage, ExportEvent::Failed(error)) => {
                    &&& final(self).carries(old(self))
                    &&& if stage.ended() {
                        &&& final(self).stage() == stage
                        &&& action == ExportAction::Ignore
                        &&& final(self).failure() == old(self).failure()
                    } else {
                        &&& final(self).stage() == ExportStage::Failed
                        &&& action == ExportAction::Stop
                        &&& final(self).failure() == Some(error)
                    }
                },
                (stage, _) => {
                    &&& final(self).carries(old(self))
                    &&& final(self).stage() == stage
                    &&& action == ExportAction::Ignore
                    &&& final(self).failure() == old(self).failure()
                },
            },
    {
        match event {
            ExportEvent::OutputReady => {
                if let ExportStage::PreparingOutput = self.stage {
                    let header = match &self.config.github_token {
                        Some(token) => authorization_header(token.as_str()),
                        None => Ok(String::new()),
                    };
                    match header {
                        Ok(_) => {
                            self.stage = ExportStage::Authenticating;
                            ExportAction::Authenticate
                        },
                        Err(error) => self.fail(error),
                    }
                } else {
                    ExportAction::Ignore
                }
            },
            ExportEvent::Authenticated { login } => {
                if let ExportStage::Authenticating = self.stage {
                    self.login = login;
                    self.stage = ExportStage::Listing;
                    ExportAction::ListRepositories
                } else {
                    ExportAction::Ignore
                }
            },
            ExportEvent::Listed(listed) => {
                if let ExportStage::Listing = self.stage {
                    self.repositories = select_repositories(
                        &listed,
                        self.config.include_archived,
                        self.config.exclude_forks,
                    );
                    if self.repositories.len() == 0 {
                        self.stage = ExportStage::NothingToExport;
                        ExportAction::Stop
                    } else {
                        self.stage = ExportStage::MeasuringSpace;
                        ExportAction::MeasureSpace
                    }
                } else {
                    ExportAction::Ignore
                }
            },
            ExportEvent::SpaceMeasured { blocks_available, block_size } => {
                if let ExportStage::MeasuringSpace = self.stage {
                    let available = available_space(blocks_available, block_size);
                    self.available = available;
                    match check_batch_space(&self.repositories, available) {
                        Err(error) => self.fail(error),
                        Ok(()) => {
                            if self.is_sync {
                                self.stage = ExportStage::Downloading;
                                ExportAction::Download
                            } else {
                                self.stage = ExportStage::CheckingDirectory;
                                ExportAction::CheckUserDirectory
                            }
                        },
                    }
                } else {
                    ExportAction::Ignore
                }
            },
            ExportEvent::DirectoryChecked { exists } => {
                if let ExportStage::CheckingDirectory = self.stage {
                    if needs_confirmation(self.is_sync, exists) {
                        self.stage = ExportStage::Confirming;
                        ExportAction::Confirm
                    } else {
                        self.stage = ExportStage::Downloading;
                        ExportAction::Download
                    }
                } else {
                    ExportAction::Ignore
                }
            },
            ExportEvent::Confirmed(yes) => {
                if let ExportStage::Confirming = self.stage {
                    if yes {
                        self.stage = ExportStage::Downloading;
                        ExportAction::Download
                    } else {
                        self.stage = ExportStage::Cancelled;
                        ExportAction::Stop
                    }
                } else {
                    ExportAction::Ignore
                }
            },
            ExportEvent::Downloaded(results) => {
                if let ExportStage::Downloading = self.stage {
                    self.results = results;
                    self.stage = ExportStage::Saving;
                    ExportAction::SaveMetadata
                } else {
                    ExportAction::Ignore
                }
            },
            ExportEvent::Saved => {
                if let ExportStage::Saving = self.stage {
                    self.stage = ExportStage::Completed;
                    ExportAction::Stop
                } else {
                    ExportAction::Ignore
                }
            },
            ExportEvent::Failed(error) => {
                let over: bool = match self.stage {
                    ExportStage::NothingToExport => true,
                    ExportStage::Cancelled => true,
                    ExportStage::Completed => true,
                    ExportStage::Failed => true,
                    _ => false,
                };
                if over {
                    ExportAction::Ignore
                } else {
                    self.fail(error)
                }
            },
        }
    }

    /// Ends the run with `error`.
    fn fail(&mut self, error: GhExportError) -> (action: ExportAction)
        requires
            old(self).config.github_token is Some,
        ensures
            final(self).wf(),
            final(self).carries(old(self)),
            final(self).measured_space() == old(self).measured_space(),
            final(self).stage() == ExportStage::Failed,
            final(self).failure() == Some(error),
            action == ExportAction::Stop,
    {
        self.stage = ExportStage::Failed;
        self.failure = Some(error);
        ExportAction::Stop
    }

    /// Where the export stands.
    pub fn current_stage(&self) -> (stage: ExportStage)
        ensures
            stage == self.stage(),
    {
        self.stage
    }

    /// The configuration of the run.
    pub fn settings(&self) -> (config: &Config)
        ensures
            *config == self.config(),
    {
        &self.config
    }

    /// The login of the user that the token belongs to.
    pub fn user_login(&self) -> (login: &str)
        ensures
            login@ == self.login(),
    {
        self.login.as_str()
    }

    /// The repositories that are exported.
    pub fn repositories(&self) -> (repositories: &Vec<Repository>)
        ensures
            repositories@ == self.selected(),
    {
        &self.repositories
    }

    /// The error that the export failed with.
    pub fn error(&self) -> (error: Option<&GhExportError>)
        ensures
            match error {
                Some(error) => self.failure() == Some(*error),
                None => self.failure() is None,
            },
    {
        match &self.failure {
            Some(error) => Some(error),
            None => None,
        }
    }

    /// Whether the run is a sync of an earlier export.
    pub fn synchronises(&self) -> (is_sync: bool)
        ensures
            is_sync == self.is_sync(),
    {
        self.is_sync
    }

    /// Ends the run and hands out the error that it failed with, if it did.
    pub fn into_error(self) -> (error: Option<GhExportError>)
        ensures
            error == self.failure(),
    {
        self.failure
    }

    /// The directory of the account below the output root, where the record
    /// of the export goes.
    pub fn account_directory(&self) -> (path: String)
        ensures
            path@ == self.config().output_directory@ + "/"@ + self.login(),
    {
        user_directory(self.config.output_directory.as_str(), self.login.as_str())
    }

    /// The question that the user is asked before a first export.
    pub fn confirmation_prompt(&self) -> (prompt: String)
        ensures
            prompt@ == "Export "@ + decimal(self.selected().len()) + " repositories to "@
                + self.config().output_directory@ + "?"@,
    {
        let mut prompt = String::from_str("Export ");
        push_decimal(&mut prompt, self.repositories.len() as u64);
        prompt.append(" repositories to ");
        prompt.append(self.config.output_directory.as_str());
        prompt.append("?");
        prompt
    }

    /// Sets up the batch of the selected repositories. There is a batch for
    /// a run only while it is downloading: after the volume was found to
    /// have the room and, on a first export, the user has agreed.
    pub fn start_download(&self) -> (batch: SyncBatch)
        requires
            self.wf(),
            self.stage() is Downloading,
        ensures
            batch.wf(),
            batch.descriptors() == self.selected(),
            batch.limit() == self.config().parallel_downloads,
            batch.shallow() == self.config().shallow_clone,
            batch.output_dir() == self.config().output_directory@,
            batch.token() == self.config().github_token.unwrap()@,
            batch.total() == self.selected().len(),
            batch.started() == 0,
            batch.running() == 0,
            batch.phases() == waiting(self.selected().len()),
            batch.outcomes() == Seq::<(Seq<char>, SyncOutcome)>::empty(),
            batch.completion_order() == Seq::<int>::empty(),
            batch.history() == Seq::<(int, WorkerEvent)>::empty(),
            batch.completed() == 0,
            batch.failed() == 0,
            batch.in_flight() == Map::<Seq<char>, TransferProgress>::empty(),
    {
        let mut copies: Vec<Repository> = Vec::new();
        let mut i: usize = 0;
        while i < self.repositories.len()
            invariant
                i <= self.repositories@.len(),
                copies@ == self.repositories@.take(i as int),
            decreases self.repositories@.len() - i,
        {
            copies.push(self.repositories[i].clone());
            assert(copies@ =~= self.repositories@.take(i + 1));
            i = i + 1;
        }
        assert(copies@ =~= self.repositories@);
        let token = match &self.config.github_token {
            Some(token) => token.clone(),
            None => String::new(),
        };
        let downloader = Downloader::new(
            self.config.output_directory.clone(),
            token,
            self.config.shallow_clone,
            ProgressTracker::new(copies.len()),
        );
        downloader.download_repositories(copies, self.config.parallel_downloads)
    }

    /// What the batch amounts to.
    pub fn summary(&self) -> (summary: ExportSummary)
        ensures
            summary.total == self.selected().len(),
            summary.successful == successes(self.outcomes()),
            texts(summary.failed@) == failed_names(self.outcomes()),
            texts(summary.failure_lines@) == failure_lines(self.outcomes()),
    {
        summarize(self.repositories.len(), &self.results)
    }

    /// The record of the export, which ended at `finished` after
    /// `duration_seconds` seconds.
    pub fn metadata(&self, finished: Timestamp, duration_seconds: u64) -> (metadata: ExportMetadata)
        ensures
            metadata.last_export == finished,
            metadata.total_repos == self.selected().len(),
            metadata.successful_exports == successes(self.outcomes()),
            texts(metadata.failed_exports@) == failed_names(self.outcomes()),
            metadata.export_duration_seconds == duration_seconds,
    {
        ExportMetadata::from_summary(finished, self.summary(), duration_seconds)
    }
}

/// An export holds an error exactly when it has failed.
pub proof fn lemma_error_means_failed(flow: ExportFlow)
    requires
        flow.wf(),
    ensures
        flow.stage() is Failed <==> flow.failure() is Some,
{
}

/// No batch without room: an export that is about to ask the user, is
/// asking, or is downloading has measured at least the room that its
/// repositories need, and it has something to export.
pub proof fn lemma_batch_has_room(flow: ExportFlow)
    requires
        flow.wf(),
        flow.stage() is CheckingDirectory || flow.stage() is Confirming || flow.stage()
            is Downloading,
    ensures
        required_bytes(flow.selected()) <= flow.measured_space(),
        flow.selected().len() > 0,
{
}

} // verus!
