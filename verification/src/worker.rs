//! The worker of one repository: a state machine that decides, from what the
//! transport reports, which step comes next and how the repository ends.
//!
//! The worker performs no transport itself. It hands out a [`WorkerAction`],
//! the caller carries it out and reports back with a [`WorkerEvent`].

use crate::download::{DownloadResult, SyncOutcome};
use crate::error::GhExportError;
use vstd::prelude::*;

verus! {

/// How the fetched head relates to the head of the local branch.
#[derive(Clone, Copy, Debug, PartialEq, Eq, Structural)]
pub enum MergeRelation {
    /// The local branch already holds everything that was fetched.
    UpToDate,
    /// The local branch is an ancestor of the fetched head.
    FastForward,
    /// Both sides hold commits that the other lacks.
    Diverged,
}

/// The relation that a merge analysis stands for. A fast-forward takes
/// precedence over every other finding.
pub open spec fn relation_of(fast_forward: bool, up_to_date: bool) -> MergeRelation {
    if fast_forward {
        MergeRelation::FastForward
    } else if up_to_date {
        MergeRelation::UpToDate
    } else {
        MergeRelation::Diverged
    }
}

/// Classifies the findings of a merge analysis.
pub fn classify_merge(fast_forward: bool, up_to_date: bool) -> (relation: MergeRelation)
    ensures
        relation == relation_of(fast_forward, up_to_date),
{
    if fast_forward {
        MergeRelation::FastForward
    } else if up_to_date {
        MergeRelation::UpToDate
    } else {
        MergeRelation::Diverged
    }
}

/// The local branches that a fast-forward may advance, most preferred first.
pub open spec fn branch_preference() -> Seq<Seq<char>> {
    seq!["refs/heads/master"@, "refs/heads/main"@]
}

/// The number of entries of the branch preference list.
pub const BRANCH_CANDIDATES: usize = 2;

/// The branch at place `candidate` of the preference list, if there is one.
pub fn preferred_branch(candidate: usize) -> (branch: Option<&'static str>)
    ensures
        BRANCH_CANDIDATES == branch_preference().len(),
        candidate < BRANCH_CANDIDATES <==> branch is Some,
        branch matches Some(name) ==> name@ == branch_preference()[candidate as int],
{
    if candidate == 0 {
        Some("refs/heads/master")
    } else if candidate == 1 {
        Some("refs/heads/main")
    } else {
        None
    }
}

/// The remote that an update fetches from.
pub fn remote_name() -> (name: &'static str)
    ensures
        name@ == "origin"@,
{
    "origin"
}

/// What an update fetches: every branch of the remote, into the
/// remote-tracking namespace.
pub fn fetch_refspec() -> (refspec: &'static str)
    ensures
        refspec@ == "refs/heads/*:refs/remotes/origin/*"@,
{
    "refs/heads/*:refs/remotes/origin/*"
}

/// The reference that holds what the last fetch brought.
pub fn fetch_head() -> (reference: &'static str)
    ensures
        reference@ == "FETCH_HEAD"@,
{
    "FETCH_HEAD"
}

/// The user name sent with the token: the one that the URL names, or `git`.
pub fn credential_username<'a>(username_from_url: Option<&'a str>) -> (username: &'a str)
    ensures
        username@ == match username_from_url {
            Some(name) => name@,
            None => "git"@,
        },
{
    match username_from_url {
        Some(name) => name,
        None => "git",
    }
}

/// The error of a clone or an update whose task ended before the transport
/// had reported anything.
pub fn task_failure(cloning: bool, detail: &str) -> (error: GhExportError)
    ensures
        error matches GhExportError::Download(text) && text@ == (if cloning {
            "Clone task failed: "@
        } else {
            "Update task failed: "@
        }) + detail@,
{
    let step: &str = if cloning {
        "Clone task failed: "
    } else {
        "Update task failed: "
    };
    GhExportError::Download(String::from_str(step).concat(detail))
}

/// The message written into the log of a branch that is moved forward.
pub fn fast_forward_message() -> (message: &'static str)
    ensures
        message@ == "Fast-forward"@,
{
    "Fast-forward"
}

/// The history depth of a clone: one commit where the clone is shallow, the
/// whole history otherwise.
pub open spec fn clone_depth(shallow: bool) -> Option<u32> {
    if shallow {
        Some(1u32)
    } else {
        None
    }
}

/// What the caller reports to a worker.
#[derive(Debug, PartialEq, Eq)]
pub enum WorkerEvent {
    /// The worker holds a permit and may begin.
    Started,
    /// The target path was looked at.
    PathChecked { exists: bool },
    /// The clone went through.
    Cloned,
    /// The fetch went through.
    Fetched,
    /// The merge analysis of the fetched head is at hand.
    Analyzed { fast_forward: bool, up_to_date: bool },
    /// The candidate branch exists and now points at the fetched commit.
    BranchAdvanced,
    /// The candidate branch does not exist.
    BranchMissing,
    /// The working tree matches the advanced branch.
    CheckedOut,
    /// The step that was asked for failed.
    Failed(GhExportError),
    /// The task that ran the worker ended without reporting back.
    TaskLost,
}

/// What a worker asks the caller to do next.
#[derive(Clone, Copy, Debug, PartialEq, Eq, Structural)]
pub enum WorkerAction {
    /// Look whether the target path exists.
    CheckPath,
    /// Create the parent directories and clone the remote into the target
    /// path, with the given history depth.
    Clone { depth: Option<u32> },
    /// Open the local repository and fetch from the remote.
    Fetch,
    /// Analyse how the fetched head relates to the local head.
    Analyze,
    /// Point the branch at this place of the preference list to the fetched
    /// commit, if the branch exists.
    FastForward { candidate: usize },
    /// Make the branch the head and force the working tree to match it.
    Checkout { candidate: usize },
    /// Nothing is left to do: the worker has reached its outcome.
    Stop,
    /// The event does not belong to the step that the worker is in; it was
    /// ignored.
    Ignore,
}

/// Where a worker stands.
#[derive(Debug, PartialEq, Eq)]
pub enum WorkerState {
    Unprocessed,
    Deciding,
    Cloning,
    Fetching,
    MergeAnalysis,
    FastForwarding { candidate: usize },
    Checkout { candidate: usize },
    Done(DownloadResult),
    /// The task that ran the worker was lost before an outcome was reached.
    Lost,
}

/// The state of a worker as a mathematical value.
pub enum Phase {
    Unprocessed,
    Deciding,
    Cloning,
    Fetching,
    MergeAnalysis,
    FastForwarding { candidate: usize },
    Checkout { candidate: usize },
    Done(SyncOutcome),
    Lost,
}

impl View for WorkerState {
    type V = Phase;

    open spec fn view(&self) -> Phase {
        match self {
            WorkerState::Unprocessed => Phase::Unprocessed,
            WorkerState::Deciding => Phase::Deciding,
            WorkerState::Cloning => Phase::Cloning,
            WorkerState::Fetching => Phase::Fetching,
            WorkerState::MergeAnalysis => Phase::MergeAnalysis,
            WorkerState::FastForwarding { candidate } => Phase::FastForwarding {
                candidate: *candidate,
            },
            WorkerState::Checkout { candidate } => Phase::Checkout { candidate: *candidate },
            WorkerState::Done(result) => Phase::Done(result@),
            WorkerState::Lost => Phase::Lost,
        }
    }
}

impl Phase {
    /// Whether the worker occupies a permit: it has begun and has neither
    /// reached an outcome nor been lost.
    pub open spec fn running(self) -> bool {
        !(self is Unprocessed) && !(self is Done) && !(self is Lost)
    }

    /// Whether the phase belongs to an update of an existing repository.
    pub open spec fn updating(self) -> bool {
        self is Fetching || self is MergeAnalysis || self is FastForwarding || self is Checkout
    }

    /// The outcome of a step that failed in this phase with the given error
    /// text.
    pub open spec fn failure(self, error_text: Seq<char>) -> SyncOutcome {
        if self is Cloning {
            SyncOutcome::Failed("Clone failed: "@ + error_text)
        } else {
            SyncOutcome::Failed("Update failed: "@ + error_text)
        }
    }
}

/// The phase that follows `phase` on `event`, and the action that the worker
/// then asks for. An event that the phase does not wait for leaves the phase
/// as it is and is answered with [`WorkerAction::Ignore`].
///
/// Only a fast-forward moves a local branch: the first branch of the
/// preference list that exists is pointed at the fetched commit and checked
/// out. Histories that have diverged are neither merged nor rebased. The
/// worker then asks for nothing that changes the local repository and ends
/// in a success, because the fetch itself went through; the local branch
/// stays behind the remote. The same holds where none of the preferred
/// branches exists.
pub open spec fn step_spec(phase: Phase, event: WorkerEvent, shallow: bool) -> (Phase, WorkerAction) {
    match (phase, event) {
        (Phase::Unprocessed, WorkerEvent::Started) => (Phase::Deciding, WorkerAction::CheckPath),
        (Phase::Deciding, WorkerEvent::PathChecked { exists }) => if exists {
            (Phase::Fetching, WorkerAction::Fetch)
        } else {
            (Phase::Cloning, WorkerAction::Clone { depth: clone_depth(shallow) })
        },
        (Phase::Cloning, WorkerEvent::Cloned) => (
            Phase::Done(SyncOutcome::Success),
            WorkerAction::Stop,
        ),
        (Phase::Fetching, WorkerEvent::Fetched) => (Phase::MergeAnalysis, WorkerAction::Analyze),
        (Phase::MergeAnalysis, WorkerEvent::Analyzed { fast_forward, up_to_date }) => {
            if relation_of(fast_forward, up_to_date) == MergeRelation::FastForward {
                (Phase::FastForwarding { candidate: 0 }, WorkerAction::FastForward { candidate: 0 })
            } else {
                (Phase::Done(SyncOutcome::Success), WorkerAction::Stop)
            }
        },
        (Phase::FastForwarding { candidate }, WorkerEvent::BranchAdvanced) => (
            Phase::Checkout { candidate },
            WorkerAction::Checkout { candidate },
        ),
        (Phase::FastForwarding { candidate }, WorkerEvent::BranchMissing) => {
            if candidate + 1 < branch_preference().len() {
                (
                    Phase::FastForwarding { candidate: (candidate + 1) as usize },
                    WorkerAction::FastForward { candidate: (candidate + 1) as usize },
                )
            } else {
                (Phase::Done(SyncOutcome::Success), WorkerAction::Stop)
            }
        },
        (Phase::Checkout { candidate }, WorkerEvent::CheckedOut) => (
            Phase::Done(SyncOutcome::Success),
            WorkerAction::Stop,
        ),
        (_, WorkerEvent::Failed(error)) => if phase is Cloning || phase.updating() {
            (Phase::Done(phase.failure(error.message_text())), WorkerAction::Stop)
        } else {
            (phase, WorkerAction::Ignore)
        },
        (_, WorkerEvent::TaskLost) => if phase.running() {
            (Phase::Lost, WorkerAction::Stop)
        } else {
            (phase, WorkerAction::Ignore)
        },
        _ => (phase, WorkerAction::Ignore),
    }
}

/// The worker of one repository.
pub struct Worker {
    state: WorkerState,
    shallow: bool,
}

impl Worker {
    /// The phase that the worker is in.
    pub closed spec fn phase(&self) -> Phase {
        self.state@
    }

    /// Whether the worker clones with a history of one commit.
    pub closed spec fn shallow(&self) -> bool {
        self.shallow
    }

    /// A worker that has not begun.
    pub fn new(shallow: bool) -> (worker: Worker)
        ensures
            worker.phase() == Phase::Unprocessed,
            worker.shallow() == shallow,
    {
        Worker { state: WorkerState::Unprocessed, shallow }
    }

    /// Where the worker stands.
    pub fn state(&self) -> (state: &WorkerState)
        ensures
            state@ == self.phase(),
    {
        &self.state
    }

    /// Whether the worker occupies a permit.
    pub fn is_running(&self) -> (yes: bool)
        ensures
            yes == self.phase().running(),
    {
        match &self.state {
            WorkerState::Unprocessed => false,
            WorkerState::Done(_) => false,
            WorkerState::Lost => false,
            _ => true,
        }
    }

    /// The outcome, once the worker has reached one.
    pub fn outcome(&self) -> (outcome: Option<&DownloadResult>)
        ensures
            match outcome {
                Some(result) => self.phase() == Phase::Done(result@),
                None => !(self.phase() is Done),
            },
    {
        match &self.state {
            WorkerState::Done(result) => Some(result),
            _ => None,
        }
    }

    /// Takes `event` in and says what to do next.
    pub fn step(&mut self, event: WorkerEvent) -> (action: WorkerAction)
        ensures
            final(self).shallow() == old(self).shallow(),
            (final(self).phase(), action) == step_spec(
                old(self).phase(),
                event,
                old(self).shallow(),
            ),
    {
        let mut action = WorkerAction::Ignore;
        let mut next: Option<WorkerState> = None;
        match event {
            WorkerEvent::Started => {
                if let WorkerState::Unprocessed = &self.state {
                    next = Some(WorkerState::Deciding);
                    action = WorkerAction::CheckPath;
                }
            },
            WorkerEvent::PathChecked { exists } => {
                if let WorkerState::Deciding = &self.state {
                    if exists {
                        next = Some(WorkerState::Fetching);
                        action = WorkerAction::Fetch;
                    } else {
                        let depth: Option<u32> = if self.shallow {
                            Some(1)
                        } else {
                            None
                        };
                        next = Some(WorkerState::Cloning);
                        action = WorkerAction::Clone { depth };
                    }
                }
            },
            WorkerEvent::Cloned => {
                if let WorkerState::Cloning = &self.state {
                    next = Some(WorkerState::Done(DownloadResult::Success));
                    action = WorkerAction::Stop;
                }
            },
            WorkerEvent::Fetched => {
                if let WorkerState::Fetching = &self.state {
                    next = Some(WorkerState::MergeAnalysis);
                    action = WorkerAction::Analyze;
                }
            },
            WorkerEvent::Analyzed { fast_forward, up_to_date } => {
                if let WorkerState::MergeAnalysis = &self.state {
                    match classify_merge(fast_forward, up_to_date) {
                        MergeRelation::FastForward => {
                            next = Some(WorkerState::FastForwarding { candidate: 0 });
                            action = WorkerAction::FastForward { candidate: 0 };
                        },
                        _ => {
                            next = Some(WorkerState::Done(DownloadResult::Success));
                            action = WorkerAction::Stop;
                        },
                    }
                }
            },
            WorkerEvent::BranchAdvanced => {
                if let WorkerState::FastForwarding { candidate } = &self.state {
                    let candidate: usize = *candidate;
                    next = Some(WorkerState::Checkout { candidate });
                    action = WorkerAction::Checkout { candidate };
                }
            },
            WorkerEvent::BranchMissing => {
                if let WorkerState::FastForwarding { candidate } = &self.state {
                    let candidate: usize = *candidate;
                    if candidate < BRANCH_CANDIDATES - 1 {
                        next = Some(WorkerState::FastForwarding { candidate: candidate + 1 });
                        action = WorkerAction::FastForward { candidate: candidate + 1 };
                    } else {
                        next = Some(WorkerState::Done(DownloadResult::Success));
                        action = WorkerAction::Stop;
                    }
                }
            },
            WorkerEvent::CheckedOut => {
                if let WorkerState::Checkout { .. } = &self.state {
                    next = Some(WorkerState::Done(DownloadResult::Success));
                    action = WorkerAction::Stop;
                }
            },
            WorkerEvent::Failed(error) => {
                let cloning: bool = match &self.state {
                    WorkerState::Cloning => true,
                    _ => false,
                };
                let updating: bool = match &self.state {
                    WorkerState::Fetching => true,
                    WorkerState::MergeAnalysis => true,
                    WorkerState::FastForwarding { .. } => true,
                    WorkerState::Checkout { .. } => true,
                    _ => false,
                };
                if cloning || updating {
                    let step: &str = if cloning {
                        "Clone failed: "
                    } else {
                        "Update failed: "
                    };
                    let reason = String::from_str(step).concat(error.message().as_str());
                    next = Some(WorkerState::Done(DownloadResult::Failed(reason)));
                    action = WorkerAction::Stop;
                }
            },
            WorkerEvent::TaskLost => {
                if self.is_running() {
                    next = Some(WorkerState::Lost);
                    action = WorkerAction::Stop;
                }
            },
        }
        if let Some(state) = next {
            self.state = state;
        }
        action
    }
}

/// Whether carrying out an action changes the local branches or the
/// working tree of a repository.
pub open spec fn changes_working_copy(action: WorkerAction) -> bool {
    action is Clone || action is FastForward || action is Checkout
}

/// The phase that a worker in `phase` reaches by taking in `events` one
/// after the other.
pub open spec fn run(phase: Phase, events: Seq<WorkerEvent>, shallow: bool) -> Phase
    decreases events.len(),
{
    if events.len() == 0 {
        phase
    } else {
        step_spec(run(phase, events.drop_last(), shallow), events.last(), shallow).0
    }
}

/// The actions that a worker in `phase` asks for while it takes in `events`,
/// one for each event.
pub open spec fn asked(phase: Phase, events: Seq<WorkerEvent>, shallow: bool) -> Seq<WorkerAction>
    decreases events.len(),
{
    if events.len() == 0 {
        Seq::empty()
    } else {
        asked(phase, events.drop_last(), shallow).push(
            step_spec(run(phase, events.drop_last(), shallow), events.last(), shallow).1,
        )
    }
}

/// A worker that has reached its outcome or was lost stays as it is, whatever
/// is reported to it.
pub proof fn lemma_end_is_final(phase: Phase, event: WorkerEvent, shallow: bool)
    requires
        phase is Done || phase is Lost,
    ensures
        step_spec(phase, event, shallow) == (phase, WorkerAction::Ignore),
{
}

/// The step that takes a worker to its outcome decides the outcome: a
/// reported failure gives a failure that names the step and carries the text
/// of the error, anything else gives a success. No other outcome is reached,
/// and only a worker that occupies a permit reaches one.
pub proof fn lemma_outcome_of_last_step(phase: Phase, event: WorkerEvent, shallow: bool)
    requires
        !(phase is Done),
        step_spec(phase, event, shallow).0 is Done,
    ensures
        phase.running(),
        step_spec(phase, event, shallow).1 == WorkerAction::Stop,
        match event {
            WorkerEvent::Failed(error) => step_spec(phase, event, shallow).0 == Phase::Done(
                SyncOutcome::Failed(
                    if phase is Cloning {
                        "Clone failed: "@ + error.message_text()
                    } else {
                        "Update failed: "@ + error.message_text()
                    },
                ),
            ),
            _ => step_spec(phase, event, shallow).0 == Phase::Done(SyncOutcome::Success),
        },
{
}

/// Deciding goes by the target path alone: a repository that is there is
/// updated and never cloned, one that is not there is cloned, shallow with a
/// history of one commit.
pub proof fn lemma_decision_follows_path(present: bool, shallow: bool)
    ensures
        step_spec(Phase::Deciding, path_checked(present), shallow) == (if present {
            (Phase::Fetching, WorkerAction::Fetch)
        } else {
            (Phase::Cloning, clone_with(clone_depth(shallow)))
        }),
        clone_depth(true) == Some(1u32),
        clone_depth(false).is_none(),
{
}

/// The report that the target path was looked at.
pub open spec fn path_checked(present: bool) -> WorkerEvent {
    WorkerEvent::PathChecked { exists: present }
}

/// The request to clone with the given history depth.
pub open spec fn clone_with(depth: Option<u32>) -> WorkerAction {
    WorkerAction::Clone { depth }
}

/// As long as the path is there and no analysis finds a fast-forward, a
/// worker never asks for anything that changes the working copy: it neither
/// clones, nor moves a branch, nor checks out. This is what makes a second
/// run over an unchanged remote leave the local repository as it is.
pub proof fn lemma_no_news_no_change(events: Seq<WorkerEvent>, shallow: bool)
    requires
        forall|t: int|
            0 <= t < events.len() ==> match #[trigger] events[t] {
                WorkerEvent::PathChecked { exists } => exists,
                WorkerEvent::Analyzed { fast_forward, .. } => !fast_forward,
                _ => true,
            },
    ensures
        asked(Phase::Unprocessed, events, shallow).len() == events.len(),
        forall|t: int|
            0 <= t < events.len() ==> !changes_working_copy(
                #[trigger] asked(Phase::Unprocessed, events, shallow)[t],
            ),
        !(run(Phase::Unprocessed, events, shallow) is Cloning),
        !(run(Phase::Unprocessed, events, shallow) is FastForwarding),
        !(run(Phase::Unprocessed, events, shallow) is Checkout),
    decreases events.len(),
{
    if events.len() > 0 {
        let earlier = events.drop_last();
        assert forall|t: int| 0 <= t < earlier.len() implies match #[trigger] earlier[t] {
            WorkerEvent::PathChecked { exists } => exists,
            WorkerEvent::Analyzed { fast_forward, .. } => !fast_forward,
            _ => true,
        } by {
            assert(earlier[t] == events[t]);
        }
        lemma_no_news_no_change(earlier, shallow);
        let last = events[events.len() - 1];
        assert(events.last() == last);
        let before = asked(Phase::Unprocessed, earlier, shallow);
        let all = asked(Phase::Unprocessed, events, shallow);
        assert forall|t: int| 0 <= t < events.len() implies !changes_working_copy(
            #[trigger] all[t],
        ) by {
            if t < earlier.len() {
                assert(all[t] == before[t]);
            }
        }
    }
}

/// A worker whose transport never reports a failure does not end in one: no
/// run without a reported failure reaches a failed outcome.
pub proof fn lemma_no_failure_without_report(events: Seq<WorkerEvent>, shallow: bool)
    requires
        forall|t: int| 0 <= t < events.len() ==> !(#[trigger] events[t] is Failed),
    ensures
        run(Phase::Unprocessed, events, shallow) is Done ==> run(
            Phase::Unprocessed,
            events,
            shallow,
        ) == Phase::Done(SyncOutcome::Success),
    decreases events.len(),
{
    if events.len() > 0 {
        let earlier = events.drop_last();
        assert forall|t: int| 0 <= t < earlier.len() implies !(#[trigger] earlier[t] is Failed) by {
            assert(earlier[t] == events[t]);
        }
        lemma_no_failure_without_report(earlier, shallow);
        assert(!(events[events.len() - 1] is Failed));
    }
}

/// An upper bound on the number of events that a worker in `phase` can
/// still take in before it has ended.
pub open spec fn steps_left(phase: Phase) -> nat {
    match phase {
        Phase::Unprocessed => 8,
        Phase::Deciding => 7,
        Phase::Fetching => 6,
        Phase::MergeAnalysis => 5,
        Phase::FastForwarding { candidate } => if candidate < branch_preference().len() {
            (2 + branch_preference().len() - candidate) as nat
        } else {
            2
        },
        Phase::Checkout { .. } => 1,
        Phase::Cloning => 1,
        Phase::Done(_) => 0,
        Phase::Lost => 0,
    }
}

/// A worker never goes round in circles: an event is either ignored, and
/// then the worker stays as it is, or it brings the worker strictly closer
/// to its end.
pub proof fn lemma_every_step_makes_progress(phase: Phase, event: WorkerEvent, shallow: bool)
    ensures
        step_spec(phase, event, shallow).1 is Ignore ==> step_spec(phase, event, shallow).0
            == phase,
        !(step_spec(phase, event, shallow).1 is Ignore) ==> steps_left(
            step_spec(phase, event, shallow).0,
        ) < steps_left(phase),
        steps_left(phase) == 0 <==> phase is Done || phase is Lost,
{
}

} // verus!
