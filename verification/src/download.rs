//! The synchronisation engine: a batch of repositories, the workers that
//! process them, and the outcome of each.

use crate::gate::ConcurrencyGate;
use crate::github::Repository;
use crate::progress::{report, ProgressTracker, TransferProgress};
use crate::worker::{step_spec, Phase, Worker, WorkerAction, WorkerEvent, WorkerState};
use vstd::prelude::*;

verus! {

/// How the synchronisation of one repository ended.
#[derive(Debug, PartialEq, Eq)]
pub enum DownloadResult {
    /// The repository was cloned, or fetched and brought up to date as far
    /// as a fast-forward allows.
    Success,
    /// The repository was left out, for the reason given.
    Skipped(String),
    /// A step failed; the text says which and why.
    Failed(String),
}

/// The outcome of one repository as a mathematical value.
pub enum SyncOutcome {
    Success,
    Skipped(Seq<char>),
    Failed(Seq<char>),
}

impl View for DownloadResult {
    type V = SyncOutcome;

    open spec fn view(&self) -> SyncOutcome {
        match self {
            DownloadResult::Success => SyncOutcome::Success,
            DownloadResult::Skipped(reason) => SyncOutcome::Skipped(reason@),
            DownloadResult::Failed(reason) => SyncOutcome::Failed(reason@),
        }
    }
}

impl Clone for DownloadResult {
    fn clone(&self) -> (copy: Self)
        ensures
            copy == *self,
    {
        match self {
            DownloadResult::Success => DownloadResult::Success,
            DownloadResult::Skipped(reason) => DownloadResult::Skipped(reason.clone()),
            DownloadResult::Failed(reason) => DownloadResult::Failed(reason.clone()),
        }
    }
}

impl DownloadResult {
    /// Whether the repository was synchronised.
    pub fn is_success(&self) -> (yes: bool)
        ensures
            yes == (self@ is Success),
    {
        match self {
            DownloadResult::Success => true,
            _ => false,
        }
    }

    /// Whether a step of the synchronisation failed.
    pub fn is_failed(&self) -> (yes: bool)
        ensures
            yes == (self@ is Failed),
    {
        match self {
            DownloadResult::Failed(_) => true,
            _ => false,
        }
    }
}


/// The place of a repository in the output tree: the output root, then the
/// login of the owner, then the name of the repository.
pub open spec fn repository_path_text(root: Seq<char>, owner: Seq<char>, name: Seq<char>) -> Seq<
    char,
> {
    root + "/"@ + owner + "/"@ + name
}

/// The path of the working copy of a repository below `output_dir`.
pub fn repository_path(output_dir: &str, owner_login: &str, name: &str) -> (path: String)
    ensures
        path@ == repository_path_text(output_dir@, owner_login@, name@),
{
    let mut path = String::from_str(output_dir);
    path.append("/");
    path.append(owner_login);
    path.append("/");
    path.append(name);
    path
}

/// Whether a text is free of the path separator.
pub open spec fn has_no_separator(text: Seq<char>) -> bool {
    forall|i: int| 0 <= i < text.len() ==> #[trigger] text[i] != '/'
}

/// Different repositories have different places in the output tree: as long
/// as no owner login holds a path separator, two repositories with the same
/// path have the same owner and the same name. So no two workers ever write
/// below the same path.
pub proof fn lemma_paths_are_distinct(
    root: Seq<char>,
    owner_a: Seq<char>,
    name_a: Seq<char>,
    owner_b: Seq<char>,
    name_b: Seq<char>,
)
    requires
        has_no_separator(owner_a),
        has_no_separator(owner_b),
        repository_path_text(root, owner_a, name_a) == repository_path_text(
            root,
            owner_b,
            name_b,
        ),
    ensures
        owner_a == owner_b,
        name_a == name_b,
{
    reveal_strlit("/");
    let separator = "/"@;
    assert(separator.len() == 1 && separator[0] == '/');
    let path_a = repository_path_text(root, owner_a, name_a);
    let path_b = repository_path_text(root, owner_b, name_b);
    let start: int = root.len() as int + 1;
    let len_a: int = owner_a.len() as int;
    let len_b: int = owner_b.len() as int;
    assert forall|i: int| 0 <= i < owner_a.len() implies path_a[start + i] == owner_a[i] by {}
    assert forall|i: int| 0 <= i < owner_b.len() implies path_b[start + i] == owner_b[i] by {}
    assert(path_a[start + len_a] == '/');
    assert(path_b[start + len_b] == '/');
    if len_a < len_b {
        assert(path_b[start + len_a] == owner_b[len_a]);
    }
    if len_b < len_a {
        assert(path_a[start + len_b] == owner_a[len_b]);
    }
    assert(len_a == len_b);
    assert(owner_a =~= owner_b) by {
        assert forall|i: int| 0 <= i < owner_a.len() implies owner_a[i] == owner_b[i] by {
            assert(path_a[start + i] == owner_a[i]);
            assert(path_b[start + i] == owner_b[i]);
        }
    }
    let rest: int = start + len_a + 1;
    assert(path_a.len() == rest + name_a.len());
    assert(path_b.len() == rest + name_b.len());
    assert(name_a =~= name_b) by {
        assert forall|i: int| 0 <= i < name_a.len() implies name_a[i] == name_b[i] by {
            assert(path_a[rest + i] == name_a[i]);
            assert(path_b[rest + i] == name_b[i]);
        }
    }
}

/// A kind of phase that the engine counts.
pub enum Tally {
    /// Workers that occupy a permit.
    Running,
    /// Workers that have reached an outcome.
    Done,
    /// Workers whose task was lost.
    Lost,
}

/// Whether a phase is of the kind `kind`.
pub open spec fn tallied(phase: Phase, kind: Tally) -> bool {
    match kind {
        Tally::Running => phase.running(),
        Tally::Done => phase is Done,
        Tally::Lost => phase is Lost,
    }
}

/// The number of phases of the kind `kind`.
pub open spec fn tally(phases: Seq<Phase>, kind: Tally) -> nat
    decreases phases.len(),
{
    if phases.len() == 0 {
        0
    } else {
        tally(phases.drop_last(), kind) + if tallied(phases.last(), kind) {
            1nat
        } else {
            0nat
        }
    }
}

/// No more phases are of a kind than there are phases.
pub proof fn lemma_tally_bound(phases: Seq<Phase>, kind: Tally)
    ensures
        tally(phases, kind) <= phases.len(),
    decreases phases.len(),
{
    if phases.len() > 0 {
        lemma_tally_bound(phases.drop_last(), kind);
    }
}

/// Replacing one phase changes a count by what the old phase took from it
/// and the new one adds to it.
pub proof fn lemma_tally_update(phases: Seq<Phase>, at: int, phase: Phase, kind: Tally)
    requires
        0 <= at < phases.len(),
    ensures
        tally(phases.update(at, phase), kind) + if tallied(phases[at], kind) {
            1nat
        } else {
            0nat
        } == tally(phases, kind) + if tallied(phase, kind) {
            1nat
        } else {
            0nat
        },
    decreases phases.len(),
{
    let updated = phases.update(at, phase);
    if at == phases.len() - 1 {
        assert(updated.drop_last() =~= phases.drop_last());
    } else {
        assert(updated.drop_last() =~= phases.drop_last().update(at, phase));
        lemma_tally_update(phases.drop_last(), at, phase, kind);
    }
}

/// Where a count is zero, no phase is of the kind.
pub proof fn lemma_tally_none(phases: Seq<Phase>, kind: Tally)
    requires
        tally(phases, kind) == 0,
    ensures
        forall|i: int| 0 <= i < phases.len() ==> !tallied(#[trigger] phases[i], kind),
    decreases phases.len(),
{
    if phases.len() > 0 {
        lemma_tally_none(phases.drop_last(), kind);
        assert forall|i: int| 0 <= i < phases.len() implies !tallied(
            #[trigger] phases[i],
            kind,
        ) by {
            if i < phases.len() - 1 {
                assert(phases.drop_last()[i] == phases[i]);
            }
        }
    }
}

/// The number of outcomes that are a success.
pub open spec fn successes(outcomes: Seq<(Seq<char>, SyncOutcome)>) -> nat
    decreases outcomes.len(),
{
    if outcomes.len() == 0 {
        0
    } else {
        successes(outcomes.drop_last()) + if outcomes.last().1 is Success {
            1nat
        } else {
            0nat
        }
    }
}

/// The number of outcomes that are a failure.
pub open spec fn failures(outcomes: Seq<(Seq<char>, SyncOutcome)>) -> nat
    decreases outcomes.len(),
{
    if outcomes.len() == 0 {
        0
    } else {
        failures(outcomes.drop_last()) + if outcomes.last().1 is Failed {
            1nat
        } else {
            0nat
        }
    }
}

/// What the engine makes of an event for a worker in `phase`. The engine
/// itself starts workers, so a report that one has started is ignored.
pub open spec fn engine_step(phase: Phase, event: WorkerEvent, shallow: bool) -> (
    Phase,
    WorkerAction,
) {
    if event is Started {
        (phase, WorkerAction::Ignore)
    } else {
        step_spec(phase, event, shallow)
    }
}

/// The phases of a batch in which no worker has begun.
pub open spec fn waiting(count: nat) -> Seq<Phase> {
    Seq::new(count, |i: int| Phase::Unprocessed)
}

/// The phases that `phases` become when the events of `history` are taken
/// in one after the other, each by the worker at the place that it names.
pub open spec fn replay(phases: Seq<Phase>, history: Seq<(int, WorkerEvent)>, shallow: bool) -> Seq<
    Phase,
>
    decreases history.len(),
{
    if history.len() == 0 {
        phases
    } else {
        let prior = replay(phases, history.drop_last(), shallow);
        let (at, event) = history.last();
        if 0 <= at < prior.len() {
            prior.update(at, step_spec(prior[at], event, shallow).0)
        } else {
            prior
        }
    }
}

/// Whether `order` holds the place `at`.
pub open spec fn listed(order: Seq<int>, at: int) -> bool {
    exists|k: int| 0 <= k < order.len() && #[trigger] order[k] == at
}

/// Whether a worker that is cloning belongs to a repository named `name`.
pub open spec fn cloning_named(workers: Seq<Worker>, repositories: Seq<Repository>, name: Seq<
    char,
>) -> bool {
    exists|i: int|
        0 <= i < workers.len() && 0 <= i < repositories.len() && (#[trigger] workers[i]).phase()
            is Cloning && repositories[i].name@ == name
}

/// The settings of a synchronisation and the tracker that it reports to.
pub struct Downloader {
    output_dir: String,
    token: String,
    shallow: bool,
    progress: ProgressTracker,
}

/// What the caller needs to work on one repository.
#[derive(Debug, PartialEq, Eq)]
pub struct SyncJob {
    /// The place of the repository in the batch.
    pub index: usize,
    pub name: String,
    pub full_name: String,
    pub clone_url: String,
    /// The path of the local working copy.
    pub path: String,
    /// The first thing to do.
    pub action: WorkerAction,
}

/// A batch of repositories in synchronisation.
pub struct SyncBatch {
    output_dir: String,
    token: String,
    shallow: bool,
    repositories: Vec<Repository>,
    workers: Vec<Worker>,
    gate: ConcurrencyGate,
    started: usize,
    results: Vec<(String, DownloadResult)>,
    order: Vec<usize>,
    progress: ProgressTracker,
    history: Ghost<Seq<(int, WorkerEvent)>>,
}

impl Downloader {
    /// The root of the output tree.
    pub closed spec fn output_dir(&self) -> Seq<char> {
        self.output_dir@
    }

    /// The token sent with every transport operation.
    pub closed spec fn token(&self) -> Seq<char> {
        self.token@
    }

    /// Whether clones are cut to a history of one commit.
    pub closed spec fn shallow(&self) -> bool {
        self.shallow
    }

    /// The tracker that the synchronisation reports to.
    pub closed spec fn progress(&self) -> ProgressTracker {
        self.progress
    }

    /// The settings of a synchronisation into `output_dir` with `token` as
    /// credential, reporting to `progress`.
    pub fn new(output_dir: String, token: String, shallow: bool, progress: ProgressTracker) -> (downloader:
        Downloader)
        ensures
            downloader.output_dir() == output_dir@,
            downloader.token() == token@,
            downloader.shallow() == shallow,
            downloader.progress() == progress,
    {
        Downloader { output_dir, token, shallow, progress }
    }

    /// Sets up the synchronisation of `repositories` with at most
    /// `max_concurrent` workers at a time. Nothing runs yet: the batch hands
    /// out work through [`SyncBatch::start_next`].
    pub fn download_repositories(self, repositories: Vec<Repository>, max_concurrent: usize) -> (batch:
        SyncBatch)
        requires
            max_concurrent >= 1,
            self.progress().fresh(),
            repositories@.len() <= self.progress().total(),
        ensures
            batch.wf(),
            batch.descriptors() == repositories@,
            batch.limit() == max_concurrent,
            batch.shallow() == self.shallow(),
            batch.output_dir() == self.output_dir(),
            batch.token() == self.token(),
            batch.started() == 0,
            batch.running() == 0,
            batch.phases() == waiting(repositories@.len()),
            batch.outcomes() == Seq::<(Seq<char>, SyncOutcome)>::empty(),
            batch.completion_order() == Seq::<int>::empty(),
            batch.history() == Seq::<(int, WorkerEvent)>::empty(),
            batch.total() == self.progress().total(),
            batch.completed() == 0,
            batch.failed() == 0,
            batch.in_flight() == Map::<Seq<char>, TransferProgress>::empty(),
    {
        let mut workers: Vec<Worker> = Vec::new();
        let mut i: usize = 0;
        while i < repositories.len()
            invariant
                i <= repositories@.len(),
                workers@.len() == i,
                forall|j: int|
                    0 <= j < i ==> (#[trigger] workers@[j]).phase() == Phase::Unprocessed
                        && workers@[j].shallow() == self.shallow,
            decreases repositories@.len() - i,
        {
            workers.push(Worker::new(self.shallow));
            i = i + 1;
        }
        let batch = SyncBatch {
            output_dir: self.output_dir,
            token: self.token,
            shallow: self.shallow,
            repositories,
            workers,
            gate: ConcurrencyGate::new(max_concurrent),
            started: 0,
            results: Vec::new(),
            order: Vec::new(),
            progress: self.progress,
            history: Ghost(Seq::empty()),
        };
        proof {
            let phases = batch.phases();
            assert(phases =~= waiting(repositories@.len()));
            lemma_tally_start(phases, Tally::Running);
            lemma_tally_start(phases, Tally::Done);
            assert(batch.outcomes() =~= Seq::<(Seq<char>, SyncOutcome)>::empty());
            assert(batch.completion_order() =~= Seq::<int>::empty());
        }
        batch
    }
}

/// While no worker has begun, no phase is running, done or lost.
proof fn lemma_tally_start(phases: Seq<Phase>, kind: Tally)
    requires
        forall|i: int| 0 <= i < phases.len() ==> #[trigger] phases[i] is Unprocessed,
    ensures
        tally(phases, kind) == 0,
    decreases phases.len(),
{
    if phases.len() > 0 {
        assert(phases.last() == phases[phases.len() - 1]);
        assert forall|i: int| 0 <= i < phases.drop_last().len() implies #[trigger] phases.drop_last()[i] is Unprocessed by {
            assert(phases.drop_last()[i] == phases[i]);
        }
        lemma_tally_start(phases.drop_last(), kind);
    }
}

impl SyncBatch {
    /// The repositories of the batch, in the order in which they were given.
    pub closed spec fn descriptors(&self) -> Seq<Repository> {
        self.repositories@
    }

    /// The phase of the worker of each repository.
    pub closed spec fn phases(&self) -> Seq<Phase> {
        Seq::new(self.workers@.len(), |i: int| self.workers@[i].phase())
    }

    /// The number of workers that may run at the same time.
    pub closed spec fn limit(&self) -> nat {
        self.gate.permits()
    }

    /// The number of repositories whose worker has been started.
    pub closed spec fn started(&self) -> nat {
        self.started as nat
    }

    /// Whether clones are cut to a history of one commit.
    pub closed spec fn shallow(&self) -> bool {
        self.shallow
    }

    /// The root of the output tree.
    pub closed spec fn output_dir(&self) -> Seq<char> {
        self.output_dir@
    }

    /// The token sent with every transport operation.
    pub closed spec fn token(&self) -> Seq<char> {
        self.token@
    }

    /// The outcomes reached so far, each with the full name of its
    /// repository, in the order in which they were reached.
    pub closed spec fn outcomes(&self) -> Seq<(Seq<char>, SyncOutcome)> {
        Seq::new(self.results@.len(), |k: int| (self.results@[k].0@, self.results@[k].1@))
    }

    /// For each outcome, the place in the batch of the repository that it
    /// belongs to.
    pub closed spec fn completion_order(&self) -> Seq<int> {
        Seq::new(self.order@.len(), |k: int| self.order@[k] as int)
    }

    /// Every event that a worker of the batch has taken in, with the place
    /// of the worker, oldest first.
    pub closed spec fn history(&self) -> Seq<(int, WorkerEvent)> {
        self.history@
    }

    /// The total that the tracker was set up with.
    pub closed spec fn total(&self) -> nat {
        self.progress.total()
    }

    /// The number of repositories that the tracker counts as synchronised.
    pub closed spec fn completed(&self) -> nat {
        self.progress.completed()
    }

    /// The number of repositories that the tracker counts as failed.
    pub closed spec fn failed(&self) -> nat {
        self.progress.failed()
    }

    /// The transfers that the tracker holds as in flight.
    pub closed spec fn in_flight(&self) -> Map<Seq<char>, TransferProgress> {
        self.progress.in_flight()
    }

    /// The number of workers that occupy a permit.
    pub open spec fn running(&self) -> nat {
        tally(self.phases(), Tally::Running)
    }

    /// What holds of a batch at every moment.
    pub closed spec fn wf(&self) -> bool {
        let n = self.repositories@.len();
        &&& self.workers@.len() == n
        &&& self.started <= n
        &&& forall|i: int| 0 <= i < n ==> (#[trigger] self.workers@[i]).shallow() == self.shallow
        &&& forall|i: int|
            0 <= i < n ==> ((#[trigger] self.workers@[i]).phase() is Unprocessed <==> i
                >= self.started)
        &&& self.phases() == replay(waiting(n), self.history@, self.shallow)
        &&& self.gate.wf()
        &&& self.gate.in_use() == tally(self.phases(), Tally::Running)
        &&& self.order@.len() == self.results@.len()
        &&& self.results@.len() == tally(self.phases(), Tally::Done)
        &&& forall|k: int|
            0 <= k < self.order@.len() ==> {
                let i = #[trigger] self.order@[k];
                &&& i < n
                &&& self.workers@[i as int].phase() == Phase::Done(self.results@[k].1@)
                &&& self.results@[k].0@ == self.repositories@[i as int].full_name@
                &&& !(self.results@[k].1@ is Skipped)
            }
        &&& forall|j: int, k: int|
            0 <= j < k < self.order@.len() ==> self.order@[j] != self.order@[k]
        &&& forall|i: int|
            0 <= i < n && (#[trigger] self.workers@[i]).phase() is Done ==> listed(
                self.completion_order(),
                i,
            )
        &&& self.progress.completed() == successes(self.outcomes())
        &&& self.progress.failed() == failures(self.outcomes())
        &&& successes(self.outcomes()) + failures(self.outcomes()) == self.results@.len()
        &&& n <= self.progress.total()
        &&& forall|key: Seq<char>|
            self.progress.in_flight().contains_key(key) ==> cloning_named(
                self.workers@,
                self.repositories@,
                key,
            )
    }

    /// The settings of the batch are those of `other`.
    pub open spec fn same_settings(&self, other: &SyncBatch) -> bool {
        &&& self.descriptors() == other.descriptors()
        &&& self.limit() == other.limit()
        &&& self.shallow() == other.shallow()
        &&& self.output_dir() == other.output_dir()
        &&& self.token() == other.token()
        &&& self.total() == other.total()
    }

    /// Outcomes and counters are those of `other`.
    pub open spec fn same_outcomes(&self, other: &SyncBatch) -> bool {
        &&& self.outcomes() == other.outcomes()
        &&& self.completion_order() == other.completion_order()
        &&& self.completed() == other.completed()
        &&& self.failed() == other.failed()
    }

    /// Whether a worker can be started: a permit is free and a repository
    /// is still waiting.
    pub open spec fn can_start(&self) -> bool {
        self.running() < self.limit() && self.started() < self.descriptors().len()
    }

    /// Whether every repository has been started and no worker is running.
    pub open spec fn finished(&self) -> bool {
        self.started() == self.descriptors().len() && self.running() == 0
    }

    /// Starts the worker of the next waiting repository, if a permit is
    /// free, and says what the caller needs to work on it.
    pub fn start_next(&mut self) -> (job: Option<SyncJob>)
        requires
            old(self).wf(),
        ensures
            final(self).wf(),
            final(self).same_settings(old(self)),
            final(self).same_outcomes(old(self)),
            final(self).in_flight() == old(self).in_flight(),
            job is Some <==> old(self).can_start(),
            match job {
                Some(job) => {
                    let i = old(self).started() as int;
                    let repository = old(self).descriptors()[i];
                    &&& final(self).started() == old(self).started() + 1
                    &&& final(self).running() == old(self).running() + 1
                    &&& old(self).phases()[i] == Phase::Unprocessed
                    &&& final(self).phases() == old(self).phases().update(i, Phase::Deciding)
                    &&& final(self).history() == old(self).history().push((i, WorkerEvent::Started))
                    &&& job.index == i
                    &&& job.name@ == repository.name@
                    &&& job.full_name@ == repository.full_name@
                    &&& job.clone_url@ == repository.clone_url@
                    &&& job.path@ == repository_path_text(
                        old(self).output_dir(),
                        repository.owner.login@,
                        repository.name@,
                    )
                    &&& job.action == WorkerAction::CheckPath
                },
                None => {
                    &&& final(self).started() == old(self).started()
                    &&& final(self).running() == old(self).running()
                    &&& final(self).phases() == old(self).phases()
                    &&& final(self).history() == old(self).history()
                },
            },
    {
        if self.started >= self.repositories.len() {
            return None;
        }
        if !self.gate.try_acquire() {
            return None;
        }
        let index: usize = self.started;
        let ghost before = self.phases();
        assert(before[index as int] == self.workers@[index as int].phase());
        let action = self.workers[index].step(WorkerEvent::Started);
        self.started = index + 1;
        self.history = Ghost(self.history@.push((index as int, WorkerEvent::Started)));
        proof {
            assert(self.history@.drop_last() =~= old(self).history@);
            assert(self.phases() =~= before.update(index as int, Phase::Deciding));
            lemma_tally_update(before, index as int, Phase::Deciding, Tally::Running);
            lemma_tally_update(before, index as int, Phase::Deciding, Tally::Done);
            assert(self.outcomes() =~= old(self).outcomes());
            assert(self.completion_order() =~= old(self).completion_order());
            assert forall|key: Seq<char>|
                self.progress.in_flight().contains_key(key) implies cloning_named(
                self.workers@,
                self.repositories@,
                key,
            ) by {
                assert(cloning_named(old(self).workers@, old(self).repositories@, key));
                let i = choose|i: int|
                    0 <= i < old(self).workers@.len() && 0 <= i < old(self).repositories@.len() && (
                    #[trigger] old(self).workers@[i]).phase() is Cloning && old(
                        self,
                    ).repositories@[i].name@ == key;
                assert(self.workers@[i].phase() is Cloning);
            }
        }
        let repository = &self.repositories[index];
        let job = SyncJob {
            index,
            name: repository.name.clone(),
            full_name: repository.full_name.clone(),
            clone_url: repository.clone_url.clone(),
            path: repository_path(
                self.output_dir.as_str(),
                repository.owner.login.as_str(),
                repository.name.as_str(),
            ),
            action,
        };
        Some(job)
    }

    /// Hands `event` to the worker of the repository at `index` and says
    /// what to do next.
    ///
    /// When the worker reaches its outcome, the outcome is recorded with the
    /// full name of the repository and the matching counter goes up by one.
    /// When the worker reaches its outcome or is lost, its permit is free
    /// again and the transfer of its clone is no longer in flight. An
    /// index outside the batch is ignored.
    pub fn handle_event(&mut self, index: usize, event: WorkerEvent) -> (action: WorkerAction)
        requires
            old(self).wf(),
        ensures
            final(self).wf(),
            final(self).same_settings(old(self)),
            final(self).started() == old(self).started(),
            final(self).history() == if index < old(self).descriptors().len() && !(event
                is Started) {
                old(self).history().push((index as int, event))
            } else {
                old(self).history()
            },
            index >= old(self).descriptors().len() ==> {
                &&& action == WorkerAction::Ignore
                &&& final(self).phases() == old(self).phases()
                &&& final(self).same_outcomes(old(self))
                &&& final(self).in_flight() == old(self).in_flight()
            },
            index < old(self).descriptors().len() ==> {
                let before = old(self).phases()[index as int];
                let (after, asked) = engine_step(before, event, old(self).shallow());
                let repository = old(self).descriptors()[index as int];
                &&& action == asked
                &&& final(self).phases() == old(self).phases().update(index as int, after)
                &&& old(self).running() == final(self).running() + if before.running()
                    && !after.running() {
                    1nat
                } else {
                    0nat
                }
                &&& if settles(before, after) {
                    &&& final(self).outcomes() == old(self).outcomes().push(
                        (repository.full_name@, after->Done_0),
                    )
                    &&& final(self).completion_order() == old(self).completion_order().push(
                        index as int,
                    )
                    &&& final(self).completed() == old(self).completed() + if after->Done_0
                        is Success {
                        1nat
                    } else {
                        0nat
                    }
                    &&& final(self).failed() == old(self).failed() + if after->Done_0 is Failed {
                        1nat
                    } else {
                        0nat
                    }
                } else {
                    final(self).same_outcomes(old(self))
                }
                &&& final(self).in_flight() == if before is Cloning && !(after is Cloning) {
                    old(self).in_flight().remove(repository.name@)
                } else {
                    old(self).in_flight()
                }
            },
    {
        if index >= self.workers.len() {
            return WorkerAction::Ignore;
        }
        let start_report: bool = match &event {
            WorkerEvent::Started => true,
            _ => false,
        };
        let ghost before = self.phases();
        assert(before[index as int] == self.workers@[index as int].phase());
        if start_report {
            assert(self.phases() =~= before.update(index as int, before[index as int]));
            return WorkerAction::Ignore;
        }
        let was_cloning: bool = match self.workers[index].state() {
            WorkerState::Cloning => true,
            _ => false,
        };
        let was_running = self.workers[index].is_running();
        self.history = Ghost(self.history@.push((index as int, event)));
        let action = self.workers[index].step(event);
        let ghost after = self.workers@[index as int].phase();
        proof {
            assert(self.history@.drop_last() =~= old(self).history@);
            assert(self.phases() =~= before.update(index as int, after));
            lemma_tally_update(before, index as int, after, Tally::Running);
            lemma_tally_update(before, index as int, after, Tally::Done);
            lemma_tally_bound(self.phases(), Tally::Done);
            assert(self.outcomes() =~= old(self).outcomes());
            assert(self.completion_order() =~= old(self).completion_order());
        }
        if was_running && !self.workers[index].is_running() {
            self.gate.release();
            if was_cloning {
                self.progress.clear_repo_progress(self.repositories[index].name.as_str());
            }
            let settled: Option<DownloadResult> = match self.workers[index].outcome() {
                Some(result) => Some(result.clone()),
                None => None,
            };
            if let Some(result) = settled {
                let success = result.is_success();
                let full_name = self.repositories[index].full_name.clone();
                let ghost outcomes_before = self.outcomes();
                self.results.push((full_name, result));
                self.order.push(index);
                if success {
                    self.progress.increment_completed();
                } else {
                    self.progress.increment_failed();
                }
                proof {
                    let entry = (self.repositories@[index as int].full_name@, after->Done_0);
                    assert(self.outcomes() =~= outcomes_before.push(entry));
                    assert(self.outcomes().drop_last() =~= outcomes_before);
                    assert(self.completion_order() =~= old(self).completion_order().push(
                        index as int,
                    ));
                    assert forall|i: int|
                        0 <= i < self.workers@.len() && (#[trigger] self.workers@[i]).phase()
                            is Done implies listed(self.completion_order(), i) by {
                        if i == index {
                            assert(self.completion_order()[old(self).order@.len() as int] == i);
                        } else {
                            assert(old(self).workers@[i].phase() is Done);
                            let earlier = old(self).completion_order();
                            let k = choose|k: int| 0 <= k < earlier.len() && #[trigger] earlier[k] == i;
                            assert(self.completion_order()[k] == i);
                        }
                    }
                }
            }
        }
        proof {
            assert forall|key: Seq<char>|
                self.progress.in_flight().contains_key(key) implies cloning_named(
                self.workers@,
                self.repositories@,
                key,
            ) by {
                lemma_still_cloning(
                    old(self).workers@,
                    self.workers@,
                    self.repositories@,
                    index as int,
                    key,
                );
            }
        }
        action
    }

    /// Takes in a progress report of the transfer that clones the repository
    /// at `index`: `received` of `total` objects, each count cut to 32 bits.
    ///
    /// A report is recorded only while the worker is cloning and once the
    /// total is known, that is, above zero.
    pub fn report_transfer(&mut self, index: usize, received: usize, total: usize)
        requires
            old(self).wf(),
        ensures
            final(self).wf(),
            final(self).same_settings(old(self)),
            final(self).same_outcomes(old(self)),
            final(self).started() == old(self).started(),
            final(self).phases() == old(self).phases(),
            final(self).history() == old(self).history(),
            final(self).in_flight() == if index < old(self).descriptors().len() && old(
                self,
            ).phases()[index as int] is Cloning && total > 0 {
                report(
                    old(self).in_flight(),
                    old(self).descriptors()[index as int].name@,
                    received as u32,
                    total as u32,
                )
            } else {
                old(self).in_flight()
            },
    {
        if index >= self.workers.len() || total == 0 {
            return ;
        }
        let cloning: bool = match self.workers[index].state() {
            WorkerState::Cloning => true,
            _ => false,
        };
        if cloning {
            self.progress.update_repo_progress(
                self.repositories[index].name.as_str(),
                #[verifier::truncate]
                (received as u32),
                #[verifier::truncate]
                (total as u32),
            );
            proof {
                assert(self.outcomes() =~= old(self).outcomes());
                assert forall|key: Seq<char>|
                    self.progress.in_flight().contains_key(key) implies cloning_named(
                    self.workers@,
                    self.repositories@,
                    key,
                ) by {
                    if key == self.repositories@[index as int].name@ {
                        assert(self.workers@[index as int].phase() is Cloning);
                    } else {
                        assert(old(self).progress.in_flight().contains_key(key));
                    }
                }
            }
        }
    }

    /// Whether every repository has been started and no worker is running.
    pub fn is_finished(&self) -> (yes: bool)
        requires
            self.wf(),
        ensures
            yes == self.finished(),
    {
        self.started == self.repositories.len() && self.gate.held() == 0
    }

    /// The number of repositories in the batch.
    pub fn len(&self) -> (count: usize)
        ensures
            count == self.descriptors().len(),
    {
        self.repositories.len()
    }

    /// The number of workers that may run at the same time.
    pub fn max_concurrent(&self) -> (limit: usize)
        ensures
            limit == self.limit(),
    {
        self.gate.capacity()
    }

    /// The number of workers that occupy a permit.
    pub fn running_workers(&self) -> (count: usize)
        requires
            self.wf(),
        ensures
            count == self.running(),
            count <= self.limit(),
    {
        self.gate.held()
    }

    /// The number of workers whose task was lost.
    pub fn lost_workers(&self) -> (count: usize)
        requires
            self.wf(),
        ensures
            count == tally(self.phases(), Tally::Lost),
    {
        let mut count: usize = 0;
        let mut i: usize = 0;
        while i < self.workers.len()
            invariant
                i <= self.workers@.len(),
                count == tally(self.phases().take(i as int), Tally::Lost),
                count <= i,
            decreases self.workers@.len() - i,
        {
            let lost: bool = match self.workers[i].state() {
                WorkerState::Lost => true,
                _ => false,
            };
            proof {
                let next = self.phases().take(i + 1);
                assert(next.drop_last() =~= self.phases().take(i as int));
                assert(next.last() == self.workers@[i as int].phase());
            }
            if lost {
                count = count + 1;
            }
            i = i + 1;
        }
        assert(self.phases().take(i as int) =~= self.phases());
        count
    }

    /// Where the worker of the repository at `index` stands.
    pub fn worker_state(&self, index: usize) -> (state: Option<&WorkerState>)
        ensures
            match state {
                Some(state) => index < self.phases().len() && state@ == self.phases()[index as int],
                None => index >= self.phases().len(),
            },
    {
        if index < self.workers.len() {
            Some(self.workers[index].state())
        } else {
            None
        }
    }

    /// The token sent with every transport operation.
    pub fn credential(&self) -> (token: &str)
        ensures
            token@ == self.token(),
    {
        self.token.as_str()
    }

    /// The counters and the transfers in flight.
    pub fn progress(&self) -> (tracker: &ProgressTracker)
        ensures
            tracker.total() == self.total(),
            tracker.completed() == self.completed(),
            tracker.failed() == self.failed(),
            tracker.in_flight() == self.in_flight(),
    {
        &self.progress
    }

    /// The outcomes reached so far, each with the full name of its
    /// repository, in the order in which they were reached.
    pub fn results(&self) -> (results: &Vec<(String, DownloadResult)>)
        ensures
            results@.len() == self.outcomes().len(),
            forall|k: int|
                0 <= k < results@.len() ==> (#[trigger] results@[k]).0@ == self.outcomes()[k].0
                    && results@[k].1@ == self.outcomes()[k].1,
    {
        &self.results
    }

    /// For each outcome, the place in the batch of its repository.
    pub fn order(&self) -> (order: &Vec<usize>)
        ensures
            order@.len() == self.completion_order().len(),
            forall|k: int|
                0 <= k < order@.len() ==> #[trigger] order@[k] == self.completion_order()[k],
    {
        &self.order
    }

    /// Ends a finished batch and hands out its outcomes and its tracker.
    /// There is one outcome for every repository whose task was not lost.
    pub fn into_results(self) -> (ended: (Vec<(String, DownloadResult)>, ProgressTracker))
        requires
            self.wf(),
            self.finished(),
        ensures
            ended.0@.len() == self.outcomes().len(),
            ended.0@.len() + tally(self.phases(), Tally::Lost) == self.descriptors().len(),
            forall|k: int|
                0 <= k < ended.0@.len() ==> (#[trigger] ended.0@[k]).0@ == self.outcomes()[k].0
                    && ended.0@[k].1@ == self.outcomes()[k].1,
            ended.1.total() == self.total(),
            ended.1.completed() == self.completed(),
            ended.1.failed() == self.failed(),
            ended.1.in_flight() == self.in_flight(),
    {
        proof {
            lemma_all_ended(self);
        }
        (self.results, self.progress)
    }
}

/// Whether a step takes a worker to its outcome.
pub open spec fn settles(before: Phase, after: Phase) -> bool {
    after is Done && !(before is Done)
}

/// A name that belonged to a cloning worker still does after one worker
/// has changed, unless that worker was the only one: it was cloning, is not
/// any more and bears the name.
proof fn lemma_still_cloning(
    before: Seq<Worker>,
    after: Seq<Worker>,
    repositories: Seq<Repository>,
    at: int,
    name: Seq<char>,
)
    requires
        cloning_named(before, repositories, name),
        before.len() == after.len(),
        0 <= at < before.len(),
        forall|i: int| 0 <= i < before.len() && i != at ==> before[i] == after[i],
        before[at].phase() is Cloning ==> after[at].phase() is Cloning || (at < repositories.len()
            && repositories[at].name@ != name),
    ensures
        cloning_named(after, repositories, name),
{
    let i = choose|i: int|
        0 <= i < before.len() && 0 <= i < repositories.len() && (#[trigger] before[i]).phase()
            is Cloning && repositories[i].name@ == name;
    assert(after[i].phase() is Cloning);
}

/// Whether the transport of the repository at `at` has reported a failure.
pub open spec fn transport_failed(history: Seq<(int, WorkerEvent)>, at: int) -> bool {
    exists|t: int| 0 <= t < history.len() && (#[trigger] history[t]).0 == at && history[t].1 is Failed
}

/// Taking events in changes no phase count.
pub proof fn lemma_replay_len(phases: Seq<Phase>, history: Seq<(int, WorkerEvent)>, shallow: bool)
    ensures
        replay(phases, history, shallow).len() == phases.len(),
    decreases history.len(),
{
    if history.len() > 0 {
        lemma_replay_len(phases, history.drop_last(), shallow);
    }
}

/// A worker whose transport never reported a failure does not end in a
/// failure: if it has reached an outcome, the outcome is a success.
pub proof fn lemma_success_without_failure(
    count: nat,
    history: Seq<(int, WorkerEvent)>,
    shallow: bool,
    at: int,
)
    requires
        0 <= at < count,
        !transport_failed(history, at),
    ensures
        replay(waiting(count), history, shallow).len() == count,
        replay(waiting(count), history, shallow)[at] is Done ==> replay(
            waiting(count),
            history,
            shallow,
        )[at] == Phase::Done(SyncOutcome::Success),
    decreases history.len(),
{
    lemma_replay_len(waiting(count), history, shallow);
    if history.len() > 0 {
        let earlier = history.drop_last();
        assert forall|t: int| 0 <= t < earlier.len() && (#[trigger] earlier[t]).0 == at implies !(
        earlier[t].1 is Failed) by {
            assert(history[t] == earlier[t]);
        }
        lemma_success_without_failure(count, earlier, shallow, at);
        lemma_replay_len(waiting(count), earlier, shallow);
        let last = history[history.len() - 1];
        assert(history.last() == last);
        if last.0 == at {
            assert(!(last.1 is Failed));
        }
    }
}

/// At no moment do more workers run than the limit allows.
pub proof fn lemma_running_within_limit(batch: SyncBatch)
    requires
        batch.wf(),
    ensures
        batch.running() <= batch.limit(),
        1 <= batch.limit(),
{
}

/// The workers that have not begun are those of the repositories from
/// `started()` on, and the phases are what the events taken in so far make
/// of a batch in which no worker has begun.
pub proof fn lemma_phases_follow_history(batch: SyncBatch)
    requires
        batch.wf(),
    ensures
        batch.phases().len() == batch.descriptors().len(),
        batch.started() <= batch.descriptors().len(),
        forall|i: int|
            0 <= i < batch.phases().len() ==> (#[trigger] batch.phases()[i] is Unprocessed <==> i
                >= batch.started()),
        batch.phases() == replay(
            waiting(batch.descriptors().len()),
            batch.history(),
            batch.shallow(),
        ),
{
    assert forall|i: int| 0 <= i < batch.phases().len() implies (#[trigger] batch.phases()[i]
        is Unprocessed <==> i >= batch.started()) by {
        assert(batch.phases()[i] == batch.workers@[i].phase());
    }
}

/// Every terminal step is counted exactly once: the tracker counts as
/// synchronised the outcomes that are a success and as failed those that are
/// a failure, there is no other outcome, and the two counters together never
/// exceed the number of repositories nor the total of the tracker.
pub proof fn lemma_counters_match_outcomes(batch: SyncBatch)
    requires
        batch.wf(),
    ensures
        batch.completed() == successes(batch.outcomes()),
        batch.failed() == failures(batch.outcomes()),
        batch.completed() + batch.failed() == batch.outcomes().len(),
        batch.outcomes().len() == tally(batch.phases(), Tally::Done),
        batch.outcomes().len() <= batch.descriptors().len() <= batch.total(),
        forall|k: int|
            0 <= k < batch.outcomes().len() ==> !((#[trigger] batch.outcomes()[k]).1 is Skipped),
{
    lemma_tally_bound(batch.phases(), Tally::Done);
    assert forall|k: int| 0 <= k < batch.outcomes().len() implies !((
    #[trigger] batch.outcomes()[k]).1 is Skipped) by {
        let i = batch.order@[k];
    }
}

/// Each outcome belongs to one repository of the batch: it bears the full
/// name of that repository and is what its worker has reached. No
/// repository has two outcomes, and every worker that has reached an outcome
/// has it listed.
pub proof fn lemma_outcomes_belong_to_repositories(batch: SyncBatch)
    requires
        batch.wf(),
    ensures
        batch.completion_order().len() == batch.outcomes().len(),
        forall|k: int|
            0 <= k < batch.outcomes().len() ==> {
                let i = #[trigger] batch.completion_order()[k];
                &&& 0 <= i < batch.descriptors().len()
                &&& batch.outcomes()[k].0 == batch.descriptors()[i].full_name@
                &&& batch.phases()[i] == Phase::Done(batch.outcomes()[k].1)
            },
        forall|j: int, k: int|
            0 <= j < k < batch.outcomes().len() ==> batch.completion_order()[j]
                != batch.completion_order()[k],
        forall|i: int|
            0 <= i < batch.phases().len() && #[trigger] batch.phases()[i] is Done ==> listed(
                batch.completion_order(),
                i,
            ),
{
    assert forall|k: int| 0 <= k < batch.outcomes().len() implies {
        let i = #[trigger] batch.completion_order()[k];
        &&& 0 <= i < batch.descriptors().len()
        &&& batch.outcomes()[k].0 == batch.descriptors()[i].full_name@
        &&& batch.phases()[i] == Phase::Done(batch.outcomes()[k].1)
    } by {
        let i = batch.order@[k];
    }
    assert forall|i: int|
        0 <= i < batch.phases().len() && #[trigger] batch.phases()[i] is Done implies listed(
        batch.completion_order(),
        i,
    ) by {
        assert(batch.workers@[i].phase() is Done);
    }
}

/// A transfer is in flight only for a repository whose worker is cloning.
pub proof fn lemma_transfers_belong_to_clones(batch: SyncBatch, name: Seq<char>)
    requires
        batch.wf(),
        batch.in_flight().contains_key(name),
    ensures
        exists|i: int|
            0 <= i < batch.descriptors().len() && #[trigger] batch.phases()[i] is Cloning
                && batch.descriptors()[i].name@ == name,
{
    assert(cloning_named(batch.workers@, batch.repositories@, name));
    let i = choose|i: int|
        0 <= i < batch.workers@.len() && 0 <= i < batch.repositories@.len() && (
        #[trigger] batch.workers@[i]).phase() is Cloning && batch.repositories@[i].name@ == name;
    assert(batch.phases()[i] is Cloning);
}

/// Where every phase is of a kind, the count of the kind is the number of
/// phases.
pub proof fn lemma_tally_all(phases: Seq<Phase>, kind: Tally)
    requires
        forall|i: int| 0 <= i < phases.len() ==> tallied(#[trigger] phases[i], kind),
    ensures
        tally(phases, kind) == phases.len(),
    decreases phases.len(),
{
    if phases.len() > 0 {
        assert(tallied(phases[phases.len() - 1], kind));
        assert forall|i: int| 0 <= i < phases.drop_last().len() implies tallied(
            #[trigger] phases.drop_last()[i],
            kind,
        ) by {
            assert(phases.drop_last()[i] == phases[i]);
        }
        lemma_tally_all(phases.drop_last(), kind);
    }
}

/// Where every phase is done or lost, the done and the lost together are as
/// many as there are phases.
pub proof fn lemma_tally_ended(phases: Seq<Phase>)
    requires
        forall|i: int| 0 <= i < phases.len() ==> #[trigger] phases[i] is Done || phases[i] is Lost,
    ensures
        tally(phases, Tally::Done) + tally(phases, Tally::Lost) == phases.len(),
    decreases phases.len(),
{
    if phases.len() > 0 {
        let last = phases[phases.len() - 1];
        assert(last is Done || last is Lost);
        assert forall|i: int| 0 <= i < phases.drop_last().len() implies #[trigger] phases.drop_last()[i]
            is Done || phases.drop_last()[i] is Lost by {
            assert(phases.drop_last()[i] == phases[i]);
        }
        lemma_tally_ended(phases.drop_last());
    }
}

/// In a finished batch every worker has reached its outcome or was lost, so
/// the outcomes and the lost tasks together are as many as the repositories.
pub proof fn lemma_all_ended(batch: SyncBatch)
    requires
        batch.wf(),
        batch.finished(),
    ensures
        forall|i: int|
            0 <= i < batch.phases().len() ==> #[trigger] batch.phases()[i] is Done
                || batch.phases()[i] is Lost,
        batch.outcomes().len() + tally(batch.phases(), Tally::Lost) == batch.descriptors().len(),
{
    let phases = batch.phases();
    lemma_phases_follow_history(batch);
    lemma_tally_none(phases, Tally::Running);
    assert forall|i: int| 0 <= i < phases.len() implies #[trigger] phases[i] is Done || phases[i]
        is Lost by {
        assert(!tallied(phases[i], Tally::Running));
        assert(!(phases[i] is Unprocessed));
    }
    lemma_tally_ended(phases);
    lemma_counters_match_outcomes(batch);
}

/// Once a batch is finished and no task was lost, there are as many
/// outcomes as repositories, and each repository has exactly one: the
/// places that the outcomes belong to are all different and every place of
/// the batch is among them.
pub proof fn lemma_one_outcome_per_repository(batch: SyncBatch)
    requires
        batch.wf(),
        batch.finished(),
        tally(batch.phases(), Tally::Lost) == 0,
    ensures
        batch.outcomes().len() == batch.descriptors().len(),
        batch.completion_order().len() == batch.descriptors().len(),
        forall|k: int|
            0 <= k < batch.outcomes().len() ==> {
                let i = #[trigger] batch.completion_order()[k];
                &&& 0 <= i < batch.descriptors().len()
                &&& batch.outcomes()[k].0 == batch.descriptors()[i].full_name@
            },
        forall|j: int, k: int|
            0 <= j < k < batch.outcomes().len() ==> batch.completion_order()[j]
                != batch.completion_order()[k],
        forall|i: int|
            0 <= i < batch.descriptors().len() ==> #[trigger] listed(batch.completion_order(), i),
{
    let phases = batch.phases();
    lemma_phases_follow_history(batch);
    lemma_tally_none(phases, Tally::Running);
    lemma_tally_none(phases, Tally::Lost);
    assert forall|i: int| 0 <= i < phases.len() implies tallied(#[trigger] phases[i], Tally::Done) by {
        assert(!tallied(phases[i], Tally::Running));
        assert(!tallied(phases[i], Tally::Lost));
        assert(!(phases[i] is Unprocessed));
    }
    lemma_tally_all(phases, Tally::Done);
    lemma_counters_match_outcomes(batch);
    lemma_outcomes_belong_to_repositories(batch);
    assert forall|i: int| 0 <= i < batch.descriptors().len() implies #[trigger] listed(
        batch.completion_order(),
        i,
    ) by {
        assert(tallied(phases[i], Tally::Done));
    }
}

/// Once a batch is finished and no task was lost, the full name of a
/// repository stands with exactly one outcome, as long as no other
/// repository of the batch bears the same full name.
pub proof fn lemma_name_reported_once(batch: SyncBatch, at: int)
    requires
        batch.wf(),
        batch.finished(),
        tally(batch.phases(), Tally::Lost) == 0,
        0 <= at < batch.descriptors().len(),
        forall|i: int|
            0 <= i < batch.descriptors().len() && i != at ==> (
            #[trigger] batch.descriptors()[i]).full_name@ != batch.descriptors()[at].full_name@,
    ensures
        exists|k: int|
            0 <= k < batch.outcomes().len() && (#[trigger] batch.outcomes()[k]).0
                == batch.descriptors()[at].full_name@,
        forall|j: int, k: int|
            0 <= j < batch.outcomes().len() && 0 <= k < batch.outcomes().len() && (
            #[trigger] batch.outcomes()[j]).0 == batch.descriptors()[at].full_name@ && (
            #[trigger] batch.outcomes()[k]).0 == batch.descriptors()[at].full_name@ ==> j == k,
{
    lemma_one_outcome_per_repository(batch);
    let name = batch.descriptors()[at].full_name@;
    assert(listed(batch.completion_order(), at));
    let order = batch.completion_order();
    let k = choose|k: int| 0 <= k < order.len() && #[trigger] order[k] == at;
    assert(batch.outcomes()[k].0 == name);
    assert forall|j: int, k: int|
        0 <= j < batch.outcomes().len() && 0 <= k < batch.outcomes().len() && (
        #[trigger] batch.outcomes()[j]).0 == name && (#[trigger] batch.outcomes()[k]).0
            == name implies j == k by {
        let a = batch.completion_order()[j];
        let b = batch.completion_order()[k];
        assert(batch.descriptors()[a].full_name@ == name);
        assert(batch.descriptors()[b].full_name@ == name);
        assert(a == at && b == at);
    }
}

/// A failure stays with the repository that it belongs to. Once a batch is
/// finished and no task was lost, there is an outcome for every repository,
/// and the outcome of every repository other than `failing` whose transport
/// reported no failure is a success.
pub proof fn lemma_failure_isolation(batch: SyncBatch, failing: int)
    requires
        batch.wf(),
        batch.finished(),
        tally(batch.phases(), Tally::Lost) == 0,
        forall|i: int|
            0 <= i < batch.descriptors().len() && i != failing ==> !transport_failed(
                batch.history(),
                i,
            ),
    ensures
        batch.outcomes().len() == batch.descriptors().len(),
        forall|k: int|
            0 <= k < batch.outcomes().len() && #[trigger] batch.completion_order()[k] != failing
                ==> batch.outcomes()[k].1 is Success,
{
    lemma_one_outcome_per_repository(batch);
    lemma_outcomes_belong_to_repositories(batch);
    lemma_phases_follow_history(batch);
    assert forall|k: int|
        0 <= k < batch.outcomes().len() && #[trigger] batch.completion_order()[k]
            != failing implies batch.outcomes()[k].1 is Success by {
        let i = batch.completion_order()[k];
        lemma_success_without_failure(
            batch.descriptors().len(),
            batch.history(),
            batch.shallow(),
            i,
        );
    }
}

} // verus!
