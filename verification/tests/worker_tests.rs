use gh_export::download::DownloadResult;
use gh_export::error::GhExportError;
use gh_export::worker::{
    classify_merge, credential_username, fast_forward_message, fetch_head, fetch_refspec,
    preferred_branch, remote_name, task_failure, MergeRelation, Worker, WorkerAction, WorkerEvent,
    WorkerState, BRANCH_CANDIDATES,
};

fn started(shallow: bool) -> Worker {
    let mut worker = Worker::new(shallow);
    assert_eq!(worker.step(WorkerEvent::Started), WorkerAction::CheckPath);
    worker
}

fn analysed(fast_forward: bool, up_to_date: bool) -> (Worker, WorkerAction) {
    let mut worker = started(false);
    assert_eq!(worker.step(WorkerEvent::PathChecked { exists: true }), WorkerAction::Fetch);
    assert_eq!(worker.step(WorkerEvent::Fetched), WorkerAction::Analyze);
    let action = worker.step(WorkerEvent::Analyzed { fast_forward, up_to_date });
    (worker, action)
}

#[test]
fn new_worker_is_unprocessed_and_holds_no_permit() {
    let worker = Worker::new(false);
    assert_eq!(worker.state(), &WorkerState::Unprocessed);
    assert!(!worker.is_running());
    assert_eq!(worker.outcome(), None);
}

#[test]
fn absent_path_is_cloned_in_full() {
    let mut worker = started(false);
    assert_eq!(worker.state(), &WorkerState::Deciding);
    assert_eq!(
        worker.step(WorkerEvent::PathChecked { exists: false }),
        WorkerAction::Clone { depth: None }
    );
    assert_eq!(worker.state(), &WorkerState::Cloning);
    assert_eq!(worker.step(WorkerEvent::Cloned), WorkerAction::Stop);
    assert_eq!(worker.outcome(), Some(&DownloadResult::Success));
    assert!(!worker.is_running());
}

#[test]
fn shallow_clone_has_depth_one() {
    let mut worker = started(true);
    assert_eq!(
        worker.step(WorkerEvent::PathChecked { exists: false }),
        WorkerAction::Clone { depth: Some(1) }
    );
}

#[test]
fn second_run_updates_and_leaves_an_unchanged_repository_alone() {
    // first run: the path is not there, the repository is cloned
    let mut first = started(false);
    first.step(WorkerEvent::PathChecked { exists: false });
    first.step(WorkerEvent::Cloned);
    assert_eq!(first.outcome(), Some(&DownloadResult::Success));
    // second run: the path is there now, and the remote has nothing new
    let mut second = started(false);
    let decided = second.step(WorkerEvent::PathChecked { exists: true });
    assert_eq!(decided, WorkerAction::Fetch);
    assert_eq!(second.state(), &WorkerState::Fetching);
    assert_eq!(second.step(WorkerEvent::Fetched), WorkerAction::Analyze);
    let after = second.step(WorkerEvent::Analyzed { fast_forward: false, up_to_date: true });
    assert_eq!(after, WorkerAction::Stop);
    assert_eq!(second.outcome(), Some(&DownloadResult::Success));
}

#[test]
fn fast_forward_advances_main_when_master_is_absent() {
    let (mut worker, action) = analysed(true, false);
    assert_eq!(action, WorkerAction::FastForward { candidate: 0 });
    assert_eq!(preferred_branch(0), Some("refs/heads/master"));
    assert_eq!(worker.step(WorkerEvent::BranchMissing), WorkerAction::FastForward { candidate: 1 });
    assert_eq!(preferred_branch(1), Some("refs/heads/main"));
    assert_eq!(worker.state(), &WorkerState::FastForwarding { candidate: 1 });
    assert_eq!(worker.step(WorkerEvent::BranchAdvanced), WorkerAction::Checkout { candidate: 1 });
    assert_eq!(worker.state(), &WorkerState::Checkout { candidate: 1 });
    assert_eq!(worker.step(WorkerEvent::CheckedOut), WorkerAction::Stop);
    assert_eq!(worker.outcome(), Some(&DownloadResult::Success));
}

#[test]
fn fast_forward_prefers_master() {
    let (mut worker, action) = analysed(true, false);
    assert_eq!(action, WorkerAction::FastForward { candidate: 0 });
    assert_eq!(worker.step(WorkerEvent::BranchAdvanced), WorkerAction::Checkout { candidate: 0 });
    assert_eq!(worker.step(WorkerEvent::CheckedOut), WorkerAction::Stop);
    assert_eq!(worker.outcome(), Some(&DownloadResult::Success));
}

#[test]
fn fast_forward_without_either_branch_is_a_success() {
    let (mut worker, _) = analysed(true, false);
    worker.step(WorkerEvent::BranchMissing);
    assert_eq!(worker.step(WorkerEvent::BranchMissing), WorkerAction::Stop);
    assert_eq!(worker.outcome(), Some(&DownloadResult::Success));
}

#[test]
fn diverged_histories_are_left_alone_and_count_as_success() {
    let (worker, action) = analysed(false, false);
    assert_eq!(action, WorkerAction::Stop);
    assert_eq!(worker.outcome(), Some(&DownloadResult::Success));
    assert_eq!(classify_merge(false, false), MergeRelation::Diverged);
}

#[test]
fn merge_analysis_is_classified() {
    assert_eq!(classify_merge(true, false), MergeRelation::FastForward);
    assert_eq!(classify_merge(true, true), MergeRelation::FastForward);
    assert_eq!(classify_merge(false, true), MergeRelation::UpToDate);
    assert_eq!(classify_merge(false, false), MergeRelation::Diverged);
}

#[test]
fn failed_clone_names_the_step_and_the_error() {
    let mut worker = started(false);
    worker.step(WorkerEvent::PathChecked { exists: false });
    let error = GhExportError::Git("remote hung up".to_string());
    assert_eq!(worker.step(WorkerEvent::Failed(error)), WorkerAction::Stop);
    assert_eq!(
        worker.outcome(),
        Some(&DownloadResult::Failed("Clone failed: Git error: remote hung up".to_string()))
    );
}

#[test]
fn failed_clone_task_is_reported_as_download_error() {
    let mut worker = started(false);
    worker.step(WorkerEvent::PathChecked { exists: false });
    let error = GhExportError::Download("Clone task failed: cancelled".to_string());
    worker.step(WorkerEvent::Failed(error));
    assert_eq!(
        worker.outcome(),
        Some(&DownloadResult::Failed(
            "Clone failed: Repository download failed: Clone task failed: cancelled".to_string()
        ))
    );
}

#[test]
fn failure_in_any_update_step_is_an_update_failure() {
    let expected =
        Some(DownloadResult::Failed("Update failed: IO error: denied".to_string()));
    // while fetching
    let mut worker = started(false);
    worker.step(WorkerEvent::PathChecked { exists: true });
    worker.step(WorkerEvent::Failed(GhExportError::Io("denied".to_string())));
    assert_eq!(worker.outcome().cloned(), expected);
    // while analysing
    let mut worker = started(false);
    worker.step(WorkerEvent::PathChecked { exists: true });
    worker.step(WorkerEvent::Fetched);
    worker.step(WorkerEvent::Failed(GhExportError::Io("denied".to_string())));
    assert_eq!(worker.outcome().cloned(), expected);
    // while moving the branch
    let (mut worker, _) = analysed(true, false);
    worker.step(WorkerEvent::Failed(GhExportError::Io("denied".to_string())));
    assert_eq!(worker.outcome().cloned(), expected);
    // while checking out
    let (mut worker, _) = analysed(true, false);
    worker.step(WorkerEvent::BranchAdvanced);
    worker.step(WorkerEvent::Failed(GhExportError::Io("denied".to_string())));
    assert_eq!(worker.outcome().cloned(), expected);
}

#[test]
fn events_out_of_turn_are_ignored() {
    let mut worker = Worker::new(false);
    assert_eq!(worker.step(WorkerEvent::Cloned), WorkerAction::Ignore);
    assert_eq!(worker.step(WorkerEvent::PathChecked { exists: true }), WorkerAction::Ignore);
    assert_eq!(
        worker.step(WorkerEvent::Failed(GhExportError::Git("x".to_string()))),
        WorkerAction::Ignore
    );
    assert_eq!(worker.step(WorkerEvent::TaskLost), WorkerAction::Ignore);
    assert_eq!(worker.state(), &WorkerState::Unprocessed);
    let mut worker = started(false);
    assert_eq!(worker.step(WorkerEvent::Started), WorkerAction::Ignore);
    assert_eq!(worker.step(WorkerEvent::Fetched), WorkerAction::Ignore);
    assert_eq!(
        worker.step(WorkerEvent::Failed(GhExportError::Git("x".to_string()))),
        WorkerAction::Ignore
    );
    assert_eq!(worker.state(), &WorkerState::Deciding);
}

#[test]
fn outcome_is_final() {
    let mut worker = started(false);
    worker.step(WorkerEvent::PathChecked { exists: false });
    worker.step(WorkerEvent::Cloned);
    assert_eq!(
        worker.step(WorkerEvent::Failed(GhExportError::Git("late".to_string()))),
        WorkerAction::Ignore
    );
    assert_eq!(worker.step(WorkerEvent::TaskLost), WorkerAction::Ignore);
    assert_eq!(worker.step(WorkerEvent::Started), WorkerAction::Ignore);
    assert_eq!(worker.outcome(), Some(&DownloadResult::Success));
}

#[test]
fn lost_task_ends_a_running_worker_without_outcome() {
    let mut worker = started(false);
    worker.step(WorkerEvent::PathChecked { exists: true });
    assert!(worker.is_running());
    assert_eq!(worker.step(WorkerEvent::TaskLost), WorkerAction::Stop);
    assert_eq!(worker.state(), &WorkerState::Lost);
    assert!(!worker.is_running());
    assert_eq!(worker.outcome(), None);
    assert_eq!(worker.step(WorkerEvent::Fetched), WorkerAction::Ignore);
}

#[test]
fn task_that_ended_early_is_a_download_error() {
    assert_eq!(
        task_failure(true, "task 7 panicked"),
        GhExportError::Download("Clone task failed: task 7 panicked".to_string())
    );
    assert_eq!(
        task_failure(false, "cancelled"),
        GhExportError::Download("Update task failed: cancelled".to_string())
    );
}

#[test]
fn transport_names() {
    assert_eq!(fast_forward_message(), "Fast-forward");
    assert_eq!(remote_name(), "origin");
    assert_eq!(fetch_refspec(), "refs/heads/*:refs/remotes/origin/*");
    assert_eq!(fetch_head(), "FETCH_HEAD");
    assert_eq!(BRANCH_CANDIDATES, 2);
    assert_eq!(preferred_branch(2), None);
    assert_eq!(credential_username(None), "git");
    assert_eq!(credential_username(Some("alice")), "alice");
}
