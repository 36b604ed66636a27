use gh_export::progress::{ProgressTracker, TransferProgress};

#[test]
fn new_tracker_counts_nothing() {
    let tracker = ProgressTracker::new(3);
    assert_eq!(tracker.get_stats(), (3, 0, 0));
    assert!(tracker.is_fresh());
    assert!(!tracker.is_complete());
    assert_eq!(tracker.main_message(), "Starting export...");
}

#[test]
fn transfer_is_in_flight_until_it_has_all_units() {
    let mut tracker = ProgressTracker::new(1);
    tracker.update_repo_progress("alpha", 10, 100);
    assert!(!tracker.is_fresh());
    assert_eq!(tracker.repo_progress("alpha"), Some(TransferProgress { current: 10, total: 100 }));
    // the total stays as it was first reported
    tracker.update_repo_progress("alpha", 50, 200);
    assert_eq!(tracker.repo_progress("alpha"), Some(TransferProgress { current: 50, total: 100 }));
    tracker.update_repo_progress("alpha", 200, 200);
    assert_eq!(tracker.repo_progress("alpha"), None);
    assert!(tracker.is_fresh());
}

#[test]
fn transfers_are_kept_apart_by_name() {
    let mut tracker = ProgressTracker::new(2);
    tracker.update_repo_progress("alpha", 1, 4);
    tracker.update_repo_progress("beta", 2, 8);
    assert_eq!(tracker.repo_progress("alpha"), Some(TransferProgress { current: 1, total: 4 }));
    assert_eq!(tracker.repo_progress("beta"), Some(TransferProgress { current: 2, total: 8 }));
    tracker.clear_repo_progress("alpha");
    assert_eq!(tracker.repo_progress("alpha"), None);
    assert_eq!(tracker.repo_progress("beta"), Some(TransferProgress { current: 2, total: 8 }));
    tracker.clear_repo_progress("gamma");
    assert_eq!(tracker.repo_progress("beta"), Some(TransferProgress { current: 2, total: 8 }));
    assert_eq!(tracker.get_stats(), (2, 0, 0));
}

#[test]
fn finished_transfer_is_never_recorded() {
    let mut tracker = ProgressTracker::new(1);
    tracker.update_repo_progress("alpha", 5, 5);
    assert_eq!(tracker.repo_progress("alpha"), None);
    tracker.update_repo_progress("alpha", 0, 0);
    assert_eq!(tracker.repo_progress("alpha"), None);
}

#[test]
fn counters_go_up_one_at_a_time() {
    let mut tracker = ProgressTracker::new(3);
    tracker.increment_completed();
    assert_eq!(tracker.get_stats(), (3, 1, 0));
    assert_eq!(tracker.main_message(), "Completed: 1");
    tracker.increment_failed();
    assert_eq!(tracker.get_stats(), (3, 1, 1));
    assert_eq!(tracker.main_message(), "Completed: 1, Failed: 1");
    tracker.increment_completed();
    assert_eq!(tracker.get_stats(), (3, 2, 1));
    assert_eq!(tracker.main_message(), "Completed: 2, Failed: 1");
    assert!(!tracker.is_complete());
    assert_eq!(tracker.finish(), "Export finished with 2 successes and 1 failures");
}

#[test]
fn batch_without_failures_completes() {
    let mut tracker = ProgressTracker::new(2);
    tracker.increment_completed();
    assert!(!tracker.is_complete());
    tracker.increment_completed();
    assert!(tracker.is_complete());
    assert_eq!(tracker.main_message(), "Export completed!");
    assert_eq!(tracker.finish(), "Export completed successfully! 2 repositories downloaded");
}

#[test]
fn failures_alone_are_shown_with_the_completed_count() {
    let mut tracker = ProgressTracker::new(2);
    tracker.increment_failed();
    assert_eq!(tracker.main_message(), "Completed: 0, Failed: 1");
    assert_eq!(tracker.finish(), "Export finished with 0 successes and 1 failures");
}
