use zlorbrs::cycle::{build_needed, process_repo, run_cycle, CycleScheduler, RepoObservation};
use zlorbrs::sync::{CommitId, SyncError, SyncOutcome};

fn id(bytes: &[u8]) -> CommitId {
    CommitId { bytes: bytes.to_vec() }
}

#[test]
fn missing_output_triggers_a_build_even_without_ref_movement() {
    assert!(build_needed(false, &id(b"same"), &id(b"same")));
}

#[test]
fn ref_movement_triggers_a_build_when_output_exists() {
    assert!(build_needed(true, &id(b"old"), &id(b"new")));
}

#[test]
fn no_movement_and_existing_output_triggers_no_build() {
    assert!(!build_needed(true, &id(b"same"), &id(b"same")));
}

#[test]
fn an_unopenable_repository_reports_a_recoverable_error() {
    let report = process_repo(RepoObservation::OpenFailed);
    assert!(matches!(
        report.outcome,
        SyncOutcome::Error(SyncError::OpenFailed)
    ));
    assert!(!report.build);
}

#[test]
fn an_unresolved_tip_reports_a_recoverable_error() {
    let report = process_repo(RepoObservation::TipUnresolved);
    assert!(matches!(
        report.outcome,
        SyncOutcome::Error(SyncError::BranchNotResolved)
    ));
    assert!(!report.build);
}

#[test]
fn a_failure_in_the_first_repository_leaves_the_second_fully_processed() {
    let observations = vec![
        RepoObservation::OpenFailed,
        RepoObservation::Synced {
            ref_before: id(b"tip"),
            outcome: SyncOutcome::UpToDate,
            ref_after: id(b"tip"),
            dist_exists: false,
        },
    ];
    let reports = run_cycle(observations);
    assert_eq!(reports.len(), 2);
    assert!(matches!(
        reports[0].outcome,
        SyncOutcome::Error(SyncError::OpenFailed)
    ));
    assert!(!reports[0].build);
    // The second repository still got its full treatment: its outcome
    // is reported and its missing build output triggers a build.
    assert!(matches!(reports[1].outcome, SyncOutcome::UpToDate));
    assert!(reports[1].build);
}

#[test]
fn a_synced_repository_with_a_moved_ref_is_rebuilt() {
    let observations = vec![RepoObservation::Synced {
        ref_before: id(b"old"),
        outcome: SyncOutcome::FastForwarded(id(b"old"), id(b"new")),
        ref_after: id(b"new"),
        dist_exists: true,
    }];
    let reports = run_cycle(observations);
    assert_eq!(reports.len(), 1);
    assert!(matches!(
        reports[0].outcome,
        SyncOutcome::FastForwarded(_, _)
    ));
    assert!(reports[0].build);
}

#[test]
fn an_empty_cycle_produces_no_reports() {
    assert!(run_cycle(Vec::new()).is_empty());
}

#[test]
fn the_first_cycle_starts_immediately_and_later_ones_wait() {
    let mut scheduler = CycleScheduler::new(5);
    assert_eq!(scheduler.next_delay(), 0);
    assert_eq!(scheduler.next_delay(), 5);
    assert_eq!(scheduler.next_delay(), 5);
}

#[test]
fn a_zero_interval_scheduler_never_waits() {
    let mut scheduler = CycleScheduler::new(0);
    assert_eq!(scheduler.next_delay(), 0);
    assert_eq!(scheduler.next_delay(), 0);
}
