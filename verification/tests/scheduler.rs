use git_sync_rs::watch::scheduler::SyncScheduler;
use git_sync_rs::SyncError;

const MS: u128 = 1_000_000;

#[test]
fn scheduler_waits_for_quiet_period_before_syncing() {
    let base: u128 = 5_000_000_000;
    let mut scheduler = SyncScheduler::new_at(200, 100, base);
    scheduler.mark_file_event_at(base);

    assert!(!scheduler.should_sync_at(base));
    assert!(!scheduler.should_sync_at(base + 120 * MS));
    assert!(scheduler.should_sync_at(base + 220 * MS));
}

#[test]
fn scheduler_uses_max_batch_latency_to_prevent_starvation() {
    let base: u128 = 5_000_000_000;
    let mut scheduler = SyncScheduler::new_at(500, 100, base);
    scheduler.mark_file_event_at(base);

    for i in 1..40u128 {
        let t = base + 100 * i * MS;
        scheduler.mark_file_event_at(t);
        assert!(
            !scheduler.should_sync_at(t),
            "Scheduler should still wait before max-batch threshold"
        );
    }

    let ready_at = base + 4000 * MS;
    scheduler.mark_file_event_at(ready_at);
    assert!(
        scheduler.should_sync_at(ready_at),
        "Scheduler should fire at max-batch latency under continuous events"
    );
}

#[test]
fn scheduler_applies_retry_backoff_and_resets_on_success() {
    let base: u128 = 5_000_000_000;
    let mut scheduler = SyncScheduler::new_at(0, 0, base);
    scheduler.mark_file_event_at(base);
    assert!(scheduler.should_sync_at(base));

    scheduler.on_sync_failure_at(&SyncError::NetworkError("transient".to_string()), base);
    assert!(!scheduler.should_sync_at(base + 999 * MS));
    assert!(scheduler.should_sync_at(base + 1000 * MS));

    let second = base + 1000 * MS;
    scheduler.on_sync_failure_at(&SyncError::NetworkError("transient".to_string()), second);
    assert!(!scheduler.should_sync_at(second + 1000 * MS));
    assert!(scheduler.should_sync_at(second + 2000 * MS));

    scheduler.on_sync_success_at(second + 2000 * MS);
    let next = second + 2000 * MS;
    scheduler.mark_file_event_at(next);
    assert!(scheduler.should_sync_at(next));
}

#[test]
fn scheduler_uses_longer_retry_for_manual_intervention_errors() {
    let base: u128 = 5_000_000_000;
    let mut scheduler = SyncScheduler::new_at(0, 0, base);
    scheduler.mark_file_event_at(base);
    assert!(scheduler.should_sync_at(base));

    scheduler.on_sync_failure_at(
        &SyncError::ManualInterventionRequired {
            reason: "conflict".to_string(),
        },
        base,
    );
    assert!(!scheduler.should_sync_at(base + 29_000 * MS));
    assert!(scheduler.should_sync_at(base + 30_000 * MS));
}

#[test]
fn request_sync_now_bypasses_debounce_but_respects_min_interval() {
    let base: u128 = 5_000_000_000;
    let mut scheduler = SyncScheduler::new_at(10_000, 500, base);

    scheduler.request_sync_now_at(base + 100 * MS);
    assert!(!scheduler.should_sync_at(base + 499 * MS));
    assert!(scheduler.should_sync_at(base + 500 * MS));
}

#[test]
fn request_sync_now_does_not_bypass_retry_backoff() {
    let base: u128 = 5_000_000_000;
    let mut scheduler = SyncScheduler::new_at(0, 0, base);
    scheduler.mark_file_event_at(base);
    assert!(scheduler.should_sync_at(base));

    scheduler.on_sync_failure_at(&SyncError::NetworkError("transient".to_string()), base);
    scheduler.request_sync_now_at(base + 100 * MS);
    assert!(!scheduler.should_sync_at(base + 999 * MS));
    assert!(scheduler.should_sync_at(base + 1000 * MS));
}
