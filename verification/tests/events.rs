use cosmic_gfwd::events::{ConfigurationRefreshCoordinator, RefreshRequest};

#[test]
fn selection_changes_reject_stale_responses() {
    let mut coordinator = ConfigurationRefreshCoordinator::default();
    let first = coordinator.selection_changed();
    let second = coordinator.selection_changed();

    assert!(!coordinator.accepts(first));
    assert!(coordinator.accepts(second));
}

#[test]
fn pending_actions_defer_refresh_until_unblocked() {
    let mut coordinator = ConfigurationRefreshCoordinator::default();

    assert_eq!(coordinator.request_refresh(true), RefreshRequest::Coalesced);
    assert!(coordinator.has_pending());
    assert!(coordinator.finish_refresh());
    assert!(coordinator.is_refreshing());
}

#[test]
fn signal_bursts_coalesce_to_one_follow_up() {
    let mut coordinator = ConfigurationRefreshCoordinator::default();

    assert_eq!(coordinator.request_refresh(false), RefreshRequest::Start);
    assert_eq!(
        coordinator.request_refresh(false),
        RefreshRequest::Coalesced
    );
    assert_eq!(
        coordinator.request_refresh(false),
        RefreshRequest::Coalesced
    );
    assert!(coordinator.finish_refresh());
    assert!(!coordinator.finish_refresh());
}

#[test]
fn successful_refresh_returns_to_idle() {
    let mut coordinator = ConfigurationRefreshCoordinator::default();
    assert_eq!(coordinator.request_refresh(false), RefreshRequest::Start);

    assert!(!coordinator.finish_refresh());
    assert!(!coordinator.is_refreshing());
    assert!(!coordinator.has_pending());
}

#[test]
fn events_failed_refresh_can_recover_with_queued_work() {
    let mut coordinator = ConfigurationRefreshCoordinator::default();
    assert_eq!(coordinator.request_refresh(false), RefreshRequest::Start);
    assert_eq!(
        coordinator.request_refresh(false),
        RefreshRequest::Coalesced
    );

    assert!(coordinator.finish_refresh());
    assert!(!coordinator.finish_refresh());
    assert!(!coordinator.is_refreshing());
}

#[test]
fn watcher_warning_clears_after_recovery() {
    let mut coordinator = ConfigurationRefreshCoordinator::default();
    coordinator.watcher_failed("permission denied".into());
    assert_eq!(coordinator.watch_warning(), Some("permission denied"));

    coordinator.watcher_recovered();
    assert_eq!(coordinator.watch_warning(), None);
}

#[test]
fn generation_starts_at_zero_and_advances_by_one() {
    let mut coordinator = ConfigurationRefreshCoordinator::default();
    assert_eq!(coordinator.generation(), 0);
    assert_eq!(coordinator.selection_changed(), 1);
    assert_eq!(coordinator.generation(), 1);
    assert!(coordinator.accepts(1));
    assert!(!coordinator.accepts(0));
}
