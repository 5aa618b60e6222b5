use cosmic_gfwd::events::{ConfigurationRefreshCoordinator, RefreshRequest};
use cosmic_gfwd::reconciliation::{
    ComparisonCompleteness, ZoneReconciliation, ZoneSettingDifference, ZoneSettingsSnapshot,
};

#[test]
fn burst_during_refresh_yields_one_follow_up() {
    let mut coordinator = ConfigurationRefreshCoordinator::default();
    assert_eq!(coordinator.request_refresh(false), RefreshRequest::Start);
    for _ in 0..5 {
        assert_eq!(coordinator.request_refresh(false), RefreshRequest::Coalesced);
    }
    assert!(coordinator.finish_refresh());
    assert!(!coordinator.finish_refresh());
    assert!(!coordinator.is_refreshing());
}

#[test]
fn selection_change_rejects_the_previous_identity() {
    let mut coordinator = ConfigurationRefreshCoordinator::default();
    let before = coordinator.generation();
    let after = coordinator.selection_changed();
    assert!(!coordinator.accepts(before));
    assert!(coordinator.accepts(after));
}

#[test]
fn comparing_a_snapshot_with_itself_is_in_sync() {
    let snapshot = ZoneSettingsSnapshot {
        services: vec!["ssh".into()],
        masquerade: true,
        ..ZoneSettingsSnapshot::default()
    };
    let reconciliation = ZoneReconciliation::compare(&snapshot, &snapshot);
    assert!(reconciliation.differences.is_empty());
    assert_eq!(reconciliation.completeness, ComparisonCompleteness::Complete);
    assert!(reconciliation.is_in_sync());
}

#[test]
fn comparing_the_other_way_swaps_each_difference() {
    let permanent = ZoneSettingsSnapshot {
        services: vec!["ssh".into()],
        masquerade: true,
        ..ZoneSettingsSnapshot::default()
    };
    let runtime = ZoneSettingsSnapshot {
        services: vec!["https".into()],
        ..ZoneSettingsSnapshot::default()
    };
    let forward = ZoneReconciliation::compare(&permanent, &runtime);
    let backward = ZoneReconciliation::compare(&runtime, &permanent);
    assert_eq!(forward.differences.len(), backward.differences.len());
    for (a, b) in forward.differences.iter().zip(backward.differences.iter()) {
        match (a, b) {
            (
                ZoneSettingDifference::Scalar { setting: s1, permanent: p1, runtime: r1 },
                ZoneSettingDifference::Scalar { setting: s2, permanent: p2, runtime: r2 },
            ) => {
                assert_eq!(s1, s2);
                assert_eq!(p1, r2);
                assert_eq!(r1, p2);
            }
            (
                ZoneSettingDifference::Collection { setting: s1, permanent_only: p1, runtime_only: r1 },
                ZoneSettingDifference::Collection { setting: s2, permanent_only: p2, runtime_only: r2 },
            ) => {
                assert_eq!(s1, s2);
                assert_eq!(p1, r2);
                assert_eq!(r1, p2);
            }
            _ => panic!("difference kinds must match"),
        }
    }
}

#[test]
fn reordering_collections_changes_no_difference() {
    let runtime = ZoneSettingsSnapshot {
        services: vec!["dns".into()],
        ..ZoneSettingsSnapshot::default()
    };
    let ordered = ZoneSettingsSnapshot {
        services: vec!["ssh".into(), "https".into()],
        ..ZoneSettingsSnapshot::default()
    };
    let reordered = ZoneSettingsSnapshot {
        services: vec!["https".into(), "ssh".into(), "https".into()],
        ..ZoneSettingsSnapshot::default()
    };
    assert_eq!(
        ZoneReconciliation::compare(&ordered, &runtime),
        ZoneReconciliation::compare(&reordered, &runtime)
    );
}
