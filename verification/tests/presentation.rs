use cosmic_gfwd::presentation::{ReconciliationPresentation, ReconciliationPresentationStatus};
use cosmic_gfwd::reconciliation::{
    CollectionValue, ComparisonCompleteness, ScalarValue, ZoneReconciliation,
    ZoneReconciliationData, ZoneReconciliationState, ZoneSetting, ZoneSettingDifference,
    ZoneSettingsSnapshot,
};

fn data(
    differences: Vec<ZoneSettingDifference>,
    completeness: ComparisonCompleteness,
) -> ZoneReconciliationData {
    ZoneReconciliationData {
        permanent: ZoneSettingsSnapshot::default(),
        runtime: ZoneSettingsSnapshot::default(),
        reconciliation: ZoneReconciliation {
            differences,
            completeness,
        },
    }
}

fn scalar_difference() -> ZoneSettingDifference {
    ZoneSettingDifference::Scalar {
        setting: ZoneSetting::Target,
        permanent: ScalarValue::Text("DROP".into()),
        runtime: ScalarValue::Text("ACCEPT".into()),
    }
}

fn collection_difference(
    permanent_only: Vec<CollectionValue>,
    runtime_only: Vec<CollectionValue>,
) -> ZoneSettingDifference {
    ZoneSettingDifference::Collection {
        setting: ZoneSetting::Services,
        permanent_only,
        runtime_only,
    }
}

#[test]
fn loading_disables_every_action() {
    let state = ZoneReconciliationState::Loading {
        zone: "public".into(),
    };

    let presentation = ReconciliationPresentation::from_state(&state, false);

    assert_eq!(
        presentation.status,
        ReconciliationPresentationStatus::Loading
    );
    assert_eq!(presentation.differences.scalar.len(), 0);
    assert!(!presentation.actions.can_review);
    assert!(!presentation.actions.can_refresh);
    assert!(!presentation.actions.can_apply_permanent);
    assert!(!presentation.actions.can_save_runtime);
}

#[test]
fn in_sync_is_refreshable_without_destructive_actions() {
    let state = ZoneReconciliationState::from_data(
        "public".into(),
        data(Vec::new(), ComparisonCompleteness::Complete),
    );

    let presentation = ReconciliationPresentation::from_state(&state, false);

    assert_eq!(
        presentation.status,
        ReconciliationPresentationStatus::InSync
    );
    assert!(presentation.actions.can_refresh);
    assert!(!presentation.actions.can_review);
    assert!(!presentation.actions.can_apply_permanent);
    assert!(!presentation.actions.can_save_runtime);
}

#[test]
fn known_differences_are_reviewable_and_applicable() {
    let state = ZoneReconciliationState::from_data(
        "public".into(),
        data(vec![scalar_difference()], ComparisonCompleteness::Complete),
    );

    let presentation = ReconciliationPresentation::from_state(&state, false);

    assert_eq!(
        presentation.status,
        ReconciliationPresentationStatus::Different { count: 1 }
    );
    assert!(presentation.actions.can_review);
    assert!(presentation.actions.can_apply_permanent);
    assert!(presentation.actions.can_save_runtime);
}

#[test]
fn incomplete_comparison_exposes_known_and_unknown_settings() {
    let state = ZoneReconciliationState::from_data(
        "public".into(),
        data(
            vec![scalar_difference()],
            ComparisonCompleteness::Incomplete {
                permanent_unknown: vec!["future-permanent".into()],
                runtime_unknown: vec!["future-runtime".into()],
            },
        ),
    );

    let presentation = ReconciliationPresentation::from_state(&state, false);

    assert_eq!(
        presentation.status,
        ReconciliationPresentationStatus::Incomplete {
            known_difference_count: 1,
        }
    );
    assert_eq!(
        presentation.unknown_settings.permanent,
        ["future-permanent"]
    );
    assert_eq!(presentation.unknown_settings.runtime, ["future-runtime"]);
    assert!(presentation.actions.can_review);
}

#[test]
fn incomplete_comparison_without_known_differences_is_never_in_sync() {
    let state = ZoneReconciliationState::from_data(
        "public".into(),
        data(
            Vec::new(),
            ComparisonCompleteness::Incomplete {
                permanent_unknown: vec!["future-setting".into()],
                runtime_unknown: Vec::new(),
            },
        ),
    );

    let presentation = ReconciliationPresentation::from_state(&state, false);

    assert_eq!(
        presentation.status,
        ReconciliationPresentationStatus::Incomplete {
            known_difference_count: 0,
        }
    );
    assert_ne!(
        presentation.status,
        ReconciliationPresentationStatus::InSync
    );
    assert!(presentation.actions.can_review);
    assert!(!presentation.actions.can_apply_permanent);
    assert!(!presentation.actions.can_save_runtime);
}

#[test]
fn unavailable_runtime_remains_refreshable() {
    let state = ZoneReconciliationState::Unavailable {
        zone: Some("public".into()),
    };

    let presentation = ReconciliationPresentation::from_state(&state, false);

    assert_eq!(
        presentation.status,
        ReconciliationPresentationStatus::Unavailable
    );
    assert!(presentation.actions.can_refresh);
    assert!(!presentation.actions.can_review);
}

#[test]
fn load_error_remains_refreshable() {
    let state = ZoneReconciliationState::Error {
        zone: "public".into(),
        message: "failed".into(),
    };

    let presentation = ReconciliationPresentation::from_state(&state, false);

    assert_eq!(presentation.status, ReconciliationPresentationStatus::Error);
    assert!(presentation.actions.can_refresh);
    assert!(!presentation.actions.can_review);
}

#[test]
fn differences_are_grouped_without_cloning_snapshots() {
    let state = ZoneReconciliationState::from_data(
        "public".into(),
        data(
            vec![
                scalar_difference(),
                collection_difference(vec![CollectionValue::Text("ssh".into())], Vec::new()),
            ],
            ComparisonCompleteness::Complete,
        ),
    );

    let presentation = ReconciliationPresentation::from_state(&state, false);

    assert_eq!(presentation.differences.scalar.len(), 1);
    assert_eq!(presentation.differences.collection.len(), 1);
}

#[test]
fn save_runtime_requires_a_runtime_only_difference() {
    let permanent_only = ZoneReconciliationState::from_data(
        "public".into(),
        data(
            vec![collection_difference(
                vec![CollectionValue::Text("ssh".into())],
                Vec::new(),
            )],
            ComparisonCompleteness::Complete,
        ),
    );
    let runtime_only = ZoneReconciliationState::from_data(
        "public".into(),
        data(
            vec![collection_difference(
                Vec::new(),
                vec![CollectionValue::Text("https".into())],
            )],
            ComparisonCompleteness::Complete,
        ),
    );

    assert!(
        !ReconciliationPresentation::from_state(&permanent_only, false)
            .actions
            .can_save_runtime
    );
    assert!(
        ReconciliationPresentation::from_state(&runtime_only, false)
            .actions
            .can_save_runtime
    );
}

#[test]
fn pending_mutation_disables_all_actions() {
    let state = ZoneReconciliationState::from_data(
        "public".into(),
        data(vec![scalar_difference()], ComparisonCompleteness::Complete),
    );

    let actions = ReconciliationPresentation::from_state(&state, true).actions;

    assert!(!actions.can_review);
    assert!(!actions.can_refresh);
    assert!(!actions.can_apply_permanent);
    assert!(!actions.can_save_runtime);
}

#[test]
fn grouping_keeps_the_comparison_order_within_each_group() {
    let state = ZoneReconciliationState::from_data(
        "public".into(),
        data(
            vec![
                collection_difference(vec![CollectionValue::Text("ssh".into())], Vec::new()),
                scalar_difference(),
                ZoneSettingDifference::Scalar {
                    setting: ZoneSetting::Masquerade,
                    permanent: ScalarValue::Boolean(true),
                    runtime: ScalarValue::Boolean(false),
                },
            ],
            ComparisonCompleteness::Complete,
        ),
    );

    let presentation = ReconciliationPresentation::from_state(&state, false);

    assert_eq!(presentation.differences.scalar.len(), 2);
    assert!(matches!(
        presentation.differences.scalar[0],
        ZoneSettingDifference::Scalar {
            setting: ZoneSetting::Target,
            ..
        }
    ));
    assert!(matches!(
        presentation.differences.scalar[1],
        ZoneSettingDifference::Scalar {
            setting: ZoneSetting::Masquerade,
            ..
        }
    ));
    assert_eq!(
        presentation.status,
        ReconciliationPresentationStatus::Different { count: 3 }
    );
}
