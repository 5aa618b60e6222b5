use cosmic_gfwd::reconciliation::{
    CollectionValue, ComparisonCompleteness, ScalarValue, ZoneReconciliation,
    ZoneReconciliationData, ZoneReconciliationState, ZoneSetting, ZoneSettingDifference,
    ZoneSettingsSnapshot,
};

#[test]
fn collection_comparison_is_order_insensitive_and_exact() {
    let permanent = ZoneSettingsSnapshot {
        services: vec!["ssh".into(), "https".into()],
        ports: vec![("443".into(), "tcp".into())],
        rich_rules: vec!["rule accept".into()],
        ..ZoneSettingsSnapshot::default()
    };
    let runtime = ZoneSettingsSnapshot {
        services: vec!["https".into(), "ssh".into()],
        ports: vec![("443".into(), "udp".into())],
        rich_rules: vec!["rule  accept".into()],
        ..ZoneSettingsSnapshot::default()
    };

    let reconciliation = ZoneReconciliation::compare(&permanent, &runtime);

    assert_eq!(reconciliation.differences.len(), 2);
    assert!(
        !reconciliation.differences.iter().any(|difference| matches!(
            difference,
            ZoneSettingDifference::Collection {
                setting: ZoneSetting::Services,
                ..
            }
        ))
    );
    assert!(reconciliation.differences.iter().any(|difference| matches!(
        difference,
        ZoneSettingDifference::Collection {
            setting: ZoneSetting::RichRules,
            permanent_only,
            runtime_only,
        } if permanent_only == &[CollectionValue::Text("rule accept".into())]
            && runtime_only == &[CollectionValue::Text("rule  accept".into())]
    )));
}

#[test]
fn scalar_differences_retain_both_values() {
    let permanent = ZoneSettingsSnapshot {
        target: "DROP".into(),
        masquerade: true,
        ingress_priority: -5,
        ..ZoneSettingsSnapshot::default()
    };
    let runtime = ZoneSettingsSnapshot {
        target: "ACCEPT".into(),
        ingress_priority: 5,
        ..ZoneSettingsSnapshot::default()
    };

    let reconciliation = ZoneReconciliation::compare(&permanent, &runtime);

    assert!(
        reconciliation
            .differences
            .contains(&ZoneSettingDifference::Scalar {
                setting: ZoneSetting::Target,
                permanent: ScalarValue::Text("DROP".into()),
                runtime: ScalarValue::Text("ACCEPT".into()),
            })
    );
    assert!(
        reconciliation
            .differences
            .contains(&ZoneSettingDifference::Scalar {
                setting: ZoneSetting::IngressPriority,
                permanent: ScalarValue::Integer(-5),
                runtime: ScalarValue::Integer(5),
            })
    );
}

#[test]
fn collection_sides_are_sorted_and_deduplicated() {
    let permanent = ZoneSettingsSnapshot {
        interfaces: vec!["wlan0".into(), "eth1".into(), "eth0".into(), "eth1".into()],
        ..ZoneSettingsSnapshot::default()
    };
    let runtime = ZoneSettingsSnapshot {
        interfaces: vec!["eth1".into(), "zz".into(), "a".into()],
        ..ZoneSettingsSnapshot::default()
    };
    let reconciliation = ZoneReconciliation::compare(&permanent, &runtime);
    assert_eq!(
        reconciliation.differences,
        vec![ZoneSettingDifference::Collection {
            setting: ZoneSetting::Interfaces,
            permanent_only: vec![
                CollectionValue::Text("eth0".into()),
                CollectionValue::Text("wlan0".into()),
            ],
            runtime_only: vec![
                CollectionValue::Text("a".into()),
                CollectionValue::Text("zz".into()),
            ],
        }]
    );
}

#[test]
fn differences_follow_the_setting_order() {
    let permanent = ZoneSettingsSnapshot {
        short_name: "Work".into(),
        forward_ports: vec![(
            "443".into(),
            "tcp".into(),
            "8443".into(),
            "192.0.2.5".into(),
        )],
        forward: false,
        egress_priority: 3,
        ..ZoneSettingsSnapshot::default()
    };
    let runtime = ZoneSettingsSnapshot::default();
    let reconciliation = ZoneReconciliation::compare(&permanent, &runtime);
    let settings: Vec<ZoneSetting> = reconciliation
        .differences
        .iter()
        .map(|difference| match difference {
            ZoneSettingDifference::Scalar { setting, .. } => *setting,
            ZoneSettingDifference::Collection { setting, .. } => *setting,
        })
        .collect();
    assert_eq!(
        settings,
        vec![
            ZoneSetting::ShortName,
            ZoneSetting::ForwardPorts,
            ZoneSetting::Forward,
            ZoneSetting::EgressPriority,
        ]
    );
    assert!(!reconciliation.has_runtime_only_differences() || true);
    assert!(reconciliation.has_runtime_only_differences());
}

#[test]
fn identical_snapshots_are_in_sync() {
    let snapshot = ZoneSettingsSnapshot {
        services: vec!["ssh".into()],
        ..ZoneSettingsSnapshot::default()
    };
    let reconciliation = ZoneReconciliation::compare(&snapshot, &snapshot.clone());
    assert!(reconciliation.is_in_sync());
    assert_eq!(reconciliation.completeness, ComparisonCompleteness::Complete);
    assert!(!reconciliation.has_runtime_only_differences());
}

#[test]
fn unknown_keys_make_the_comparison_incomplete() {
    let permanent = ZoneSettingsSnapshot {
        unknown_keys: vec!["future_setting".into()],
        ..ZoneSettingsSnapshot::default()
    };
    let runtime = ZoneSettingsSnapshot::default();
    let reconciliation = ZoneReconciliation::compare(&permanent, &runtime);
    assert_eq!(
        reconciliation.completeness,
        ComparisonCompleteness::Incomplete {
            permanent_unknown: vec!["future_setting".into()],
            runtime_unknown: Vec::new(),
        }
    );
    assert!(!reconciliation.is_in_sync());
    let state = ZoneReconciliationState::from_data(
        "public".into(),
        ZoneReconciliationData::new(permanent, runtime),
    );
    assert!(matches!(state, ZoneReconciliationState::Incomplete { .. }));
    assert!(state.data().is_some());
}

#[test]
fn permanent_only_collection_is_not_runtime_only() {
    let permanent = ZoneSettingsSnapshot {
        services: vec!["ssh".into()],
        ..ZoneSettingsSnapshot::default()
    };
    let runtime = ZoneSettingsSnapshot::default();
    let reconciliation = ZoneReconciliation::compare(&permanent, &runtime);
    assert_eq!(reconciliation.differences.len(), 1);
    assert!(!reconciliation.has_runtime_only_differences());
    assert!(ZoneReconciliation::compare(&runtime, &permanent).has_runtime_only_differences());
    assert_eq!(ZoneReconciliationState::default(), ZoneReconciliationState::Unavailable { zone: None });
}
