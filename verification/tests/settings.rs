use cosmic_gfwd::reconciliation::{ComparisonCompleteness, ZoneReconciliation, ZoneSettingsSnapshot};
use cosmic_gfwd::settings::{DecodedValue, ZoneSettingsParseError};

fn text(value: &str) -> DecodedValue {
    DecodedValue {
        text: Some(value.to_string()),
        ..DecodedValue::untyped("s".to_string())
    }
}

fn texts(values: &[&str]) -> DecodedValue {
    DecodedValue {
        text_list: Some(values.iter().map(|v| v.to_string()).collect()),
        ..DecodedValue::untyped("as".to_string())
    }
}

fn pairs(values: &[(&str, &str)]) -> DecodedValue {
    DecodedValue {
        pair_list: Some(
            values
                .iter()
                .map(|(a, b)| (a.to_string(), b.to_string()))
                .collect(),
        ),
        ..DecodedValue::untyped("a(ss)".to_string())
    }
}

fn boolean(value: bool) -> DecodedValue {
    DecodedValue {
        boolean: Some(value),
        ..DecodedValue::untyped("b".to_string())
    }
}

fn int32(value: i32) -> DecodedValue {
    DecodedValue {
        int32: Some(value),
        ..DecodedValue::untyped("i".to_string())
    }
}

fn entry(key: &str, value: DecodedValue) -> (String, DecodedValue) {
    (key.to_string(), value)
}

#[test]
fn omitted_keys_use_firewalld_defaults() {
    let snapshot = ZoneSettingsSnapshot::from_settings(Vec::new()).unwrap();

    assert_eq!(snapshot.target, "default");
    assert!(snapshot.forward);
    assert_eq!(snapshot.ingress_priority, 0);
    assert_eq!(snapshot.egress_priority, 0);
    assert!(snapshot.services.is_empty());
    assert!(snapshot.unknown_keys.is_empty());
}

#[test]
fn decodes_every_known_dictionary_shape() {
    let forward_ports = DecodedValue {
        quad_list: Some(vec![(
            "443".to_string(),
            "tcp".to_string(),
            "8443".to_string(),
            "192.0.2.5".to_string(),
        )]),
        ..DecodedValue::untyped("a(ssss)".to_string())
    };
    let settings = vec![
        entry("short", text("Work")),
        entry("description", text("Office network")),
        entry("target", text("DROP")),
        entry("services", texts(&["ssh"])),
        entry("ports", pairs(&[("8443", "tcp")])),
        entry("protocols", texts(&["gre"])),
        entry("source_ports", pairs(&[("1024-65535", "udp")])),
        entry("icmp_blocks", texts(&["echo-request"])),
        entry("icmp_block_inversion", boolean(true)),
        entry("masquerade", boolean(true)),
        entry("forward_ports", forward_ports),
        entry("interfaces", texts(&["eth0"])),
        entry("sources", texts(&["192.0.2.0/24"])),
        entry("rules_str", texts(&["rule family=\"ipv4\" accept"])),
        entry("forward", boolean(false)),
        entry("ingress_priority", int32(-10)),
        entry("egress_priority", int32(20)),
    ];

    let snapshot = ZoneSettingsSnapshot::from_settings(settings).unwrap();

    assert_eq!(snapshot.short_name, "Work");
    assert_eq!(snapshot.ports, [("8443".into(), "tcp".into())]);
    assert_eq!(snapshot.forward_ports[0].3, "192.0.2.5");
    assert!(!snapshot.forward);
    assert_eq!(snapshot.ingress_priority, -10);
    assert_eq!(snapshot.egress_priority, 20);
}

#[test]
fn rejects_incorrect_known_value_types() {
    let error = ZoneSettingsSnapshot::from_settings(vec![entry("masquerade", text("yes"))])
        .unwrap_err();

    assert_eq!(
        error,
        ZoneSettingsParseError::InvalidType {
            key: "masquerade",
            expected: "boolean",
            actual: "s".into(),
        }
    );
}

#[test]
fn preserves_unknown_keys_and_marks_comparison_incomplete() {
    let permanent =
        ZoneSettingsSnapshot::from_settings(vec![entry("future_setting", boolean(true))]).unwrap();
    let runtime = ZoneSettingsSnapshot::default();

    let reconciliation = ZoneReconciliation::compare(&permanent, &runtime);

    assert_eq!(
        reconciliation.completeness,
        ComparisonCompleteness::Incomplete {
            permanent_unknown: vec!["future_setting".to_string()],
            runtime_unknown: Vec::new(),
        }
    );
    assert!(!reconciliation.is_in_sync());
}

#[test]
fn version_key_is_metadata_and_unknown_keys_are_sorted() {
    let snapshot = ZoneSettingsSnapshot::from_settings(vec![
        entry("zeta", boolean(true)),
        entry("version", text("1.0")),
        entry("alpha", int32(3)),
    ])
    .unwrap();

    assert_eq!(snapshot.unknown_keys, vec!["alpha".to_string(), "zeta".to_string()]);
    assert_eq!(snapshot.description, "");
    assert!(!snapshot.masquerade);
}

#[test]
fn first_failing_setting_in_field_order_is_reported() {
    let error = ZoneSettingsSnapshot::from_settings(vec![
        entry("egress_priority", text("high")),
        entry("services", boolean(true)),
    ])
    .unwrap_err();

    assert_eq!(
        error,
        ZoneSettingsParseError::InvalidType {
            key: "services",
            expected: "array of strings",
            actual: "b".into(),
        }
    );
    assert_eq!(
        error.to_string(),
        "zone setting `services` expected array of strings, but received D-Bus type `b`"
    );
}

#[test]
fn entry_order_does_not_change_the_snapshot() {
    let forward = ZoneSettingsSnapshot::from_settings(vec![
        entry("services", texts(&["ssh"])),
        entry("zeta", boolean(true)),
        entry("masquerade", boolean(true)),
        entry("alpha", boolean(false)),
    ])
    .unwrap();
    let backward = ZoneSettingsSnapshot::from_settings(vec![
        entry("alpha", boolean(false)),
        entry("masquerade", boolean(true)),
        entry("zeta", boolean(true)),
        entry("services", texts(&["ssh"])),
    ])
    .unwrap();
    assert_eq!(forward, backward);
}
