use cosmic_gfwd::models::{ZoneDetails, ZoneTarget};
use cosmic_gfwd::presentation::ReconciliationPresentationStatus;
use cosmic_gfwd::reconciliation::{
    CollectionValue, ScalarValue, ZoneReconciliationState, ZoneSetting, ZoneSettingDifference,
};
use cosmic_gfwd::review::{
    collection_values, difference_values, list_values, reconciliation_status, scalar_value,
    setting_label, Phrase,
};
use cosmic_gfwd::text::{decimal_string, signed_decimal_string};
use cosmic_gfwd::zone_view::{section_title, zone_description};

fn details(description: &str) -> ZoneDetails {
    ZoneDetails {
        name: "work".to_string(),
        description: description.to_string(),
        target: ZoneTarget::Default,
        masquerade: false,
        icmp_block_inversion: false,
        services: Vec::new(),
        ports: Vec::new(),
        forward_ports: Vec::new(),
        interfaces: Vec::new(),
        sources: Vec::new(),
        icmp_blocks: Vec::new(),
        rich_rules: Vec::new(),
        protocols: Vec::new(),
        source_ports: Vec::new(),
    }
}

#[test]
fn integers_render_in_decimal() {
    assert_eq!(decimal_string(0), "0");
    assert_eq!(decimal_string(1234), "1234");
    assert_eq!(signed_decimal_string(-10), "-10");
    assert_eq!(signed_decimal_string(i32::MIN), "-2147483648");
    assert_eq!(signed_decimal_string(i32::MAX), "2147483647");
}

#[test]
fn scalar_values_render_empty_text_booleans_and_integers() {
    assert_eq!(scalar_value(&ScalarValue::Text(String::new())), "reconciliation-empty-value");
    assert_eq!(scalar_value(&ScalarValue::Text("DROP".into())), "DROP");
    assert_eq!(scalar_value(&ScalarValue::Boolean(true)), "reconciliation-yes");
    assert_eq!(scalar_value(&ScalarValue::Boolean(false)), "reconciliation-no");
    assert_eq!(scalar_value(&ScalarValue::Integer(-5)), "-5");
}

#[test]
fn collection_values_render_one_member_per_line() {
    assert_eq!(collection_values(&[]), "reconciliation-absent-value");
    let values = [
        CollectionValue::Text("ssh".into()),
        CollectionValue::Pair("443".into(), "tcp".into()),
        CollectionValue::ForwardPort("80".into(), "tcp".into(), "8080".into(), "".into()),
    ];
    assert_eq!(collection_values(&values), "ssh\n443/tcp\n80/tcp -> 8080 ()");
}

#[test]
fn unknown_key_lists_render_none_or_lines() {
    assert_eq!(list_values(&[]), "reconciliation-none");
    assert_eq!(list_values(&["a".to_string(), "b".to_string()]), "a\nb");
}

#[test]
fn differences_render_both_sides() {
    let scalar = ZoneSettingDifference::Scalar {
        setting: ZoneSetting::Masquerade,
        permanent: ScalarValue::Boolean(true),
        runtime: ScalarValue::Boolean(false),
    };
    assert_eq!(
        difference_values(&scalar),
        (ZoneSetting::Masquerade, "reconciliation-yes".to_string(), "reconciliation-no".to_string())
    );
    let collection = ZoneSettingDifference::Collection {
        setting: ZoneSetting::Ports,
        permanent_only: vec![CollectionValue::Pair("22".into(), "tcp".into())],
        runtime_only: Vec::new(),
    };
    assert_eq!(
        difference_values(&collection),
        (ZoneSetting::Ports, "22/tcp".to_string(), "reconciliation-absent-value".to_string())
    );
    assert_eq!(setting_label(ZoneSetting::IcmpBlockInversion), "reconciliation-setting-icmp-inversion");
}

#[test]
fn status_lines_carry_their_arguments() {
    let error = ZoneReconciliationState::Error { zone: "work".into(), message: "denied".into() };
    assert_eq!(
        reconciliation_status(ReconciliationPresentationStatus::Error, &error),
        Phrase {
            id: "reconciliation-status-error".into(),
            argument: Some(("error".into(), "denied".into())),
        }
    );
    assert_eq!(
        cosmic_gfwd::zone_view::reconciliation_status(ReconciliationPresentationStatus::Different { count: 3 }),
        Phrase {
            id: "reconciliation-status-different".into(),
            argument: Some(("count".into(), "3".into())),
        }
    );
    assert_eq!(
        cosmic_gfwd::zone_view::reconciliation_status(ReconciliationPresentationStatus::Error).id,
        "reconciliation-status-error-short"
    );
}

#[test]
fn zone_page_titles_and_descriptions() {
    assert_eq!(section_title("Services".into(), 2), "Services (2)");
    assert_eq!(zone_description(&details("  ")), "zone-description-fallback");
    assert_eq!(zone_description(&details("Office")), "Office");
}
