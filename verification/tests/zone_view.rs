use cosmic_gfwd::dialogs::port::PortKind;
use cosmic_gfwd::models::{ZoneDetails, ZoneTarget};
use cosmic_gfwd::zone_view::{
    forward_port_rows, list_or_none, port_add_action, source_port_rows, zone_sections,
};
use cosmic_gfwd::zones::ZoneViewAction;

#[test]
fn port_section_add_actions_select_the_requested_kind() {
    for kind in [PortKind::Destination, PortKind::Source, PortKind::Forward] {
        assert!(matches!(
            port_add_action(kind),
            ZoneViewAction::AddPort { kind: actual } if actual == kind
        ));
    }
}

#[test]
fn source_port_section_offers_add_and_existing_remove_actions() {
    assert!(matches!(
        port_add_action(PortKind::Source),
        ZoneViewAction::AddPort {
            kind: PortKind::Source
        }
    ));

    let rows = source_port_rows(&[("1024-2048".into(), "udp".into())]);
    assert!(matches!(
        rows.as_slice(),
        [(
            label,
            ZoneViewAction::RemoveSourcePort { port, protocol }
        )] if label == "1024-2048/udp" && port == "1024-2048" && protocol == "udp"
    ));
}

#[test]
fn forward_port_labels_show_the_destination() {
    let rows = forward_port_rows(&[
        ("80".into(), "tcp".into(), "8080".into(), String::new()),
        ("443".into(), "tcp".into(), "8443".into(), "192.0.2.1".into()),
    ]);

    assert_eq!(rows[0].0, "80/tcp -> 8080");
    assert_eq!(rows[1].0, "443/tcp -> 8443 (192.0.2.1)");
}

#[test]
fn lists_are_joined_or_replaced_by_the_empty_label() {
    assert_eq!(list_or_none(&[], "none"), "none");
    assert_eq!(list_or_none(&["tcp".to_string()], "none"), "tcp");
    assert_eq!(
        list_or_none(&["tcp".to_string(), "udp".to_string()], "none"),
        "tcp, udp"
    );
}

#[test]
fn sections_sort_rows_by_label_and_count_items() {
    let details = ZoneDetails {
        name: "public".into(),
        description: String::new(),
        target: ZoneTarget::Default,
        masquerade: false,
        icmp_block_inversion: false,
        services: vec!["ssh".into(), "http".into(), "dns".into()],
        ports: vec![("8080".into(), "tcp".into()), ("443".into(), "tcp".into())],
        forward_ports: Vec::new(),
        interfaces: Vec::new(),
        sources: Vec::new(),
        icmp_blocks: Vec::new(),
        rich_rules: Vec::new(),
        protocols: Vec::new(),
        source_ports: Vec::new(),
    };

    let sections = zone_sections(&details);

    assert_eq!(sections.services.count, 3);
    let labels: Vec<&str> = sections.services.rows.iter().map(|row| row.0.as_str()).collect();
    assert_eq!(labels, ["dns", "http", "ssh"]);
    assert!(matches!(
        &sections.services.rows[0].1,
        ZoneViewAction::RemoveService(service) if service == "dns"
    ));
    let ports: Vec<&str> = sections.ports.rows.iter().map(|row| row.0.as_str()).collect();
    assert_eq!(ports, ["443/tcp", "8080/tcp"]);
    assert!(matches!(sections.interfaces.add_action, ZoneViewAction::AddInterface));
    assert_eq!(sections.interfaces.count, 0);
}
