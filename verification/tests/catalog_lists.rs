use cosmic_gfwd::broker::{icmp_type_catalog, name_catalog, networkmanager_interfaces, BrokerError};
use cosmic_gfwd::models::{IcmpTypeInfo, IpSetDetails, ZoneConfig, ZoneDetails, ZoneTarget};

#[test]
fn names_and_icmp_types_come_in_name_order() {
    assert_eq!(
        name_catalog(vec!["work".into(), "block".into(), "public".into()]),
        vec!["block".to_string(), "public".to_string(), "work".to_string()]
    );
    let types = icmp_type_catalog(vec![
        IcmpTypeInfo { name: "echo-request".into(), description: "b".into() },
        IcmpTypeInfo { name: "destination-unreachable".into(), description: "a".into() },
    ]);
    assert_eq!(types[0].name, "destination-unreachable");
    assert_eq!(types[1].name, "echo-request");
}

#[test]
fn networkmanager_is_used_only_when_it_reports_interfaces() {
    assert_eq!(networkmanager_interfaces(Ok(vec!["eth0".into()])), Some(vec!["eth0".to_string()]));
    assert_eq!(networkmanager_interfaces(Ok(Vec::new())), None);
    assert_eq!(networkmanager_interfaces(Ok(vec!["lo".into(), "docker0".into()])), None);
    assert_eq!(
        networkmanager_interfaces(Ok(vec!["wlan0".into(), "eth0".into(), "eth0".into()])),
        Some(vec!["eth0".to_string(), "wlan0".to_string()])
    );
    assert_eq!(networkmanager_interfaces(Err(BrokerError::new("no bus".into()))), None);
}

#[test]
fn zone_details_sort_every_list_and_classify_the_target() {
    let details = ZoneDetails::from_config(
        "work",
        ZoneConfig {
            description: "Office".into(),
            target: "REJECT".into(),
            masquerade: true,
            icmp_block_inversion: false,
            services: vec!["ssh".into(), "dhcpv6-client".into()],
            ports: vec![("8443".into(), "tcp".into()), ("443".into(), "udp".into()), ("443".into(), "tcp".into())],
            forward_ports: Vec::new(),
            interfaces: vec!["wlan0".into(), "eth0".into()],
            sources: Vec::new(),
            icmp_blocks: Vec::new(),
            rich_rules: Vec::new(),
            protocols: Vec::new(),
            source_ports: Vec::new(),
        },
    );
    assert_eq!(details.name, "work");
    assert_eq!(details.target, ZoneTarget::Reject);
    assert_eq!(details.services, vec!["dhcpv6-client".to_string(), "ssh".to_string()]);
    assert_eq!(
        details.ports,
        vec![
            ("443".to_string(), "tcp".to_string()),
            ("443".to_string(), "udp".to_string()),
            ("8443".to_string(), "tcp".to_string()),
        ]
    );
    assert_eq!(details.interfaces, vec!["eth0".to_string(), "wlan0".to_string()]);
}

#[test]
fn ipset_entries_are_sorted() {
    let details = IpSetDetails::from_settings(
        "blocked".into(),
        "hash:ip".into(),
        Vec::new(),
        vec!["192.0.2.9".into(), "192.0.2.10".into()],
    );
    assert_eq!(details.entries, vec!["192.0.2.10".to_string(), "192.0.2.9".to_string()]);
}

#[test]
fn sorting_is_deterministic_and_idempotent() {
    let once = name_catalog(vec!["b".into(), "a".into(), "c".into(), "a".into()]);
    let twice = name_catalog(once.clone());
    assert_eq!(once, twice);
    assert_eq!(once, vec!["a".to_string(), "a".to_string(), "b".to_string(), "c".to_string()]);
}
