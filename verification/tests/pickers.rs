use cosmic_gfwd::models::IcmpTypeInfo;
use cosmic_gfwd::pages::ContextPage;
use cosmic_gfwd::pickers::{icmp_choices, service_choices};
use cosmic_gfwd::root::{open_dialog, Dispatch, MenuAction, Shell};
use cosmic_gfwd::dialogs::DialogKind;
use cosmic_gfwd::dialogs::port::PortKind;
use cosmic_gfwd::{navigation, zones};

#[test]
fn service_search_is_trimmed_and_case_insensitive() {
    let services = vec!["SSH".to_string(), "https".to_string(), "dhcp".to_string()];
    let enabled = vec!["https".to_string()];
    assert_eq!(
        service_choices("  s ", &services, &enabled),
        vec![("SSH".to_string(), false), ("https".to_string(), true)]
    );
    assert_eq!(service_choices("   ", &services, &enabled).len(), 3);
    assert!(service_choices("ftp", &services, &enabled).is_empty());
}

#[test]
fn icmp_search_matches_names_and_descriptions() {
    let types = vec![
        IcmpTypeInfo { name: "echo-request".into(), description: "Ping".into() },
        IcmpTypeInfo { name: "timestamp-reply".into(), description: "Clock".into() },
    ];
    let blocked = vec!["echo-request".to_string()];
    let choices = icmp_choices("PING", &types, &blocked);
    assert_eq!(choices.len(), 1);
    assert_eq!(choices[0].0.name, "echo-request");
    assert!(choices[0].1);
    let choices = icmp_choices("", &types, &blocked);
    assert_eq!(choices.len(), 2);
    assert!(!choices[1].1);
}

#[test]
fn menu_actions_route_through_pages_or_the_zone_view() {
    assert!(matches!(
        MenuAction::AddForwardPort.message(),
        Dispatch::Zone(zones::Message::View(zones::ZoneViewAction::AddPort { kind: PortKind::Forward }))
    ));
    assert!(matches!(
        MenuAction::AddIpSet.message(),
        Dispatch::Navigation(navigation::Message::ToggleContextPage(ContextPage::AddIpSet))
    ));
}

#[test]
fn the_open_dialog_follows_the_drawer() {
    let mut shell = Shell::new();
    shell.context_page = ContextPage::AddSource;
    assert_eq!(open_dialog(&shell), None);
    shell.show_context = true;
    assert_eq!(open_dialog(&shell), Some(DialogKind::Source));
}
