use cosmic_gfwd::broker::{
    ensure_same_owner, forwarded_event, interface_catalog, selected_zone_exists, session_step,
    should_include_interface, BrokerError, ConfigurationSignal, FirewalldStatus, SessionInput,
    SessionStep,
};
use cosmic_gfwd::events::ConfigurationEvent;

#[test]
fn same_owner_keeps_session_alive() {
    assert!(ensure_same_owner(":1.42", ":1.42").is_ok());
}

#[test]
fn changed_owner_invalidates_session() {
    let error = ensure_same_owner(":1.42", ":1.43").expect_err("owner change must fail");

    assert_eq!(error.to_string(), "firewalld owner changed");
}

#[test]
fn selected_zone_existence_matches_optional_selection() {
    let zones = vec!["public".to_string(), "work".to_string()];

    assert!(selected_zone_exists(None, &zones));
    assert!(selected_zone_exists(Some("public"), &zones));
    assert!(!selected_zone_exists(Some("deleted"), &zones));
}

#[test]
fn interface_filter_drops_loopback_containers_and_bridges() {
    assert!(should_include_interface("eth0"));
    assert!(should_include_interface("wlan0"));
    assert!(should_include_interface("br0"));
    assert!(!should_include_interface(""));
    assert!(!should_include_interface("lo"));
    assert!(!should_include_interface("docker0"));
    assert!(!should_include_interface("veth1a2b"));
    assert!(!should_include_interface("br-5f3e"));
}

#[test]
fn interface_catalog_is_sorted_and_unique() {
    let names = vec![
        "wlan0".to_string(),
        "lo".to_string(),
        "eth0".to_string(),
        "docker0".to_string(),
        "eth0".to_string(),
    ];

    assert_eq!(interface_catalog(names), ["eth0".to_string(), "wlan0".to_string()]);
}

#[test]
fn systemd_states_map_to_firewalld_status() {
    assert_eq!(FirewalldStatus::from_active_state("active"), FirewalldStatus::Active);
    assert_eq!(FirewalldStatus::from_active_state("activating"), FirewalldStatus::Loading);
    assert_eq!(FirewalldStatus::from_active_state("deactivating"), FirewalldStatus::Loading);
    assert_eq!(FirewalldStatus::from_active_state("reloading"), FirewalldStatus::Loading);
    assert_eq!(FirewalldStatus::from_active_state("failed"), FirewalldStatus::Inactive);
    assert_eq!(FirewalldStatus::from_active_state("inactive"), FirewalldStatus::Inactive);
    assert_eq!(FirewalldStatus::default(), FirewalldStatus::Loading);
}

fn changed(step: SessionStep) -> ConfigurationEvent {
    match step {
        SessionStep::Emit(ConfigurationSignal::Changed(event)) => event,
        other => panic!("expected an event, got {other:?}"),
    }
}

fn failure(step: SessionStep) -> String {
    match step {
        SessionStep::Fail(error) => error.to_string(),
        other => panic!("expected a failure, got {other:?}"),
    }
}

#[test]
fn root_reload_signals_are_reported() {
    let step = session_step(Some("public"), ":1.1", SessionInput::RootSignal(Some("Reloaded".into())));
    assert_eq!(changed(step), ConfigurationEvent::Reloaded);

    let other = session_step(Some("public"), ":1.1", SessionInput::RootSignal(Some("Other".into())));
    assert!(matches!(other, SessionStep::Continue));
    let none = session_step(None, ":1.1", SessionInput::RootSignal(None));
    assert!(matches!(none, SessionStep::Continue));
}

#[test]
fn runtime_signals_only_report_the_selected_zone() {
    let selected = session_step(
        Some("public"),
        ":1.1",
        SessionInput::RuntimeSignal(Ok("public".into())),
    );
    assert_eq!(
        changed(selected),
        ConfigurationEvent::RuntimeZoneChanged {
            zone: "public".into()
        }
    );

    let other = session_step(Some("public"), ":1.1", SessionInput::RuntimeSignal(Ok("work".into())));
    assert!(matches!(other, SessionStep::Continue));
    let unselected = session_step(None, ":1.1", SessionInput::RuntimeSignal(Ok("public".into())));
    assert!(matches!(unselected, SessionStep::Continue));
}

#[test]
fn permanent_signals_report_updates_removals_and_renames() {
    let updated = session_step(
        Some("public"),
        ":1.1",
        SessionInput::PermanentSignal {
            member: Some("Updated".into()),
            argument: Err(BrokerError::new("unused".into())),
        },
    );
    assert_eq!(
        changed(updated),
        ConfigurationEvent::PermanentZoneUpdated {
            zone: "public".into()
        }
    );

    let removed = session_step(
        Some("public"),
        ":1.1",
        SessionInput::PermanentSignal {
            member: Some("Removed".into()),
            argument: Ok("ignored".into()),
        },
    );
    assert_eq!(
        changed(removed),
        ConfigurationEvent::PermanentZoneRemoved {
            zone: "public".into()
        }
    );

    let renamed = session_step(
        Some("public"),
        ":1.1",
        SessionInput::PermanentSignal {
            member: Some("Renamed".into()),
            argument: Ok("office".into()),
        },
    );
    assert_eq!(
        changed(renamed),
        ConfigurationEvent::PermanentZoneRenamed {
            old_zone: "public".into(),
            new_zone: "office".into()
        }
    );

    let undecodable = session_step(
        Some("public"),
        ":1.1",
        SessionInput::PermanentSignal {
            member: Some("Renamed".into()),
            argument: Err(BrokerError::new("firewalld signal omitted its zone argument".into())),
        },
    );
    assert_eq!(failure(undecodable), "firewalld signal omitted its zone argument");
}

#[test]
fn ended_streams_and_owner_changes_end_the_session() {
    assert_eq!(
        failure(session_step(None, ":1.1", SessionInput::RootEnded)),
        "firewalld root signal stream ended"
    );
    assert_eq!(
        failure(session_step(None, ":1.1", SessionInput::RuntimeEnded)),
        "firewalld runtime-zone signal stream ended"
    );
    assert_eq!(
        failure(session_step(None, ":1.1", SessionInput::PermanentEnded)),
        "selected permanent-zone signal stream ended"
    );
    assert_eq!(
        failure(session_step(None, ":1.1", SessionInput::OwnerCheckTimedOut)),
        "firewalld owner check timed out"
    );
    assert_eq!(
        failure(session_step(None, ":1.1", SessionInput::OwnerChecked(Ok(":1.2".into())))),
        "firewalld owner changed"
    );
    let healthy = session_step(None, ":1.1", SessionInput::OwnerChecked(Ok(":1.1".into())));
    assert!(matches!(healthy, SessionStep::Emit(ConfigurationSignal::Healthy)));
}

#[test]
fn event_stream_drops_health_reports() {
    assert!(forwarded_event(Ok(ConfigurationSignal::Healthy)).is_none());
    assert!(matches!(
        forwarded_event(Ok(ConfigurationSignal::Changed(ConfigurationEvent::Reloaded))),
        Some(Ok(ConfigurationEvent::Reloaded))
    ));
    assert!(matches!(
        forwarded_event(Err(BrokerError::new("lost".into()))),
        Some(Err(_))
    ));
}
