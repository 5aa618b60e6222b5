use cosmic_gfwd::dialogs::interface::{self, InterfaceFormState};
use cosmic_gfwd::dialogs::ipset::{self, split_entries, IpSetFormState};
use cosmic_gfwd::dialogs::port::{self, PortFormState, PortKind};
use cosmic_gfwd::dialogs::rich_rule::{self, RichRuleFormState};
use cosmic_gfwd::dialogs::service;
use cosmic_gfwd::dialogs::zone::{self, ZoneFormState};
use cosmic_gfwd::dialogs::{
    update, Context, DialogKind, DialogMessage, DialogState, Request, Submission,
};
use cosmic_gfwd::models::ZoneTarget;

fn context() -> Context<'static> {
    Context {
        selected_zone: Some("public"),
        interfaces: &[],
        enabled_services: &[],
        blocked_icmp: &[],
        mutation_pending: false,
    }
}

#[test]
fn resetting_one_drawer_preserves_other_form_state() {
    let mut dialogs = DialogState::default();
    dialogs.zone.name = "kept-zone".to_string();
    dialogs.rich_rule.raw_mode = true;
    dialogs.rich_rule.raw_rule = "<rule><accept/></rule>".to_string();
    dialogs.operation_error = Some("failure".to_string());

    dialogs.reset(DialogKind::RichRule);

    assert_eq!(dialogs.zone.name, "kept-zone");
    assert!(!dialogs.rich_rule.raw_mode);
    assert!(dialogs.rich_rule.raw_rule.is_empty());
    assert!(dialogs.operation_error.is_none());
}

#[test]
fn resetting_port_form_preserves_each_selected_kind() {
    let mut dialogs = DialogState::default();
    for kind in [PortKind::Destination, PortKind::Source, PortKind::Forward] {
        dialogs.port.kind = kind;
        dialogs.port.port = "443".into();
        dialogs.port.protocol = "udp".into();
        dialogs.port.dest_ip = "192.0.2.1".into();
        dialogs.port.dest_port = "8443".into();
        dialogs.port.port_touched = true;
        dialogs.operation_error = Some("failure".into());

        dialogs.reset(DialogKind::Port);

        assert_eq!(dialogs.port.kind, kind);
        assert!(dialogs.port.port.is_empty());
        assert_eq!(dialogs.port.protocol, "tcp");
        assert!(dialogs.port.dest_ip.is_empty());
        assert!(dialogs.port.dest_port.is_empty());
        assert!(!dialogs.port.port_touched);
        assert!(dialogs.operation_error.is_none());
    }
}

#[test]
fn cancel_resets_only_the_requested_form_and_closes_the_drawer() {
    let mut state = DialogState::default();
    state.zone.name = "kept-zone".into();
    state.source.source = "192.0.2.0/24".into();
    state.source.touched = true;
    state.operation_error = Some("failure".into());

    let outcome = update(
        &mut state,
        DialogMessage::Cancel(DialogKind::Source),
        context(),
    );

    assert_eq!(state.zone.name, "kept-zone");
    assert!(state.source.source.is_empty());
    assert!(!state.source.touched);
    assert!(state.operation_error.is_none());
    assert_eq!(outcome.requests, [Request::CloseDrawer]);
}

#[test]
fn submissions_route_all_port_kinds_with_normalized_values() {
    for (kind, expected) in [
        (
            PortKind::Destination,
            Submission::Port {
                zone: "public".into(),
                port: "443".into(),
                protocol: "tcp".into(),
            },
        ),
        (
            PortKind::Source,
            Submission::SourcePort {
                zone: "public".into(),
                port: "443".into(),
                protocol: "tcp".into(),
            },
        ),
        (
            PortKind::Forward,
            Submission::ForwardPort {
                zone: "public".into(),
                port: "443".into(),
                protocol: "tcp".into(),
                to_port: "8443".into(),
                to_addr: "192.0.2.1".into(),
            },
        ),
    ] {
        let mut state = DialogState {
            port: PortFormState {
                kind,
                port: "443".into(),
                protocol: "tcp".into(),
                dest_port: "8443".into(),
                dest_ip: "192.0.2.1".into(),
                ..PortFormState::default()
            },
            ..DialogState::default()
        };
        let outcome = update(
            &mut state,
            DialogMessage::Submit(DialogKind::Port),
            context(),
        );
        assert!(matches!(
            outcome.requests.as_slice(),
            [Request::Submit(actual)] if actual == &expected
        ));
    }
}

#[test]
fn messages_preserve_protocol_and_forwarding_fields() {
    let mut state = PortFormState {
        kind: PortKind::Forward,
        ..PortFormState::default()
    };

    port::update(&mut state, port::Message::NumberChanged("443".into()));
    port::update(&mut state, port::Message::ProtocolSelected(1));
    port::update(
        &mut state,
        port::Message::ForwardDestIpChanged("192.0.2.10".into()),
    );
    port::update(&mut state, port::Message::ForwardDestPortChanged("8443".into()));

    assert_eq!(state.port, "443");
    assert_eq!(state.protocol, "udp");
    assert_eq!(state.dest_ip, "192.0.2.10");
    assert_eq!(state.dest_port, "8443");
    assert!(state.port_touched);
    assert!(state.dest_ip_touched);
    assert!(state.dest_port_touched);
    assert!(state.is_valid());
}

#[test]
fn every_port_kind_shares_port_and_protocol_validation() {
    for kind in [PortKind::Destination, PortKind::Source, PortKind::Forward] {
        let valid = PortFormState {
            kind,
            port: "1000-2000".into(),
            protocol: "sctp".into(),
            dest_port: "8443".into(),
            ..PortFormState::default()
        };
        assert!(valid.is_valid(), "{kind:?} should accept shared fields");

        let invalid_port = PortFormState {
            port: "70000".into(),
            ..valid.clone()
        };
        assert!(
            !invalid_port.is_valid(),
            "{kind:?} should reject an invalid port"
        );

        let invalid_protocol = PortFormState {
            protocol: "icmp".into(),
            ..valid
        };
        assert!(
            !invalid_protocol.is_valid(),
            "{kind:?} should reject an invalid protocol"
        );
    }
}

#[test]
fn only_forward_ports_validate_destination_fields() {
    for kind in [PortKind::Destination, PortKind::Source] {
        let state = PortFormState {
            kind,
            port: "443".into(),
            protocol: "tcp".into(),
            dest_ip: "not an address".into(),
            dest_port: "not a port".into(),
            ..PortFormState::default()
        };
        assert!(
            state.is_valid(),
            "{kind:?} should ignore forwarding-only fields"
        );
    }

    let missing_destination_port = PortFormState {
        kind: PortKind::Forward,
        port: "443".into(),
        protocol: "tcp".into(),
        ..PortFormState::default()
    };
    assert!(!missing_destination_port.is_valid());

    let optional_destination_address = PortFormState {
        dest_port: "8443".into(),
        ..missing_destination_port
    };
    assert!(optional_destination_address.is_valid());
}

#[test]
fn messages_preserve_validation_and_entry_handling() {
    let mut state = IpSetFormState::default();

    ipset::update(&mut state, ipset::Message::NameChanged("blocked-hosts".into()));
    ipset::update(&mut state, ipset::Message::TypeSelected(0));
    ipset::update(
        &mut state,
        ipset::Message::EntriesChanged("192.0.2.1\n\n  198.51.100.2  ".into()),
    );

    assert!(state.name_touched);
    assert!(state.entries_touched);
    assert!(state.is_valid());
    assert_eq!(split_entries(&state.entries), ["192.0.2.1", "198.51.100.2"]);
}

#[test]
fn submission_entries_preserve_composite_tuple_commas() {
    assert_eq!(
        split_entries("192.0.2.1,443,198.51.100.2\n\n  2001:db8::1,53  \n"),
        ["192.0.2.1,443,198.51.100.2", "2001:db8::1,53"]
    );
}

#[test]
fn switching_modes_preserves_raw_input() {
    let mut state = RichRuleFormState {
        raw_mode: true,
        raw_rule: "  <rule><drop/></rule>  ".to_string(),
        ..RichRuleFormState::default()
    };
    assert_eq!(state.generated_rule().unwrap(), "<rule><drop/></rule>");

    state.raw_mode = false;
    state.element_value = "https".to_string();
    assert!(state
        .generated_rule()
        .unwrap()
        .contains("<service name=\"https\"/>"));

    state.raw_mode = true;
    assert_eq!(state.raw_rule, "  <rule><drop/></rule>  ");
}

#[test]
fn selection_and_manual_entry_share_validation() {
    let interfaces = ["eth0".to_string(), "wlan0".to_string()];
    let mut state = InterfaceFormState::default();

    interface::update(&mut state, interface::Message::Selected(2), &interfaces);
    assert_eq!(state.interface, "wlan0");
    assert!(state.error.is_none());

    interface::update(
        &mut state,
        interface::Message::NameChanged("bad interface".into()),
        &[],
    );
    assert!(state.error.is_some());

    interface::update(&mut state, interface::Message::NameChanged("wg0".into()), &[]);
    assert_eq!(state.interface, "wg0");
    assert!(state.error.is_none());

    interface::update(&mut state, interface::Message::Selected(0), &interfaces);
    assert!(state.interface.is_empty());
    assert!(state.error.is_none());
}

#[test]
fn messages_update_every_zone_field() {
    let mut state = ZoneFormState::default();

    zone::update(&mut state, zone::Message::NameChanged("work".into()));
    zone::update(
        &mut state,
        zone::Message::DescriptionChanged("Office network".into()),
    );
    zone::update(&mut state, zone::Message::TargetSelected(2));

    assert_eq!(state.name, "work");
    assert_eq!(state.description, "Office network");
    assert_eq!(state.target, ZoneTarget::Drop);
}

#[test]
fn search_and_selection_preserve_picker_behavior() {
    let mut state = DialogState::default();

    let outcome = update(
        &mut state,
        DialogMessage::Service(service::Message::SearchChanged("ssh".into())),
        context(),
    );
    assert_eq!(state.service.search, "ssh");
    assert!(outcome.requests.is_empty());

    let enabled = ["ssh".to_string()];
    let outcome = update(
        &mut state,
        DialogMessage::Service(service::Message::Selected("ssh".into())),
        Context {
            enabled_services: &enabled,
            ..context()
        },
    );
    assert!(outcome.requests.is_empty());
    assert_eq!(
        state.operation_error.as_deref(),
        Some("error-service-already-enabled")
    );

    state.operation_error = None;
    let outcome = update(
        &mut state,
        DialogMessage::Service(service::Message::Selected("https".into())),
        Context {
            enabled_services: &enabled,
            ..context()
        },
    );
    assert!(matches!(
        outcome.requests.as_slice(),
        [Request::Submit(Submission::Service { zone, service })]
            if zone == "public" && service == "https"
    ));
    assert!(state.operation_error.is_none());
}

#[test]
fn submissions_need_a_selected_zone_and_valid_fields() {
    let mut state = DialogState::default();
    state.source.source = "not a source".into();
    let invalid = update(&mut state, DialogMessage::Submit(DialogKind::Source), context());
    assert!(invalid.requests.is_empty());
    assert_eq!(state.operation_error.as_deref(), Some("validation-fix-fields"));

    state.source.source = " 192.0.2.0/24 ".into();
    let unselected = update(
        &mut state,
        DialogMessage::Submit(DialogKind::Source),
        Context {
            selected_zone: None,
            ..context()
        },
    );
    assert!(unselected.requests.is_empty());
    assert_eq!(state.operation_error.as_deref(), Some("error-select-zone-first"));

    let submitted = update(&mut state, DialogMessage::Submit(DialogKind::Source), context());
    assert!(matches!(
        submitted.requests.as_slice(),
        [Request::Submit(Submission::Source { zone, source })]
            if zone == "public" && source == "192.0.2.0/24"
    ));
}

#[test]
fn pending_mutations_hold_back_submissions() {
    let mut state = DialogState::default();
    state.zone.name = "work".into();
    let outcome = update(
        &mut state,
        DialogMessage::Submit(DialogKind::Zone),
        Context {
            mutation_pending: true,
            ..context()
        },
    );
    assert!(outcome.requests.is_empty());

    let outcome = update(&mut state, DialogMessage::Submit(DialogKind::Zone), context());
    assert!(matches!(
        outcome.requests.as_slice(),
        [Request::Submit(Submission::Zone { name, target: ZoneTarget::Default, .. })] if name == "work"
    ));
}

#[test]
fn ipset_submission_splits_entries() {
    let mut state = DialogState::default();
    state.ipset.name = "blocked".into();
    state.ipset.entries = "192.0.2.1\n198.51.100.2".into();

    let outcome = update(&mut state, DialogMessage::Submit(DialogKind::IpSet), context());

    assert!(matches!(
        outcome.requests.as_slice(),
        [Request::Submit(Submission::IpSet { name, ipset_type, entries })]
            if name == "blocked" && ipset_type == "hash:ip" && entries.len() == 2
    ));
    assert!(state.ipset.name_touched);
}

#[test]
fn rich_rule_submission_uses_the_generated_rule() {
    let mut state = DialogState::default();
    rich_rule::update(
        &mut state.rich_rule,
        rich_rule::Message::ElementValueChanged("ssh".into()),
    );

    let outcome = update(&mut state, DialogMessage::Submit(DialogKind::RichRule), context());

    assert!(matches!(
        outcome.requests.as_slice(),
        [Request::Submit(Submission::RichRule { zone, rule })]
            if zone == "public" && rule.contains("<service name=\"ssh\"/>")
    ));
}

#[test]
fn resetting_the_rich_rule_form_restores_every_default() {
    let mut state = DialogState::default();
    state.rich_rule.source_invert = true;
    state.rich_rule.destination_invert = true;
    state.rich_rule.reject_type = "icmp-host-prohibited".into();
    state.rich_rule.mark = "0x1".into();
    state.rich_rule.raw_mode = true;
    state.reset(DialogKind::RichRule);
    assert!(!state.rich_rule.source_invert);
    assert!(!state.rich_rule.destination_invert);
    assert!(state.rich_rule.reject_type.is_empty());
    assert!(state.rich_rule.mark.is_empty());
    assert!(!state.rich_rule.raw_mode);
    assert_eq!(state.rich_rule.port_protocol, "tcp");
}

#[test]
fn dropdown_indices_round_trip() {
    for i in 0..13 {
        assert_eq!(ipset::ipset_index(&ipset::ipset_from_index(i)), Some(i));
    }
    assert_eq!(ipset::ipset_index(&ipset::ipset_from_index(40)), Some(0));
    assert_eq!(ipset::ipset_index("hash:nope"), None);
    for i in 0..4 {
        assert_eq!(port::protocol_index(&port::protocol_from_index(i)), Some(i));
    }
    assert_eq!(port::protocol_index(&port::protocol_from_index(9)), Some(0));
}
