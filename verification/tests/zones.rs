use cosmic_gfwd::broker::FirewalldStatus;
use cosmic_gfwd::dialogs::port::PortKind;
use cosmic_gfwd::dialogs::DialogKind;
use cosmic_gfwd::models::{ZoneDetails, ZoneTarget};
use cosmic_gfwd::pages::ContextPage;
use cosmic_gfwd::zones::{
    update, Context, Effect, Message, Mutation, Request, State, ZoneViewAction, ZoneViewState,
};

fn context(selected_zone: Option<&str>) -> Context<'_> {
    Context {
        mutation_pending: false,
        selected_zone,
        reconciliation_refreshing: false,
        open_dialog: None,
    }
}

fn details(name: &str) -> ZoneDetails {
    ZoneDetails {
        name: name.into(),
        description: String::new(),
        target: ZoneTarget::Default,
        masquerade: false,
        icmp_block_inversion: false,
        services: Vec::new(),
        ports: Vec::new(),
        forward_ports: Vec::new(),
        interfaces: Vec::new(),
        sources: Vec::new(),
        icmp_blocks: Vec::new(),
        rich_rules: Vec::new(),
        protocols: Vec::new(),
        source_ports: Vec::new(),
    }
}

#[test]
fn selected_zone_load_changes_reconciliation_identity_before_effect() {
    let mut state = State::default();
    let outcome = update(
        &mut state,
        Message::LoadDetails("public".into()),
        context(Some("public")),
    );

    assert!(matches!(
        outcome.requests.as_slice(),
        [Request::ReconciliationSelectionChanged(Some(zone))] if zone == "public"
    ));
    assert!(matches!(
        outcome.effects.as_slice(),
        [Effect::LoadDetails(zone)] if zone == "public"
    ));
    assert!(matches!(
        state.detail(),
        ZoneViewState::Loading { zone } if zone == "public"
    ));
}

#[test]
fn mutation_commands_are_gated_by_the_global_slot() {
    let mut state = State::default();
    let outcome = update(
        &mut state,
        Message::SetDefault("public".into()),
        Context {
            mutation_pending: true,
            ..context(None)
        },
    );

    assert!(outcome.effects.is_empty());
    assert!(outcome.requests.is_empty());
}

#[test]
fn successful_create_emits_root_requests_in_causal_order() {
    let mut state = State::default();
    let outcome = update(
        &mut state,
        Message::Created {
            zone_name: "work".into(),
            result: Ok(()),
        },
        context(None),
    );

    assert!(matches!(
        outcome.requests.as_slice(),
        [
            Request::MarkRuntimeDirty,
            Request::ResetDialog(DialogKind::Zone),
            Request::CloseDrawer,
            Request::FinishMutation(Ok(())),
            Request::RefreshZones,
        ]
    ));
}

#[test]
fn stale_detail_completion_is_ignored() {
    let mut state = State::default();
    let outcome = update(
        &mut state,
        Message::DetailsLoaded {
            zone_name: "public".into(),
            result: Box::new(Ok(details("public"))),
        },
        context(Some("work")),
    );

    assert!(outcome.effects.is_empty());
    assert!(outcome.requests.is_empty());
    assert!(matches!(state.detail(), ZoneViewState::Empty));
}

#[test]
fn successful_item_change_resets_dialog_before_finishing_and_reloading() {
    let mut state = State::default();
    let outcome = update(
        &mut state,
        Message::ItemAdded {
            zone_name: "public".into(),
            result: Ok(()),
        },
        Context {
            open_dialog: Some(DialogKind::Service),
            ..context(Some("public"))
        },
    );

    assert!(matches!(
        outcome.requests.as_slice(),
        [
            Request::MarkRuntimeDirty,
            Request::ResetDialog(DialogKind::Service),
            Request::CloseDrawer,
            Request::FinishMutation(Ok(())),
            Request::RefreshCurrentZone(zone),
        ] if zone == "public"
    ));
}

#[test]
fn view_add_actions_emit_context_pages_and_dialog_configuration() {
    let mut state = State::default();
    let service = update(
        &mut state,
        Message::View(ZoneViewAction::AddService),
        context(None),
    );
    assert!(matches!(
        service.requests.as_slice(),
        [Request::OpenContextPage(ContextPage::AddService)]
    ));

    let port = update(
        &mut state,
        Message::View(ZoneViewAction::AddPort {
            kind: PortKind::Source,
        }),
        context(None),
    );
    assert!(matches!(
        port.requests.as_slice(),
        [
            Request::OpenContextPage(ContextPage::AddPort),
            Request::SetPortKind(PortKind::Source),
        ]
    ));
}

#[test]
fn view_mutations_require_ready_details_and_respect_global_gating() {
    let mut state = State::default();
    let missing = update(
        &mut state,
        Message::View(ZoneViewAction::RemoveService("ssh".into())),
        context(Some("public")),
    );
    assert!(missing.effects.is_empty());
    assert!(missing.requests.is_empty());

    state.detail = ZoneViewState::Ready(Box::new(details("public")));
    let blocked = update(
        &mut state,
        Message::View(ZoneViewAction::SetMasquerade(true)),
        Context {
            mutation_pending: true,
            ..context(Some("public"))
        },
    );
    assert!(blocked.effects.is_empty());
    assert!(blocked.requests.is_empty());

    let removal = update(
        &mut state,
        Message::View(ZoneViewAction::RemoveService("ssh".into())),
        context(Some("public")),
    );
    assert!(matches!(
        removal.requests.as_slice(),
        [Request::BeginMutation(Mutation::RemoveItem)]
    ));
    assert!(matches!(
        removal.effects.as_slice(),
        [Effect::RemoveService { zone, service }]
            if zone == "public" && service == "ssh"
    ));
}

#[test]
fn stop_is_confirmed_before_daemon_control_begins() {
    let mut state = State::default();
    let request = update(
        &mut state,
        Message::View(ZoneViewAction::StopFirewalld),
        context(None),
    );
    assert!(matches!(
        request.requests.as_slice(),
        [Request::ConfirmStopFirewalld]
    ));
    assert!(request.effects.is_empty());

    let confirmed = update(&mut state, Message::ControlFirewalld(false), context(None));
    assert_eq!(state.firewalld_status(), &FirewalldStatus::Loading);
    assert!(matches!(
        confirmed.requests.as_slice(),
        [Request::BeginMutation(Mutation::StopFirewalld)]
    ));
    assert!(matches!(
        confirmed.effects.as_slice(),
        [Effect::ControlFirewalld(false)]
    ));
}

#[test]
fn inactive_detail_completion_marks_reconciliation_unavailable_then_finishes_refresh() {
    let mut state = State {
        detail: ZoneViewState::Loading {
            zone: "public".into(),
        },
        firewalld_status: FirewalldStatus::Inactive,
    };
    let outcome = update(
        &mut state,
        Message::DetailsLoaded {
            zone_name: "public".into(),
            result: Box::new(Ok(details("public"))),
        },
        context(Some("public")),
    );

    assert!(matches!(
        outcome.requests.as_slice(),
        [
            Request::ReconciliationUnavailable(Some(zone)),
            Request::FinishConfigurationRefresh,
        ] if zone == "public"
    ));
    assert_eq!(state.current_zone_name(), Some("public"));
}

#[test]
fn active_status_loads_ready_reconciliation_or_marks_it_unavailable_while_refreshing() {
    let mut state = State {
        detail: ZoneViewState::Ready(Box::new(details("public"))),
        firewalld_status: FirewalldStatus::Loading,
    };
    let load = update(
        &mut state,
        Message::FirewalldStatusLoaded(Ok(FirewalldStatus::Active)),
        context(Some("public")),
    );
    assert!(matches!(
        load.requests.as_slice(),
        [Request::LoadReconciliation(zone)] if zone == "public"
    ));

    let refreshing = update(
        &mut state,
        Message::FirewalldStatusLoaded(Ok(FirewalldStatus::Active)),
        Context {
            reconciliation_refreshing: true,
            ..context(Some("public"))
        },
    );
    assert!(matches!(
        refreshing.requests.as_slice(),
        [Request::ReconciliationUnavailable(Some(zone))] if zone == "public"
    ));
}

#[test]
fn default_and_daemon_completions_finish_before_their_refreshes() {
    let mut state = State::default();
    let default = update(&mut state, Message::DefaultSet(Ok(())), context(None));
    assert!(matches!(
        default.requests.as_slice(),
        [Request::FinishMutation(Ok(())), Request::RefreshDefault]
    ));

    let daemon = update(
        &mut state,
        Message::DaemonControlFinished(Ok(())),
        context(None),
    );
    assert!(matches!(
        daemon.requests.as_slice(),
        [Request::FinishMutation(Ok(())), Request::RefreshStatus]
    ));
}

#[test]
fn deleting_the_selected_zone_clears_details_before_dirty_finish_and_reload() {
    let mut state = State {
        detail: ZoneViewState::Ready(Box::new(details("public"))),
        firewalld_status: FirewalldStatus::Active,
    };
    let outcome = update(
        &mut state,
        Message::Deleted {
            zone_name: "public".into(),
            result: Ok(()),
        },
        context(Some("public")),
    );

    assert!(matches!(state.detail(), ZoneViewState::Empty));
    assert!(matches!(
        outcome.requests.as_slice(),
        [
            Request::ReconciliationUnavailable(None),
            Request::MarkRuntimeDirty,
            Request::FinishMutation(Ok(())),
            Request::RefreshZones,
        ]
    ));
}

#[test]
fn non_current_item_success_finishes_without_reloading_details() {
    let mut state = State::default();
    let outcome = update(
        &mut state,
        Message::ItemRemoved {
            zone_name: "work".into(),
            result: Ok(()),
        },
        context(Some("public")),
    );

    assert!(matches!(
        outcome.requests.as_slice(),
        [Request::MarkRuntimeDirty, Request::FinishMutation(Ok(()))]
    ));
}

#[test]
fn status_load_failure_is_recorded_with_its_message() {
    let mut state = State::default();
    let outcome = update(
        &mut state,
        Message::FirewalldStatusLoaded(Err(cosmic_gfwd::broker::BrokerError::new(
            "no systemd".into(),
        ))),
        context(None),
    );

    assert_eq!(
        state.firewalld_status(),
        &FirewalldStatus::Error("no systemd".into())
    );
    assert!(matches!(
        outcome.requests.as_slice(),
        [Request::ReconciliationUnavailable(None)]
    ));
}

#[test]
fn list_error_is_shown_in_the_zone_pane() {
    let mut state = State::default();
    update(&mut state, Message::ShowListError("offline".into()), context(None));

    assert!(matches!(
        state.detail(),
        ZoneViewState::Error { zone, message } if zone == "zones" && message == "offline"
    ));
}
