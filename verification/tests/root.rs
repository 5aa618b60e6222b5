use cosmic_gfwd::broker::BrokerError;
use cosmic_gfwd::catalogs;
use cosmic_gfwd::dialogs::{DialogKind, Request as DialogRequest, Submission};
use cosmic_gfwd::events::ConfigurationEvent;
use cosmic_gfwd::ipsets;
use cosmic_gfwd::models::ZoneTarget;
use cosmic_gfwd::navigation::{Request as NavigationRequest, Sidebar};
use cosmic_gfwd::pages::ContextPage;
use cosmic_gfwd::reconciler;
use cosmic_gfwd::refresh::ConfigurationRefreshPlan;
use cosmic_gfwd::root::{
    apply_catalog_request, apply_dialog_request, apply_ipset_request, apply_navigation_request,
    apply_reconciliation_request, apply_zone_request, finish_configuration_refresh,
    start_configuration_refresh, zone_mutation_label, Confirmation, Dispatch, IpSetCommand, Shell,
};
use cosmic_gfwd::zones;

#[test]
fn confirmations_dispatch_their_work_once() {
    let mut shell = Shell::new();
    shell.operations.confirmation = Some(Confirmation::DeleteZone("work".into()));

    let first = shell.confirm_destructive();
    assert!(matches!(first, Some(Dispatch::Zone(zones::Message::Delete(ref zone))) if zone == "work"));
    assert!(shell.confirm_destructive().is_none());

    shell.operations.confirmation = Some(Confirmation::SaveRuntimeConfiguration);
    assert!(matches!(
        shell.confirm_destructive(),
        Some(Dispatch::Reconciliation(reconciler::Message::PersistRuntime))
    ));
    shell.operations.confirmation = Some(Confirmation::StopFirewalld);
    shell.cancel_confirmation();
    assert!(shell.confirm_destructive().is_none());
}

#[test]
fn opening_a_page_resets_its_form_and_loads_its_catalog() {
    let mut shell = Shell::new();
    shell.dialogs.operation_error = Some("old".into());
    shell.dialogs.service.search = "ss".into();

    let load = shell.open_context_page(ContextPage::AddService);

    assert!(matches!(load, Some(catalogs::Message::LoadServices)));
    assert_eq!(shell.context_page, ContextPage::AddService);
    assert!(shell.show_context);
    assert!(shell.dialogs.operation_error.is_none());
    assert!(shell.dialogs.service.search.is_empty());
}

#[test]
fn toggling_a_zone_page_without_a_zone_reports_it_and_toggling_again_closes() {
    let mut shell = Shell::new();

    let load = shell.toggle_context_page(ContextPage::AddPort, false);
    assert!(load.is_none());
    assert!(shell.show_context);
    assert_eq!(shell.dialogs.operation_error.as_deref(), Some("error-select-zone-first"));

    let again = shell.toggle_context_page(ContextPage::AddPort, false);
    assert!(again.is_none());
    assert!(!shell.show_context);

    let icmp = shell.toggle_context_page(ContextPage::AddIcmp, true);
    assert!(matches!(icmp, Some(catalogs::Message::LoadIcmpTypes)));
    assert!(shell.dialogs.operation_error.is_none());
}

#[test]
fn one_mutation_at_a_time_and_failures_reach_the_open_drawer() {
    let mut shell = Shell::new();
    let mut reconciliation = reconciler::State::default();
    shell.show_context = true;
    shell.dialogs.operation_error = Some("stale".into());

    assert!(shell.begin_mutation("operation-add-port"));
    assert!(shell.dialogs.operation_error.is_none());
    assert!(!shell.begin_mutation("operation-add-source"));

    let report = shell.finish_mutation(&mut reconciliation, &Err(BrokerError::new("denied".into())));
    assert_eq!(report.operation, "operation-add-port");
    assert_eq!(report.error.as_deref(), Some("denied"));
    assert!(!report.refresh);
    assert_eq!(shell.dialogs.operation_error.as_deref(), Some("denied"));

    let fallback = shell.finish_mutation(&mut reconciliation, &Ok(()));
    assert_eq!(fallback.operation, "operation-change");
    assert!(fallback.error.is_none());
}

#[test]
fn zone_requests_update_root_state_and_hand_on_work() {
    let mut shell = Shell::new();
    let mut navigation = Sidebar::new();
    let mut reconciliation = reconciler::State::default();

    let work = apply_zone_request(
        &mut shell,
        &mut navigation,
        &mut reconciliation,
        zones::Request::ConfirmDeleteZone("work".into()),
    );
    assert!(work.is_empty());
    assert_eq!(shell.operations.confirmation, Some(Confirmation::DeleteZone("work".into())));

    let work = apply_zone_request(
        &mut shell,
        &mut navigation,
        &mut reconciliation,
        zones::Request::BeginMutation(zones::Mutation::AddService),
    );
    assert!(work.is_empty());
    assert_eq!(shell.operations.pending.as_deref(), Some("operation-add-service"));

    let work = apply_zone_request(
        &mut shell,
        &mut navigation,
        &mut reconciliation,
        zones::Request::RefreshCurrentZone("work".into()),
    );
    assert!(matches!(work.as_slice(), [Dispatch::Zone(zones::Message::LoadDetails(zone))] if zone == "work"));

    apply_zone_request(&mut shell, &mut navigation, &mut reconciliation, zones::Request::MarkRuntimeDirty);
    assert!(shell.operations.runtime_reload_needed);

    apply_zone_request(
        &mut shell,
        &mut navigation,
        &mut reconciliation,
        zones::Request::ReconciliationSelectionChanged(Some("work".into())),
    );
    assert_eq!(reconciliation.selected_zone(), Some("work"));
    assert_eq!(zone_mutation_label(zones::Mutation::StopFirewalld), "operation-stop-firewalld");
}

#[test]
fn navigation_requests_route_to_features() {
    let mut shell = Shell::new();
    let zones_state = zones::State::default();

    let work = apply_navigation_request(&mut shell, &zones_state, NavigationRequest::ClearSelectedZone);
    assert!(matches!(
        work.as_slice(),
        [Dispatch::Zone(zones::Message::ClearSelection), Dispatch::ReconciliationUnavailable(None)]
    ));

    let work = apply_navigation_request(&mut shell, &zones_state, NavigationRequest::LoadIpSets);
    assert!(matches!(work.as_slice(), [Dispatch::IpSet(IpSetCommand::LoadList)]));

    let work = apply_navigation_request(
        &mut shell,
        &zones_state,
        NavigationRequest::ToggleContextPage(ContextPage::AddInterface),
    );
    assert!(matches!(work.as_slice(), [Dispatch::Catalog(catalogs::Message::LoadInterfaces)]));
    assert_eq!(shell.dialogs.operation_error.as_deref(), Some("error-select-zone-first"));
}

#[test]
fn submissions_reach_the_feature_that_performs_them() {
    let mut shell = Shell::new();
    let work = apply_dialog_request(
        &mut shell,
        DialogRequest::Submit(Submission::Zone {
            rename_from: None,
            name: "lab".into(),
            description: "Lab".into(),
            target: ZoneTarget::Drop,
        }),
    );
    assert!(matches!(
        work.as_slice(),
        [Dispatch::Zone(zones::Message::Create { name, target: ZoneTarget::Drop, .. })] if name == "lab"
    ));

    let work = apply_dialog_request(
        &mut shell,
        DialogRequest::Submit(Submission::IpSet {
            name: "blocked".into(),
            ipset_type: "hash:ip".into(),
            entries: vec!["192.0.2.1".into()],
        }),
    );
    assert!(matches!(
        work.as_slice(),
        [Dispatch::IpSet(IpSetCommand::Create { name, .. })] if name == "blocked"
    ));

    shell.show_context = true;
    assert!(apply_dialog_request(&mut shell, DialogRequest::CloseDrawer).is_empty());
    assert!(!shell.show_context);
    let _ = DialogKind::Zone;
}

#[test]
fn ipset_catalog_and_reconciliation_requests() {
    let mut shell = Shell::new();
    apply_ipset_request(&mut shell, ipsets::Request::ConfirmDelete("blocked".into()));
    assert_eq!(shell.operations.confirmation, Some(Confirmation::DeleteIpSet("blocked".into())));

    shell.dialogs.interface.interface = "eth9".into();
    apply_catalog_request(&mut shell, catalogs::Request::ClearInterfaceSelection);
    assert!(shell.dialogs.interface.interface.is_empty());

    let work = apply_reconciliation_request(&mut shell, reconciler::Request::RefreshCatalogs);
    assert!(matches!(
        work.as_slice(),
        [
            Dispatch::Catalog(catalogs::Message::LoadServices),
            Dispatch::Catalog(catalogs::Message::LoadIcmpTypes),
            Dispatch::Catalog(catalogs::Message::LoadInterfaces),
        ]
    ));
    assert!(apply_reconciliation_request(&mut shell, reconciler::Request::OpenReview).is_empty());
    assert_eq!(shell.context_page, ContextPage::ReviewReconciliation);
    apply_reconciliation_request(&mut shell, reconciler::Request::ConfirmApplyPermanent);
    assert_eq!(shell.operations.confirmation, Some(Confirmation::ApplyPermanentConfiguration));
}

#[test]
fn a_full_reload_follows_the_fixed_order() {
    let mut navigation = Sidebar::new();
    let work = start_configuration_refresh(&mut navigation, ConfigurationRefreshPlan::ReloadEverything);
    assert!(matches!(
        work.as_slice(),
        [
            Dispatch::Zone(zones::Message::LoadStatus),
            Dispatch::Zone(zones::Message::LoadList),
            Dispatch::IpSet(IpSetCommand::LoadList),
            Dispatch::Catalog(catalogs::Message::LoadServices),
            Dispatch::Catalog(catalogs::Message::LoadIcmpTypes),
            Dispatch::Catalog(catalogs::Message::LoadInterfaces),
        ]
    ));
    let work = start_configuration_refresh(&mut navigation, ConfigurationRefreshPlan::FinishWithoutReload);
    assert!(matches!(work.as_slice(), [Dispatch::FinishConfigurationRefresh]));
}

#[test]
fn finishing_a_refresh_starts_one_deferred_reload() {
    let mut reconciliation = reconciler::State::default();
    assert!(finish_configuration_refresh(&mut reconciliation).is_empty());
}

#[test]
fn deferred_refresh_is_reported_when_the_mutation_finishes() {
    let mut shell = Shell::new();
    let mut reconciliation = reconciler::State::default();
    let _ = reconciler::update(
        &mut reconciliation,
        reconciler::Message::ConfigurationEvent(Ok(ConfigurationEvent::Reloaded)),
        reconciler::Context {
            selected_zone: None,
            ready_zone: None,
            firewalld_active: true,
            mutation_pending: true,
        },
    );
    assert!(shell.begin_mutation("operation-add-port"));
    let report = shell.finish_mutation(&mut reconciliation, &Ok(()));
    assert!(report.refresh);
}
