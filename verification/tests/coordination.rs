use cosmic_gfwd::dialogs::{self, DialogKind, DialogMessage, DialogState};
use cosmic_gfwd::events::{ConfigurationEvent, RefreshRequest};
use cosmic_gfwd::navigation::{self, Sidebar, SidebarItem};
use cosmic_gfwd::operations;
use cosmic_gfwd::outcome::Outcome;
use cosmic_gfwd::reconciler;
use cosmic_gfwd::refresh::{
    plan_configuration_refresh, reload_everything_steps, ConfigurationRefreshContext,
    ConfigurationRefreshPlan, ReloadEverythingStep,
};
use cosmic_gfwd::router::Router;

fn zone_id(state: &Sidebar, zone: &str) -> usize {
    state
        .items()
        .iter()
        .position(|item| matches!(item, SidebarItem::Zone { name, .. } if name == zone))
        .expect("zone is materialized")
}

fn dialog_context(mutation_pending: bool) -> dialogs::Context<'static> {
    dialogs::Context {
        selected_zone: Some("public"),
        interfaces: &[],
        enabled_services: &[],
        blocked_icmp: &[],
        mutation_pending,
    }
}

#[test]
fn append_preserves_effect_and_request_order() {
    let mut outcome = Outcome::request("first request");
    outcome.append(Outcome::effect("first effect"));
    outcome.append(Outcome {
        effects: vec!["second effect"],
        requests: vec!["second request"],
    });

    assert_eq!(outcome.requests, ["first request", "second request"]);
    assert_eq!(outcome.effects, ["first effect", "second effect"]);
}

#[test]
fn requests_are_processed_fifo_before_effects_are_taken() {
    let mut router = Router::new(Outcome {
        effects: vec!["effect one"],
        requests: vec!["request one", "request two"],
    });
    assert_eq!(router.pop_request(), Some("request one"));
    assert_eq!(router.pop_request(), Some("request two"));
    assert_eq!(router.pop_request(), None);
    assert_eq!(router.into_effects(), ["effect one"]);
}

#[test]
fn navigation_selection_work_reaches_root_in_causal_order() {
    let mut state = Sidebar::new();
    state.set_zones(vec!["public".to_string()]);
    let id = zone_id(&state, "public");
    let outcome = navigation::update(&mut state, navigation::Message::Select(id));
    let mut router = Router::new(outcome);

    assert_eq!(
        router.pop_request(),
        Some(navigation::Request::LoadZone("public".into()))
    );
    assert_eq!(router.pop_request(), Some(navigation::Request::RefreshTitle));
    assert!(router.pop_request().is_none());
    assert!(router.into_effects().is_empty());
}

#[test]
fn ipset_selection_reaches_root_before_title_refresh() {
    let mut state = Sidebar::new();
    let id = state.active_index();
    let outcome = navigation::update(&mut state, navigation::Message::Select(id));
    let mut router = Router::new(outcome);

    assert_eq!(router.pop_request(), Some(navigation::Request::LoadIpSets));
    assert_eq!(router.pop_request(), Some(navigation::Request::RefreshTitle));
    assert!(router.pop_request().is_none());
    assert!(router.into_effects().is_empty());
}

#[test]
fn only_one_mutation_can_be_active() {
    let mut state = operations::State::<()>::new();

    assert!(state.begin("first".into()));
    assert!(!state.begin("second".into()));
    assert_eq!(state.finish_label("fallback".into()), "first");
    assert!(state.begin("second".into()));
}

#[test]
fn confirmation_dispatch_is_consumed_once() {
    let mut state = operations::State::<&str>::new();
    state.confirmation = Some("delete");

    assert_eq!(state.confirmation.take(), Some("delete"));
    assert_eq!(state.confirmation.take(), None);
}

#[test]
fn finishing_without_a_mutation_uses_the_fallback_label() {
    let mut state = operations::State::<()>::new();
    assert_eq!(state.pending_label(), None);
    assert_eq!(state.finish_label("change".into()), "change");
    assert!(!state.mutation_pending());
}

#[test]
fn dialog_cancellation_and_pending_mutations_are_routed_safely() {
    let mut state = DialogState::default();
    state.zone.name = "work".into();
    let outcome = dialogs::update(
        &mut state,
        DialogMessage::Cancel(DialogKind::Zone),
        dialog_context(false),
    );
    let mut router = Router::new(outcome);
    assert!(matches!(
        router.pop_request(),
        Some(dialogs::Request::CloseDrawer)
    ));
    assert!(router.pop_request().is_none());
    assert!(router.into_effects().is_empty());

    state.zone.name = "work".into();
    let outcome = dialogs::update(
        &mut state,
        DialogMessage::Submit(DialogKind::Zone),
        dialog_context(true),
    );
    assert!(outcome.requests.is_empty());
}

#[test]
fn reconciliation_refresh_requests_are_drained_fifo() {
    let mut router = Router::new(Outcome::<(), _> {
        effects: Vec::new(),
        requests: vec![
            reconciler::Request::RefreshFirewalldStatus,
            reconciler::Request::RefreshZones,
            reconciler::Request::RefreshIpSets,
            reconciler::Request::RefreshCatalogs,
        ],
    });
    assert!(matches!(
        router.pop_request(),
        Some(reconciler::Request::RefreshFirewalldStatus)
    ));
    assert!(matches!(
        router.pop_request(),
        Some(reconciler::Request::RefreshZones)
    ));
    assert!(matches!(
        router.pop_request(),
        Some(reconciler::Request::RefreshIpSets)
    ));
    assert!(matches!(
        router.pop_request(),
        Some(reconciler::Request::RefreshCatalogs)
    ));
    assert!(router.pop_request().is_none());
    assert!(router.into_effects().is_empty());
}

#[test]
fn deferred_configuration_refresh_is_released_after_mutation_work() {
    let mut state = reconciler::State::default();
    state.selection_changed(Some("public".into()));

    assert_eq!(
        state.handle_configuration_event(true),
        RefreshRequest::Coalesced
    );
    assert!(state.take_deferred_refresh());
    assert!(!state.take_deferred_refresh());
}

#[test]
fn reloaded_configuration_plans_the_complete_ordered_refresh() {
    assert_eq!(
        plan_configuration_refresh(
            ConfigurationEvent::Reloaded,
            ConfigurationRefreshContext {
                selected_zone: Some("public"),
            },
        ),
        ConfigurationRefreshPlan::ReloadEverything
    );
    assert_eq!(
        reload_everything_steps(),
        [
            ReloadEverythingStep::FirewalldStatus,
            ReloadEverythingStep::Zones,
            ReloadEverythingStep::IpSets,
            ReloadEverythingStep::Services,
            ReloadEverythingStep::IcmpTypes,
            ReloadEverythingStep::Interfaces,
        ]
    );
}

#[test]
fn runtime_zone_refresh_only_targets_the_current_reconciliation() {
    assert_eq!(
        plan_configuration_refresh(
            ConfigurationEvent::RuntimeZoneChanged {
                zone: "public".into(),
            },
            ConfigurationRefreshContext {
                selected_zone: Some("public"),
            },
        ),
        ConfigurationRefreshPlan::ReloadCurrentReconciliation {
            zone: "public".into(),
        }
    );
    assert_eq!(
        plan_configuration_refresh(
            ConfigurationEvent::RuntimeZoneChanged {
                zone: "work".into(),
            },
            ConfigurationRefreshContext {
                selected_zone: Some("public"),
            },
        ),
        ConfigurationRefreshPlan::FinishWithoutReload
    );
}

#[test]
fn permanent_zone_update_only_reloads_current_zone_details() {
    assert_eq!(
        plan_configuration_refresh(
            ConfigurationEvent::PermanentZoneUpdated {
                zone: "public".into(),
            },
            ConfigurationRefreshContext {
                selected_zone: Some("public"),
            },
        ),
        ConfigurationRefreshPlan::ReloadCurrentZone {
            zone: "public".into(),
        }
    );
    assert_eq!(
        plan_configuration_refresh(
            ConfigurationEvent::PermanentZoneUpdated {
                zone: "work".into(),
            },
            ConfigurationRefreshContext {
                selected_zone: Some("public"),
            },
        ),
        ConfigurationRefreshPlan::FinishWithoutReload
    );
}

#[test]
fn permanent_removal_reloads_the_zone_list() {
    assert_eq!(
        plan_configuration_refresh(
            ConfigurationEvent::PermanentZoneRemoved {
                zone: "work".into(),
            },
            ConfigurationRefreshContext {
                selected_zone: Some("public"),
            },
        ),
        ConfigurationRefreshPlan::ReloadZones
    );
}

#[test]
fn permanent_rename_preserves_selection_before_reloading_zones() {
    let plan = plan_configuration_refresh(
        ConfigurationEvent::PermanentZoneRenamed {
            old_zone: "public".into(),
            new_zone: "public2".into(),
        },
        ConfigurationRefreshContext {
            selected_zone: Some("public"),
        },
    );
    assert_eq!(
        plan,
        ConfigurationRefreshPlan::PreserveRenameAndReloadZones {
            old_zone: "public".into(),
            new_zone: "public2".into(),
        }
    );

    let mut state = Sidebar::new();
    state.set_zones(vec!["public".into()]);
    let id = zone_id(&state, "public");
    let _ = navigation::update(&mut state, navigation::Message::Select(id));
    state.preserve_zone_rename("public", "public2");
    state.set_zones(vec!["public2".into()]);
    assert!(matches!(
        state.active_item(),
        SidebarItem::Zone { name, .. } if name == "public2"
    ));
}
