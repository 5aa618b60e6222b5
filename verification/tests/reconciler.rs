use cosmic_gfwd::broker::BrokerError;
use cosmic_gfwd::events::{ConfigurationEvent, RefreshRequest};
use cosmic_gfwd::reconciler::{
    update, Context, Effect, Message, Mutation, ReconciliationAction, Request, State,
};
use cosmic_gfwd::reconciliation::{
    ComparisonCompleteness, ZoneReconciliation, ZoneReconciliationData, ZoneReconciliationState,
    ZoneSettingsSnapshot,
};

fn in_sync_data() -> ZoneReconciliationData {
    ZoneReconciliationData {
        permanent: ZoneSettingsSnapshot::default(),
        runtime: ZoneSettingsSnapshot::default(),
        reconciliation: ZoneReconciliation {
            differences: Vec::new(),
            completeness: ComparisonCompleteness::Complete,
        },
    }
}

fn context() -> Context<'static> {
    Context {
        selected_zone: Some("public"),
        ready_zone: Some("public"),
        firewalld_active: true,
        mutation_pending: false,
    }
}

#[test]
fn reconciliation_selection_changes_reset_state_and_advance_identity() {
    let mut controller = State::default();

    let first = controller.selection_changed(Some("public".into()));
    let second = controller.selection_changed(Some("work".into()));

    assert_ne!(first, second);
    assert_eq!(controller.selected_zone(), Some("work"));
    assert!(matches!(
        controller.state(),
        ZoneReconciliationState::Unavailable { .. }
    ));
}

#[test]
fn reconciliation_stale_zone_and_generation_responses_are_ignored() {
    let mut controller = State::default();
    controller.selection_changed(Some("public".into()));
    let stale_generation = controller.begin_load("public".into());
    controller.selection_changed(Some("work".into()));
    let current_generation = controller.begin_load("work".into());

    assert!(!controller.complete_load("public".into(), stale_generation, Ok(in_sync_data()),));
    assert!(
        !controller.complete_load("public".into(), current_generation, Ok(in_sync_data()),)
    );
    assert_eq!(controller.selected_zone(), Some("work"));
}

#[test]
fn reconciliation_event_burst_during_load_schedules_one_follow_up() {
    let mut controller = State::default();
    controller.selection_changed(Some("public".into()));
    controller.begin_load("public".into());

    assert_eq!(
        controller.handle_configuration_event(true),
        RefreshRequest::Coalesced
    );
    assert_eq!(
        controller.handle_configuration_event(true),
        RefreshRequest::Coalesced
    );
    assert!(controller.refresh_finished());
    assert!(!controller.refresh_finished());
}

#[test]
fn reconciliation_successful_refresh_can_return_to_idle() {
    let mut controller = State::default();
    assert_eq!(
        controller.handle_configuration_event(false),
        RefreshRequest::Start
    );

    assert!(!controller.refresh_finished());
}

#[test]
fn reconciliation_failed_refresh_can_recover_with_queued_work() {
    let mut controller = State::default();
    assert_eq!(
        controller.handle_configuration_event(false),
        RefreshRequest::Start
    );
    assert_eq!(
        controller.handle_configuration_event(false),
        RefreshRequest::Coalesced
    );

    assert!(controller.refresh_finished());
    assert!(!controller.refresh_finished());
}

#[test]
fn reconciliation_watcher_failure_and_recovery_preserve_manual_state() {
    let mut controller = State::default();
    controller.selection_changed(Some("public".into()));
    controller.watcher_failed("permission denied".into());

    assert_eq!(controller.watch_warning(), Some("permission denied"));
    assert_eq!(controller.selected_zone(), Some("public"));

    controller.handle_configuration_event(false);
    assert_eq!(controller.watch_warning(), None);
}

#[test]
fn reconciliation_successful_and_failed_loads_preserve_selected_zone() {
    let mut controller = State::default();
    controller.selection_changed(Some("public".into()));
    let generation = controller.begin_load("public".into());
    assert!(controller.complete_load("public".into(), generation, Ok(in_sync_data()),));
    assert!(matches!(
        controller.state(),
        ZoneReconciliationState::InSync { .. }
    ));

    let generation = controller.begin_load("public".into());
    assert!(controller.complete_load(
        "public".into(),
        generation,
        Err("runtime unavailable".into()),
    ));
    assert!(matches!(
        controller.state(),
        ZoneReconciliationState::Error { .. }
    ));
    assert_eq!(controller.selected_zone(), Some("public"));
}

#[test]
fn reconciliation_permanent_zone_rename_rebinds_selection() {
    let mut controller = State::default();
    controller.selection_changed(Some("old".into()));

    controller.selection_changed(Some("new".into()));

    assert_eq!(controller.selected_zone(), Some("new"));
}

#[test]
fn mod_selection_changes_reset_state_and_advance_identity() {
    let mut controller = State::default();

    let first = controller.selection_changed(Some("public".into()));
    let second = controller.selection_changed(Some("work".into()));

    assert_ne!(first, second);
    assert_eq!(controller.selected_zone(), Some("work"));
    assert!(matches!(
        controller.state(),
        ZoneReconciliationState::Unavailable { .. }
    ));
}

#[test]
fn mod_stale_zone_and_generation_responses_are_ignored() {
    let mut controller = State::default();
    controller.selection_changed(Some("public".into()));
    let stale_generation = controller.begin_load("public".into());
    controller.selection_changed(Some("work".into()));
    let current_generation = controller.begin_load("work".into());

    assert!(!controller.complete_load("public".into(), stale_generation, Ok(in_sync_data()),));
    assert!(
        !controller.complete_load("public".into(), current_generation, Ok(in_sync_data()),)
    );
    assert_eq!(controller.selected_zone(), Some("work"));
}

#[test]
fn mod_event_burst_during_load_schedules_one_follow_up() {
    let mut controller = State::default();
    controller.selection_changed(Some("public".into()));
    controller.begin_load("public".into());

    assert_eq!(
        controller.handle_configuration_event(true),
        RefreshRequest::Coalesced
    );
    assert_eq!(
        controller.handle_configuration_event(true),
        RefreshRequest::Coalesced
    );
    assert!(controller.refresh_finished());
    assert!(!controller.refresh_finished());
}

#[test]
fn mod_successful_refresh_can_return_to_idle() {
    let mut controller = State::default();
    assert_eq!(
        controller.handle_configuration_event(false),
        RefreshRequest::Start
    );

    assert!(!controller.refresh_finished());
}

#[test]
fn mod_failed_refresh_can_recover_with_queued_work() {
    let mut controller = State::default();
    assert_eq!(
        controller.handle_configuration_event(false),
        RefreshRequest::Start
    );
    assert_eq!(
        controller.handle_configuration_event(false),
        RefreshRequest::Coalesced
    );

    assert!(controller.refresh_finished());
    assert!(!controller.refresh_finished());
}

#[test]
fn mod_watcher_failure_and_recovery_preserve_manual_state() {
    let mut controller = State::default();
    controller.selection_changed(Some("public".into()));
    controller.watcher_failed("permission denied".into());

    assert_eq!(controller.watch_warning(), Some("permission denied"));
    assert_eq!(controller.selected_zone(), Some("public"));

    controller.handle_configuration_event(false);
    assert_eq!(controller.watch_warning(), None);
}

#[test]
fn mod_successful_and_failed_loads_preserve_selected_zone() {
    let mut controller = State::default();
    controller.selection_changed(Some("public".into()));
    let generation = controller.begin_load("public".into());
    assert!(controller.complete_load("public".into(), generation, Ok(in_sync_data()),));
    assert!(matches!(
        controller.state(),
        ZoneReconciliationState::InSync { .. }
    ));

    let generation = controller.begin_load("public".into());
    assert!(controller.complete_load(
        "public".into(),
        generation,
        Err("runtime unavailable".into()),
    ));
    assert!(matches!(
        controller.state(),
        ZoneReconciliationState::Error { .. }
    ));
    assert_eq!(controller.selected_zone(), Some("public"));
}

#[test]
fn mod_permanent_zone_rename_rebinds_selection() {
    let mut controller = State::default();
    controller.selection_changed(Some("old".into()));

    controller.selection_changed(Some("new".into()));

    assert_eq!(controller.selected_zone(), Some("new"));
}

#[test]
fn global_directions_request_separate_confirmations() {
    let mut controller = State::default();

    let apply = update(
        &mut controller,
        Message::Action(ReconciliationAction::ApplyPermanentToRuntime),
        context(),
    );
    let persist = update(
        &mut controller,
        Message::Action(ReconciliationAction::SaveRuntimeAsPermanent),
        context(),
    );

    assert!(matches!(
        apply.requests.as_slice(),
        [Request::ConfirmApplyPermanent]
    ));
    assert!(matches!(
        persist.requests.as_slice(),
        [Request::ConfirmPersistRuntime]
    ));
}

#[test]
fn permanent_apply_success_clears_dirty_before_finishing_and_refreshing() {
    let mut controller = State::default();

    let outcome = update(
        &mut controller,
        Message::PermanentApplied(Ok(())),
        context(),
    );

    assert!(matches!(
        outcome.requests.as_slice(),
        [
            Request::ClearRuntimeDirty,
            Request::FinishMutation(Ok(())),
            Request::RefreshFirewalldStatus,
            Request::RefreshZones
        ]
    ));
}

#[test]
fn failed_permanent_apply_only_finishes_and_refreshes_status() {
    let mut controller = State::default();

    let outcome = update(
        &mut controller,
        Message::PermanentApplied(Err(BrokerError::new("denied".into()))),
        context(),
    );

    assert!(matches!(
        outcome.requests.as_slice(),
        [Request::FinishMutation(Err(_)), Request::RefreshFirewalldStatus]
    ));
}

#[test]
fn runtime_persist_success_refreshes_everything() {
    let mut controller = State::default();

    let outcome = update(&mut controller, Message::RuntimePersisted(Ok(())), context());

    assert!(matches!(
        outcome.requests.as_slice(),
        [
            Request::FinishMutation(Ok(())),
            Request::RefreshFirewalldStatus,
            Request::RefreshZones,
            Request::RefreshIpSets,
            Request::RefreshCatalogs
        ]
    ));
}

#[test]
fn refresh_action_loads_the_selected_zone_with_the_current_identity() {
    let mut controller = State::default();
    let generation = controller.selection_changed(Some("public".into()));

    let outcome = update(
        &mut controller,
        Message::Action(ReconciliationAction::Refresh),
        context(),
    );

    assert_eq!(
        outcome.effects,
        [Effect::Load {
            zone: "public".into(),
            generation
        }]
    );
    assert!(controller.is_loading());
}

#[test]
fn refresh_while_firewalld_is_inactive_marks_the_comparison_unavailable() {
    let mut controller = State::default();
    controller.selection_changed(Some("public".into()));

    let outcome = update(
        &mut controller,
        Message::Action(ReconciliationAction::Refresh),
        Context {
            firewalld_active: false,
            ..context()
        },
    );

    assert!(outcome.effects.is_empty());
    assert!(matches!(
        controller.state(),
        ZoneReconciliationState::Unavailable { zone: Some(zone) } if zone == "public"
    ));
}

#[test]
fn mutations_wait_for_the_global_slot() {
    let mut controller = State::default();

    let blocked = update(
        &mut controller,
        Message::ApplyPermanent,
        Context {
            mutation_pending: true,
            ..context()
        },
    );
    assert!(blocked.effects.is_empty());
    assert!(blocked.requests.is_empty());

    let started = update(&mut controller, Message::PersistRuntime, context());
    assert_eq!(started.effects, [Effect::PersistRuntime]);
    assert!(matches!(
        started.requests.as_slice(),
        [Request::BeginMutation(Mutation::PersistRuntime)]
    ));
}

#[test]
fn completed_load_with_a_queued_event_schedules_a_reload_refresh() {
    let mut controller = State::default();
    controller.selection_changed(Some("public".into()));
    let generation = controller.begin_load("public".into());
    let event = update(
        &mut controller,
        Message::ConfigurationEvent(Ok(ConfigurationEvent::Reloaded)),
        context(),
    );
    assert!(event.requests.is_empty());

    let outcome = update(
        &mut controller,
        Message::LoadCompleted {
            zone: "public".into(),
            generation,
            result: Box::new(Ok(in_sync_data())),
        },
        context(),
    );

    assert!(matches!(
        outcome.requests.as_slice(),
        [Request::ConfigurationRefresh(ConfigurationEvent::Reloaded)]
    ));
    assert!(controller.last_checked_age_seconds().is_some());
}

#[test]
fn load_completion_for_a_zone_that_is_not_ready_is_ignored() {
    let mut controller = State::default();
    controller.selection_changed(Some("public".into()));
    let generation = controller.begin_load("public".into());

    let outcome = update(
        &mut controller,
        Message::LoadCompleted {
            zone: "public".into(),
            generation,
            result: Box::new(Ok(in_sync_data())),
        },
        Context {
            ready_zone: None,
            ..context()
        },
    );

    assert!(outcome.requests.is_empty());
    assert!(controller.is_loading());
    assert!(controller.last_checked_age_seconds().is_none());
}

#[test]
fn watcher_errors_become_warnings() {
    let mut controller = State::default();

    let outcome = update(
        &mut controller,
        Message::ConfigurationEvent(Err("bus closed".into())),
        context(),
    );

    assert!(outcome.requests.is_empty());
    assert_eq!(controller.watch_warning(), Some("bus closed"));
}
