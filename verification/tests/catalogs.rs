use cosmic_gfwd::broker::BrokerError;
use cosmic_gfwd::catalogs::{update, CatalogState, Context, Effect, Message, Request, State};
use cosmic_gfwd::models::IcmpTypeInfo;

#[test]
fn begin_marks_loading_and_retains_previous_items() {
    let mut catalog = CatalogState::default();
    catalog.finish(vec!["old"]);

    catalog.begin_load();

    assert!(catalog.is_loading());
    assert_eq!(catalog.items(), ["old"]);
    assert_eq!(catalog.error(), None);
}

#[test]
fn success_replaces_items_and_clears_loading() {
    let mut catalog = CatalogState::default();
    catalog.begin_load();

    catalog.finish(vec!["new"]);

    assert!(!catalog.is_loading());
    assert_eq!(catalog.items(), ["new"]);
    assert_eq!(catalog.error(), None);
}

#[test]
fn failure_discards_items_and_exposes_exact_error() {
    let mut catalog = CatalogState::default();
    catalog.finish(vec!["cached"]);
    catalog.begin_load();

    catalog.fail("permission denied".into());

    assert!(!catalog.is_loading());
    assert!(catalog.items().is_empty());
    assert_eq!(catalog.error(), Some("permission denied"));
}

#[test]
fn retry_clears_previous_error_without_discarding_items() {
    let mut catalog = CatalogState::default();
    catalog.finish(vec!["cached"]);
    catalog.fail("temporary failure".into());

    catalog.begin_load();

    assert!(catalog.is_loading());
    assert!(catalog.items().is_empty());
    assert_eq!(catalog.error(), None);
}

#[test]
fn failure_can_be_replaced_by_later_success() {
    let mut catalog = CatalogState::default();
    catalog.fail("temporary failure".into());

    catalog.begin_load();
    catalog.finish(vec!["recovered"]);

    assert_eq!(catalog.items(), ["recovered"]);
    assert_eq!(catalog.error(), None);
}

#[test]
fn interface_refresh_requests_invalid_selection_clear() {
    let mut state = State::default();

    let outcome = update(
        &mut state,
        Message::Interfaces(Ok(vec!["eth0".into()])),
        Context {
            selected_interface: "wlan0",
        },
    );

    assert_eq!(outcome.requests, [Request::ClearInterfaceSelection]);
}

#[test]
fn interface_refresh_preserves_valid_selection() {
    let mut state = State::default();

    let outcome = update(
        &mut state,
        Message::Interfaces(Ok(vec!["eth0".into()])),
        Context {
            selected_interface: "eth0",
        },
    );

    assert!(outcome.requests.is_empty());
}

#[test]
fn empty_interface_refresh_keeps_the_selection() {
    let mut state = State::default();

    let outcome = update(
        &mut state,
        Message::Interfaces(Ok(Vec::new())),
        Context {
            selected_interface: "wlan0",
        },
    );

    assert!(outcome.requests.is_empty());
    assert!(outcome.effects.is_empty());
}

#[test]
fn interface_load_request_clears_items_and_starts_discovery() {
    let mut state = State::default();
    state.interfaces.finish(vec!["eth0".to_string()]);

    let outcome = update(
        &mut state,
        Message::LoadInterfaces,
        Context {
            selected_interface: "",
        },
    );

    assert_eq!(outcome.effects, [Effect::Interfaces]);
    assert!(state.interfaces.is_loading());
    assert!(state.interfaces.items().is_empty());
}

#[test]
fn service_load_keeps_cached_items() {
    let mut state = State::default();
    state.services.finish(vec!["ssh".to_string()]);

    let outcome = update(
        &mut state,
        Message::LoadServices,
        Context {
            selected_interface: "",
        },
    );

    assert_eq!(outcome.effects, [Effect::Services]);
    assert_eq!(state.services.items(), ["ssh".to_string()]);
    assert!(state.services.is_loading());
}

#[test]
fn failed_icmp_load_reports_the_broker_error() {
    let mut state = State::default();
    state.icmp_types.finish(vec![IcmpTypeInfo {
        name: "echo-request".into(),
        description: "Echo".into(),
    }]);

    let outcome = update(
        &mut state,
        Message::IcmpTypes(Err(BrokerError::new("no bus".into()))),
        Context {
            selected_interface: "",
        },
    );

    assert!(outcome.effects.is_empty());
    assert!(state.icmp_types.items().is_empty());
    assert_eq!(state.icmp_types.error(), Some("no bus"));
}
