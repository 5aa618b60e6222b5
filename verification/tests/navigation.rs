use cosmic_gfwd::navigation::{
    menu_action, select, selection_outcome_for, update, MenuAction, Message, Request, Sidebar,
    SidebarItem, SidebarLabel,
};
use cosmic_gfwd::pages::ContextPage;

fn zone_id(state: &Sidebar, zone: &str) -> Option<usize> {
    state
        .items()
        .iter()
        .position(|item| matches!(item, SidebarItem::Zone { name, .. } if name == zone))
}

#[test]
fn zone_selection_loads_before_refreshing_title() {
    let mut state = Sidebar::new();
    state.set_zones(vec!["public".to_string()]);
    let id = zone_id(&state, "public").expect("zone is materialized");
    let outcome = select(&mut state, id);

    assert_eq!(
        outcome.requests,
        &[
            Request::LoadZone("public".to_string()),
            Request::RefreshTitle
        ]
    );
    assert!(matches!(state.active_item(), SidebarItem::Zone { name, .. } if name == "public"));
}

#[test]
fn ipsets_selection_requests_list_load() {
    let mut state = Sidebar::new();
    let id = state.active_index();

    assert_eq!(
        select(&mut state, id).requests,
        &[Request::LoadIpSets, Request::RefreshTitle]
    );
}

#[test]
fn non_zone_selection_clears_reconciliation_before_title_refresh() {
    assert_eq!(
        selection_outcome_for(Some(&SidebarItem::Loading)).requests,
        &[Request::ClearSelectedZone, Request::RefreshTitle]
    );
}

#[test]
fn zone_menu_actions_preserve_request_order() {
    let mut state = Sidebar::new();
    state.set_zones(vec!["public".to_string()]);
    let id = zone_id(&state, "public").expect("zone is materialized");

    assert_eq!(
        menu_action(&mut state, MenuAction::AssignInterface(id)).requests,
        &[
            Request::LoadZone("public".to_string()),
            Request::RefreshTitle,
            Request::OpenContextPage(ContextPage::AddInterface),
        ]
    );
    assert_eq!(
        menu_action(&mut state, MenuAction::SetDefault(id)).requests,
        &[Request::SetDefaultZone("public".to_string())]
    );
    assert_eq!(
        menu_action(&mut state, MenuAction::Rename(id)).requests,
        &[Request::RenameZone("public".to_string())]
    );
    assert_eq!(
        menu_action(&mut state, MenuAction::Delete(id)).requests,
        &[Request::ConfirmDeleteZone("public".to_string())]
    );
}

#[test]
fn zone_projections_preserve_loading_error_default_and_active_indicators() {
    let mut state = Sidebar::new();
    assert!(state.is_loading());
    state.set_zones(vec!["public".to_string(), "home".to_string()]);
    state.set_default_zone(Some("home".to_string()));
    state.set_active_zones(vec!["public".to_string()]);

    assert!(matches!(state.active_item(), SidebarItem::IpSets));
    assert_eq!(state.zone_indicators("public"), Some((false, true)));
    assert_eq!(state.zone_indicators("home"), Some((true, false)));

    state.set_filter("pub".into());
    assert!(state.zone_exists("home"));
    assert_eq!(state.zone_indicators("public"), Some((false, true)));
    assert_eq!(state.zone_indicators("home"), None);

    let _ = update(&mut state, Message::ZonesLoaded(Err("offline".to_string())));
    assert_eq!(state.error_message(), Some("offline"));
}

#[test]
fn filter_is_case_insensitive_and_trimmed() {
    let mut state = Sidebar::new();
    state.set_zones(vec!["Public".to_string(), "home".to_string()]);
    state.set_filter("  PUB ".into());

    assert!(zone_id(&state, "Public").is_some());
    assert!(zone_id(&state, "home").is_none());

    state.set_filter("   ".into());
    assert!(zone_id(&state, "home").is_some());
}

#[test]
fn selection_follows_the_zone_across_rebuilds_and_renames() {
    let mut state = Sidebar::new();
    state.set_zones(vec!["public".to_string(), "work".to_string()]);
    let id = zone_id(&state, "work").unwrap();
    select(&mut state, id);

    state.set_zones(vec!["home".to_string(), "public".to_string(), "work".to_string()]);
    assert!(matches!(state.active_item(), SidebarItem::Zone { name, .. } if name == "work"));

    state.preserve_zone_rename("work", "office");
    state.set_zones(vec!["office".to_string(), "public".to_string()]);
    assert!(matches!(state.active_item(), SidebarItem::Zone { name, .. } if name == "office"));
}

#[test]
fn removed_selection_falls_back_to_the_ipset_page() {
    let mut state = Sidebar::new();
    state.set_zones(vec!["public".to_string()]);
    let id = zone_id(&state, "public").unwrap();
    select(&mut state, id);

    let outcome = update(&mut state, Message::ZonesLoaded(Ok(vec!["work".to_string()])));

    assert!(matches!(state.active_item(), SidebarItem::IpSets));
    assert_eq!(
        outcome.requests,
        &[
            Request::LoadDefaultZone,
            Request::LoadActiveZones,
            Request::ClearSelectedZone,
            Request::FinishConfigurationRefresh,
            Request::RefreshTitle
        ]
    );
}

#[test]
fn empty_zone_list_shows_the_empty_marker() {
    let mut state = Sidebar::new();
    state.set_zones(Vec::new());

    assert_eq!(state.items(), &[SidebarItem::IpSets, SidebarItem::Empty]);
}

#[test]
fn labels_carry_the_zone_indicators() {
    let zone = |is_default, is_active| SidebarItem::Zone {
        name: "public".into(),
        is_default,
        is_active,
    };
    assert_eq!(zone(true, true).label(), SidebarLabel::DefaultActiveZone("public".into()));
    assert_eq!(zone(true, false).label(), SidebarLabel::DefaultZone("public".into()));
    assert_eq!(zone(false, true).label(), SidebarLabel::ActiveZone("public".into()));
    assert_eq!(zone(false, false).label(), SidebarLabel::Zone("public".into()));
    assert_eq!(SidebarItem::Error("x".into()).label(), SidebarLabel::ZoneListError);
}

#[test]
fn menu_actions_on_non_zone_entries_do_nothing() {
    let mut state = Sidebar::new();
    assert!(menu_action(&mut state, MenuAction::Delete(0)).requests.is_empty());
    assert!(menu_action(&mut state, MenuAction::AssignInterface(9)).requests.is_empty());
}
