use cosmic_gfwd::ipsets::{update_view, Context, Effect, IpSetViewAction, IpSetViewState, Mutation, Request};
use cosmic_gfwd::models::IpSetDetails;
use cosmic_gfwd::validation::ValidationError;

fn with_details() -> IpSetViewState {
    let mut state = IpSetViewState::default();
    state.selected = Some("blocked".into());
    state.details = Some(IpSetDetails {
        name: "blocked".into(),
        ipset_type: "hash:ip".into(),
        entries: Vec::new(),
        options: Vec::new(),
    });
    state
}

#[test]
fn selecting_resets_the_editor_and_loads_details() {
    let mut state = with_details();
    state.entry_input = "x".into();
    let outcome = update_view(&mut state, IpSetViewAction::Select("other".into()), Context { mutation_pending: false });
    assert_eq!(state.selected.as_deref(), Some("other"));
    assert!(state.details.is_none());
    assert!(state.entry_input.is_empty());
    assert!(matches!(outcome.effects.as_slice(), [Effect::Details(name)] if name == "other"));
    assert!(outcome.requests.is_empty());
}

#[test]
fn typed_entries_are_validated_against_the_set_type() {
    let mut state = with_details();
    update_view(&mut state, IpSetViewAction::EntryInputChanged("not-an-ip".into()), Context { mutation_pending: false });
    assert_eq!(state.entry_error, Some(ValidationError::InvalidIpSetEntry));
    update_view(&mut state, IpSetViewAction::EntryInputChanged(" 192.0.2.1 ".into()), Context { mutation_pending: false });
    assert_eq!(state.entry_error, None);
    update_view(&mut state, IpSetViewAction::EntryInputChanged("   ".into()), Context { mutation_pending: false });
    assert_eq!(state.entry_error, None);
}

#[test]
fn adding_a_valid_entry_takes_the_mutation_slot() {
    let mut state = with_details();
    state.entry_input = " 192.0.2.1 ".into();
    let outcome = update_view(&mut state, IpSetViewAction::AddEntry, Context { mutation_pending: false });
    assert_eq!(outcome.requests, vec![Request::BeginMutation(Mutation::AddEntry)]);
    assert!(matches!(
        outcome.effects.as_slice(),
        [Effect::AddEntry { ipset_name, entry }] if ipset_name == "blocked" && entry == "192.0.2.1"
    ));
}

#[test]
fn an_invalid_entry_is_reported_and_nothing_is_sent() {
    let mut state = with_details();
    state.entry_input = "nope".into();
    let outcome = update_view(&mut state, IpSetViewAction::AddEntry, Context { mutation_pending: false });
    assert!(outcome.effects.is_empty() && outcome.requests.is_empty());
    assert_eq!(state.entry_error, Some(ValidationError::InvalidIpSetEntry));
}

#[test]
fn edits_wait_while_another_mutation_runs() {
    let mut state = with_details();
    state.entry_input = "192.0.2.1".into();
    let outcome = update_view(&mut state, IpSetViewAction::RemoveEntry("192.0.2.9".into()), Context { mutation_pending: true });
    assert!(outcome.effects.is_empty() && outcome.requests.is_empty());
    let outcome = update_view(&mut state, IpSetViewAction::RemoveEntry("192.0.2.9".into()), Context { mutation_pending: false });
    assert_eq!(outcome.requests, vec![Request::BeginMutation(Mutation::RemoveEntry)]);
}

#[test]
fn deleting_asks_for_confirmation_of_the_selected_set() {
    let mut state = with_details();
    let outcome = update_view(&mut state, IpSetViewAction::DeleteSelected, Context { mutation_pending: true });
    assert_eq!(outcome.requests, vec![Request::ConfirmDelete("blocked".into())]);
    let mut empty = IpSetViewState::default();
    let outcome = update_view(&mut empty, IpSetViewAction::DeleteSelected, Context { mutation_pending: false });
    assert!(outcome.requests.is_empty());
}
