//! The IP-set page: the list, the selected set and its entry editor, and how
//! page actions turn into broker work and application requests.
use vstd::prelude::*;

use crate::models::IpSetDetails;
use crate::outcome::Outcome;
use crate::text::{chars_of, string_of, trim, trim_chars};
use crate::validation::{ipset_entry_result, validate_ipset_entry, ValidationError};

verus! {

/// The IP-set list, the selection, its details and the entry editor.
#[derive(Debug, Clone)]
pub struct IpSetViewState {
    /// The permanent IP sets.
    pub ipsets: Vec<String>,
    /// The selected IP set.
    pub selected: Option<String>,
    /// The details of the selected IP set, once loaded.
    pub details: Option<IpSetDetails>,
    /// The entry being typed.
    pub entry_input: String,
    /// Why the typed entry is not valid for the selected set.
    pub entry_error: Option<ValidationError>,
    /// Whether the list is loading.
    pub list_loading: bool,
    /// Whether the details are loading.
    pub details_loading: bool,
}

impl Default for IpSetViewState {
    fn default() -> (r: Self)
        ensures
            r.ipsets@.len() == 0,
            r.selected is None,
            r.details is None,
            r.entry_input@.len() == 0,
            r.entry_error is None,
            !r.list_loading,
            !r.details_loading,
    {
        IpSetViewState {
            ipsets: Vec::new(),
            selected: None,
            details: None,
            entry_input: String::new(),
            entry_error: None,
            list_loading: false,
            details_loading: false,
        }
    }
}

/// Actions of the IP-set page.
#[derive(Debug, Clone)]
pub enum IpSetViewAction {
    /// Select an IP set.
    Select(String),
    /// The typed entry changed.
    EntryInputChanged(String),
    /// Add the typed entry.
    AddEntry,
    /// Remove an entry.
    RemoveEntry(String),
    /// Ask for confirmation before deleting the selected IP set.
    DeleteSelected,
}

/// What the IP-set reducer reads from the rest of the application.
pub struct Context {
    /// Whether another part of the application holds the mutation slot.
    pub mutation_pending: bool,
}

/// Broker work of the IP-set page.
#[derive(Clone, Debug)]
pub enum Effect {
    /// Load the details of an IP set.
    Details(String),
    /// Add a validated entry.
    AddEntry { ipset_name: String, entry: String },
    /// Remove an existing entry.
    RemoveEntry { ipset_name: String, entry: String },
}

/// The mutations that the IP-set page starts.
#[derive(Clone, Copy, Debug, Eq, PartialEq, Structural)]
pub enum Mutation {
    AddEntry,
    RemoveEntry,
}

/// Coordination that the IP-set page asks of the application.
#[derive(Clone, Debug, Eq, PartialEq)]
pub enum Request {
    /// Take the global mutation slot.
    BeginMutation(Mutation),
    /// Ask for confirmation before deleting this IP set.
    ConfirmDelete(String),
}

/// The validation error shown for a typed entry: none without loaded details
/// or while the trimmed input is empty, otherwise the entry's validation error.
pub open spec fn entry_feedback(details: Option<IpSetDetails>, input: Seq<char>) -> Option<ValidationError> {
    match details {
        None => None,
        Some(d) => if trim(input).len() == 0 {
            None
        } else {
            match ipset_entry_result(trim(input), d.ipset_type@) {
                Ok(()) => None,
                Err(e) => Some(e),
            }
        },
    }
}

/// Whether an outcome holds no work.
pub open spec fn idle(r: Outcome<Effect, Request>) -> bool {
    r.effects@.len() == 0 && r.requests@.len() == 0
}

/// Applies one action of the IP-set page.
pub fn update_view(state: &mut IpSetViewState, action: IpSetViewAction, context: Context) -> (r: Outcome<
    Effect,
    Request,
>)
    ensures
        context.mutation_pending && (action is AddEntry || action is RemoveEntry) ==> *final(state)
            == *old(state) && idle(r),
        !(context.mutation_pending && (action is AddEntry || action is RemoveEntry)) ==> match action {
            IpSetViewAction::Select(name) => {
                &&& final(state).selected matches Some(s) && s@ == name@
                &&& final(state).details is None
                &&& final(state).entry_error is None
                &&& final(state).entry_input@.len() == 0
                &&& final(state).ipsets == old(state).ipsets
                &&& final(state).list_loading == old(state).list_loading
                &&& final(state).details_loading == old(state).details_loading
                &&& r.effects@ == seq![Effect::Details(name)]
                &&& r.requests@.len() == 0
            },
            IpSetViewAction::EntryInputChanged(value) => {
                &&& final(state).entry_input == value
                &&& final(state).entry_error == entry_feedback(old(state).details, value@)
                &&& final(state).selected == old(state).selected
                &&& final(state).details == old(state).details
                &&& final(state).ipsets == old(state).ipsets
                &&& idle(r)
            },
            IpSetViewAction::AddEntry => match (old(state).selected, old(state).details) {
                (Some(name), Some(details)) => match ipset_entry_result(
                    trim(old(state).entry_input@),
                    details.ipset_type@,
                ) {
                    Err(e) => {
                        &&& final(state).entry_error == Some(e)
                        &&& final(state).entry_input == old(state).entry_input
                        &&& final(state).selected == old(state).selected
                        &&& final(state).details == old(state).details
                        &&& idle(r)
                    },
                    Ok(()) => {
                        &&& *final(state) == *old(state)
                        &&& r.requests@ == seq![Request::BeginMutation(Mutation::AddEntry)]
                        &&& r.effects@.len() == 1
                        &&& r.effects@[0] matches Effect::AddEntry { ipset_name, entry }
                            && ipset_name@ == name@ && entry@ == trim(old(state).entry_input@)
                    },
                },
                _ => *final(state) == *old(state) && idle(r),
            },
            IpSetViewAction::RemoveEntry(entry) => {
                &&& *final(state) == *old(state)
                &&& match old(state).selected {
                    Some(name) => {
                        &&& r.requests@ == seq![Request::BeginMutation(Mutation::RemoveEntry)]
                        &&& r.effects@.len() == 1
                        &&& r.effects@[0] matches Effect::RemoveEntry { ipset_name, entry: e }
                            && ipset_name@ == name@ && e == entry
                    },
                    None => idle(r),
                }
            },
            IpSetViewAction::DeleteSelected => {
                &&& *final(state) == *old(state)
                &&& r.effects@.len() == 0
                &&& match old(state).selected {
                    Some(name) => r.requests@.len() == 1 && (r.requests@[0] matches Request::ConfirmDelete(
                        n,
                    ) && n@ == name@),
                    None => r.requests@.len() == 0,
                }
            },
        },
{
    let editing = match action {
        IpSetViewAction::AddEntry | IpSetViewAction::RemoveEntry(_) => true,
        _ => false,
    };
    if context.mutation_pending && editing {
        return Outcome::default();
    }
    match action {
        IpSetViewAction::Select(name) => {
            state.selected = Some(name.clone());
            state.details = None;
            state.entry_error = None;
            state.entry_input = String::new();
            Outcome::effect(Effect::Details(name))
        },
        IpSetViewAction::EntryInputChanged(value) => {
            state.entry_input = value;
            let feedback = match &state.details {
                None => None,
                Some(details) => {
                    let raw = chars_of(state.entry_input.as_str());
                    let input = string_of(trim_chars(raw.as_slice()).as_slice());
                    if input.as_str().is_empty() {
                        None
                    } else {
                        match validate_ipset_entry(input.as_str(), details.ipset_type.as_str()) {
                            Ok(()) => None,
                            Err(e) => Some(e),
                        }
                    }
                },
            };
            state.entry_error = feedback;
            Outcome::default()
        },
        IpSetViewAction::AddEntry => {
            let name = match &state.selected {
                Some(name) => name.clone(),
                None => {
                    return Outcome::default();
                },
            };
            let kind = match &state.details {
                Some(details) => details.ipset_type.clone(),
                None => {
                    return Outcome::default();
                },
            };
            let raw = chars_of(state.entry_input.as_str());
            let entry = string_of(trim_chars(raw.as_slice()).as_slice());
            match validate_ipset_entry(entry.as_str(), kind.as_str()) {
                Err(error) => {
                    state.entry_error = Some(error);
                    Outcome::default()
                },
                Ok(()) => {
                    let mut outcome = Outcome::effect(Effect::AddEntry { ipset_name: name, entry });
                    outcome.requests.push(Request::BeginMutation(Mutation::AddEntry));
                    outcome
                },
            }
        },
        IpSetViewAction::RemoveEntry(entry) => match &state.selected {
            Some(name) => {
                let mut outcome = Outcome::effect(
                    Effect::RemoveEntry { ipset_name: name.clone(), entry },
                );
                outcome.requests.push(Request::BeginMutation(Mutation::RemoveEntry));
                outcome
            },
            None => Outcome::default(),
        },
        IpSetViewAction::DeleteSelected => match &state.selected {
            Some(name) => Outcome::request(Request::ConfirmDelete(name.clone())),
            None => Outcome::default(),
        },
    }
}

} // verus!
