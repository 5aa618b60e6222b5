//! The option catalogs that dialogs offer: their items, load progress and
//! failures, and how catalog messages change them.
use vstd::prelude::*;

use crate::broker::BrokerError;
use crate::models::IcmpTypeInfo;
use crate::order::views;
use crate::outcome::Outcome;
use crate::text::str_equal;

verus! {

/// Items, progress and failure of one asynchronously loaded catalog.
#[derive(Clone, Debug)]
pub struct CatalogState<T> {
    items: Vec<T>,
    loading: bool,
    error: Option<String>,
}

/// The observable state of a [`CatalogState`].
pub struct CatalogView<T> {
    /// The available items, in order.
    pub items: Seq<T>,
    /// Whether a load is in progress.
    pub loading: bool,
    /// The error of the last failed load.
    pub error: Option<Seq<char>>,
}

impl<T> View for CatalogState<T> {
    type V = CatalogView<T>;

    closed spec fn view(&self) -> CatalogView<T> {
        CatalogView {
            items: self.items@,
            loading: self.loading,
            error: match self.error {
                Some(e) => Some(e@),
                None => None,
            },
        }
    }
}

impl<T> Default for CatalogState<T> {
    fn default() -> (r: Self)
        ensures
            r@.items == Seq::<T>::empty(),
            !r@.loading,
            r@.error is None,
    {
        CatalogState { items: Vec::new(), loading: false, error: None }
    }
}

impl<T> CatalogState<T> {
    /// Begins loading, keeping the current items and clearing an old error.
    pub fn begin_load(&mut self)
        ensures
            final(self)@.items == old(self)@.items,
            final(self)@.loading,
            final(self)@.error is None,
    {
        self.loading = true;
        self.error = None;
    }

    /// Replaces the items after a successful load.
    pub fn finish(&mut self, items: Vec<T>)
        ensures
            final(self)@.items == items@,
            !final(self)@.loading,
            final(self)@.error is None,
    {
        self.items = items;
        self.loading = false;
        self.error = None;
    }

    /// Ends loading with an error and discards the stale items.
    pub fn fail(&mut self, error: String)
        ensures
            final(self)@.items == Seq::<T>::empty(),
            !final(self)@.loading,
            final(self)@.error == Some(error@),
    {
        self.items.clear();
        self.loading = false;
        self.error = Some(error);
    }

    /// The currently available items.
    pub fn items(&self) -> (r: &[T])
        ensures
            r@ == self@.items,
    {
        self.items.as_slice()
    }

    /// Whether a load is in progress.
    pub fn is_loading(&self) -> (r: bool)
        ensures
            r == self@.loading,
    {
        self.loading
    }

    /// The error of the last failed load.
    pub fn error(&self) -> (r: Option<&str>)
        ensures
            match r {
                Some(e) => self@.error == Some(e@),
                None => self@.error is None,
            },
    {
        match &self.error {
            Some(e) => Some(e.as_str()),
            None => None,
        }
    }
}

/// Requests and completions of catalog loads.
#[derive(Debug)]
pub enum Message {
    /// Request network interface discovery.
    LoadInterfaces,
    /// Request permanent service discovery.
    LoadServices,
    /// Request ICMP-type discovery.
    LoadIcmpTypes,
    /// Network interface discovery completed.
    Interfaces(Result<Vec<String>, BrokerError>),
    /// Permanent service discovery completed.
    Services(Result<Vec<String>, BrokerError>),
    /// ICMP-type discovery completed.
    IcmpTypes(Result<Vec<IcmpTypeInfo>, BrokerError>),
}

/// All dialog option catalogs.
#[derive(Clone, Debug)]
pub struct State {
    /// Available network interfaces.
    pub interfaces: CatalogState<String>,
    /// Permanent firewalld service definitions.
    pub services: CatalogState<String>,
    /// Configured ICMP type definitions.
    pub icmp_types: CatalogState<IcmpTypeInfo>,
}

impl Default for State {
    fn default() -> (r: Self)
        ensures
            r.interfaces@.items.len() == 0 && !r.interfaces@.loading && r.interfaces@.error is None,
            r.services@.items.len() == 0 && !r.services@.loading && r.services@.error is None,
            r.icmp_types@.items.len() == 0 && !r.icmp_types@.loading && r.icmp_types@.error is None,
    {
        State {
            interfaces: CatalogState::default(),
            services: CatalogState::default(),
            icmp_types: CatalogState::default(),
        }
    }
}

/// What the catalog reducer reads from the rest of the application.
pub struct Context<'a> {
    /// Interface currently selected by the open form.
    pub selected_interface: &'a str,
}

/// A catalog load to run.
#[derive(Clone, Copy, Debug, PartialEq, Eq, Structural)]
pub enum Effect {
    /// Discover network interfaces.
    Interfaces,
    /// Load permanent service definitions.
    Services,
    /// Load configured ICMP types.
    IcmpTypes,
}

/// Coordination that a catalog completion asks of the application.
#[derive(Clone, Copy, Debug, PartialEq, Eq, Structural)]
pub enum Request {
    /// Clear a form selection that the refreshed catalog no longer offers.
    ClearInterfaceSelection,
}

/// Whether a refreshed interface list invalidates the selected interface: the
/// list is not empty and does not offer the selection.
pub open spec fn selection_invalidated(interfaces: Seq<String>, selected: Seq<char>) -> bool {
    interfaces.len() > 0 && !views(interfaces).contains(selected)
}

fn offers(items: &[String], selected: &str) -> (r: bool)
    ensures
        r == views(items@).contains(selected@),
{
    let mut i: usize = 0;
    while i < items.len()
        invariant
            i <= items@.len(),
            forall|k: int| 0 <= k < i ==> items@[k]@ != selected@,
        decreases items@.len() - i,
    {
        if str_equal(items[i].as_str(), selected) {
            assert(views(items@)[i as int] == selected@);
            return true;
        }
        i = i + 1;
    }
    assert forall|k: int| 0 <= k < views(items@).len() implies views(items@)[k] != selected@ by {
        assert(views(items@)[k] == items@[k]@);
    }
    false
}

/// Applies one catalog message.
pub fn update(state: &mut State, message: Message, context: Context<'_>) -> (r: Outcome<
    Effect,
    Request,
>)
    ensures
        match message {
            Message::LoadInterfaces => {
                &&& final(state).interfaces@.items.len() == 0
                &&& final(state).interfaces@.loading
                &&& final(state).interfaces@.error is None
                &&& final(state).services@ == old(state).services@
                &&& final(state).icmp_types@ == old(state).icmp_types@
                &&& r.effects@ == seq![Effect::Interfaces]
                &&& r.requests@.len() == 0
            },
            Message::LoadServices => {
                &&& final(state).services@.items == old(state).services@.items
                &&& final(state).services@.loading
                &&& final(state).services@.error is None
                &&& final(state).interfaces@ == old(state).interfaces@
                &&& final(state).icmp_types@ == old(state).icmp_types@
                &&& r.effects@ == seq![Effect::Services]
                &&& r.requests@.len() == 0
            },
            Message::LoadIcmpTypes => {
                &&& final(state).icmp_types@.items == old(state).icmp_types@.items
                &&& final(state).icmp_types@.loading
                &&& final(state).icmp_types@.error is None
                &&& final(state).interfaces@ == old(state).interfaces@
                &&& final(state).services@ == old(state).services@
                &&& r.effects@ == seq![Effect::IcmpTypes]
                &&& r.requests@.len() == 0
            },
            Message::Interfaces(result) => {
                &&& final(state).services@ == old(state).services@
                &&& final(state).icmp_types@ == old(state).icmp_types@
                &&& !final(state).interfaces@.loading
                &&& r.effects@.len() == 0
                &&& match result {
                    Ok(items) => {
                        &&& final(state).interfaces@.items == items@
                        &&& final(state).interfaces@.error is None
                        &&& if selection_invalidated(items@, context.selected_interface@) {
                            r.requests@ == seq![Request::ClearInterfaceSelection]
                        } else {
                            r.requests@.len() == 0
                        }
                    },
                    Err(error) => {
                        &&& final(state).interfaces@.items.len() == 0
                        &&& final(state).interfaces@.error == Some(error@)
                        &&& r.requests@.len() == 0
                    },
                }
            },
            Message::Services(result) => {
                &&& final(state).interfaces@ == old(state).interfaces@
                &&& final(state).icmp_types@ == old(state).icmp_types@
                &&& !final(state).services@.loading
                &&& r.effects@.len() == 0
                &&& r.requests@.len() == 0
                &&& match result {
                    Ok(items) => final(state).services@.items == items@
                        && final(state).services@.error is None,
                    Err(error) => final(state).services@.items.len() == 0
                        && final(state).services@.error == Some(error@),
                }
            },
            Message::IcmpTypes(result) => {
                &&& final(state).interfaces@ == old(state).interfaces@
                &&& final(state).services@ == old(state).services@
                &&& !final(state).icmp_types@.loading
                &&& r.effects@.len() == 0
                &&& r.requests@.len() == 0
                &&& match result {
                    Ok(items) => final(state).icmp_types@.items == items@
                        && final(state).icmp_types@.error is None,
                    Err(error) => final(state).icmp_types@.items.len() == 0
                        && final(state).icmp_types@.error == Some(error@),
                }
            },
        },
{
    match message {
        Message::LoadInterfaces => {
            state.interfaces.finish(Vec::new());
            state.interfaces.begin_load();
            Outcome::effect(Effect::Interfaces)
        },
        Message::LoadServices => {
            state.services.begin_load();
            Outcome::effect(Effect::Services)
        },
        Message::LoadIcmpTypes => {
            state.icmp_types.begin_load();
            Outcome::effect(Effect::IcmpTypes)
        },
        Message::Interfaces(result) => match result {
            Ok(interfaces) => {
                state.interfaces.finish(interfaces);
                let items = state.interfaces.items();
                if items.len() != 0 && !offers(items, context.selected_interface) {
                    Outcome::request(Request::ClearInterfaceSelection)
                } else {
                    Outcome::default()
                }
            },
            Err(error) => {
                state.interfaces.fail(error.to_string());
                Outcome::default()
            },
        },
        Message::Services(result) => {
            match result {
                Ok(services) => state.services.finish(services),
                Err(error) => state.services.fail(error.to_string()),
            }
            Outcome::default()
        },
        Message::IcmpTypes(result) => {
            match result {
                Ok(types) => state.icmp_types.finish(types),
                Err(error) => state.icmp_types.fail(error.to_string()),
            }
            Outcome::default()
        },
    }
}

} // verus!
