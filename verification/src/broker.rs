//! The decisions of the system-bus broker: errors, unit status, catalogs and the
//! classification of firewalld signals in a configuration watch session.
use vstd::prelude::*;

use crate::events::ConfigurationEvent;
use crate::order::{insert_sorted, strictly_sorted, views};
use crate::models::IcmpTypeInfo;
use crate::sorting::{sort_by_key, stable_sort_of};
use crate::text::{owned, starts_with, str_equal, str_starts_with};

verus! {

/// Error returned by broker-owned system-bus operations.
#[derive(Clone, Debug)]
pub struct BrokerError {
    message: String,
}

impl View for BrokerError {
    type V = Seq<char>;

    closed spec fn view(&self) -> Seq<char> {
        self.message@
    }
}

impl BrokerError {
    /// An error carrying `message`.
    pub fn new(message: String) -> (r: Self)
        ensures
            r@ == message@,
    {
        BrokerError { message }
    }

    /// The displayed text of the error.
    pub fn to_string(&self) -> (r: String)
        ensures
            r@ == self@,
    {
        self.message.clone()
    }
}

/// Current activation state of `firewalld.service`.
#[derive(Clone, Debug, PartialEq, Eq)]
pub enum FirewalldStatus {
    /// The unit state is being queried or is transitioning.
    Loading,
    /// The systemd unit is active.
    Active,
    /// The systemd unit is not active.
    Inactive,
    /// The unit state could not be queried.
    Error(String),
}

impl Default for FirewalldStatus {
    fn default() -> (r: Self)
        ensures
            r is Loading,
    {
        FirewalldStatus::Loading
    }
}

/// The status that a systemd `ActiveState` value stands for.
pub open spec fn active_state_status(state: Seq<char>) -> FirewalldStatus {
    if state == "active"@ {
        FirewalldStatus::Active
    } else if state == "activating"@ || state == "deactivating"@ || state == "reloading"@ {
        FirewalldStatus::Loading
    } else {
        FirewalldStatus::Inactive
    }
}

impl FirewalldStatus {
    /// Maps the systemd `ActiveState` of the unit to a status.
    pub fn from_active_state(state: &str) -> (r: Self)
        ensures
            r == active_state_status(state@),
    {
        if str_equal(state, "active") {
            FirewalldStatus::Active
        } else if str_equal(state, "activating") || str_equal(state, "deactivating")
            || str_equal(state, "reloading") {
            FirewalldStatus::Loading
        } else {
            FirewalldStatus::Inactive
        }
    }
}

/// The text of the error raised when firewalld changes its bus owner.
pub open spec fn owner_changed_text() -> Seq<char> {
    "firewalld owner changed"@
}

/// Keeps a watch session alive only while firewalld keeps its bus owner.
pub fn ensure_same_owner(initial_owner: &str, current_owner: &str) -> (r: Result<(), BrokerError>)
    ensures
        r is Ok <==> initial_owner@ == current_owner@,
        r matches Err(e) ==> e@ == owner_changed_text(),
{
    if str_equal(initial_owner, current_owner) {
        Ok(())
    } else {
        Err(BrokerError::new(owned("firewalld owner changed")))
    }
}

/// Whether the selected zone, if any, is one of `zone_names`.
pub fn selected_zone_exists(selected_zone: Option<&str>, zone_names: &[String]) -> (r: bool)
    ensures
        r == match selected_zone {
            None => true,
            Some(s) => views(zone_names@).contains(s@),
        },
{
    match selected_zone {
        None => true,
        Some(selected) => {
            let mut i: usize = 0;
            while i < zone_names.len()
                invariant
                    i <= zone_names@.len(),
                    selected_zone == Some(selected),
                    forall|k: int| 0 <= k < i ==> zone_names@[k]@ != selected@,
                decreases zone_names@.len() - i,
            {
                if str_equal(zone_names[i].as_str(), selected) {
                    assert(views(zone_names@)[i as int] == selected@);
                    return true;
                }
                i = i + 1;
            }
            assert forall|k: int| 0 <= k < views(zone_names@).len() implies views(
                zone_names@,
            )[k] != selected@ by {
                assert(views(zone_names@)[k] == zone_names@[k]@);
            }
            false
        },
    }
}

/// Whether a network interface is offered in the interface catalog: it has a
/// name, is not the loopback device and belongs to no container or bridge.
pub open spec fn interface_included(name: Seq<char>) -> bool {
    &&& name.len() > 0
    &&& name != "lo"@
    &&& !starts_with(name, "docker"@)
    &&& !starts_with(name, "veth"@)
    &&& !starts_with(name, "br-"@)
}

/// Executable test for [`interface_included`].
pub fn should_include_interface(name: &str) -> (r: bool)
    ensures
        r == interface_included(name@),
{
    if crate::text::chars_of(name).len() == 0 {
        return false;
    }
    !(str_equal(name, "lo") || str_starts_with(name, "docker") || str_starts_with(name, "veth")
        || str_starts_with(name, "br-"))
}

/// The interfaces of `names` that the catalog offers, sorted and without duplicates.
pub fn interface_catalog(names: Vec<String>) -> (r: Vec<String>)
    ensures
        strictly_sorted::<String>(views(r@)),
        views(r@).to_set() == views(names@).to_set().filter(|n: Seq<char>| interface_included(n)),
{
    let mut r: Vec<String> = Vec::new();
    let mut i: usize = 0;
    assert(views(r@).to_set() =~= Set::<Seq<char>>::empty());
    while i < names.len()
        invariant
            i <= names@.len(),
            strictly_sorted::<String>(views(r@)),
            views(r@).to_set() == views(names@.take(i as int)).to_set().filter(
                |n: Seq<char>| interface_included(n),
            ),
        decreases names@.len() - i,
    {
        proof {
            let pre = views(names@.take(i as int));
            let post = views(names@.take(i + 1));
            assert(post =~= pre.push(names@[i as int]@));
            assert forall|y: Seq<char>| post.contains(y) <==> (pre.contains(y) || y
                == names@[i as int]@) by {
                if post.contains(y) {
                    let k = choose|k: int| 0 <= k < post.len() && #[trigger] post[k] == y;
                    if k < i {
                        assert(pre[k] == y);
                    }
                }
                if pre.contains(y) {
                    let k = choose|k: int| 0 <= k < pre.len() && #[trigger] pre[k] == y;
                    assert(post[k] == y);
                }
                if y == names@[i as int]@ {
                    assert(post[i as int] == y);
                }
            }
            assert(post.to_set() =~= pre.to_set().insert(names@[i as int]@));
        }
        if should_include_interface(names[i].as_str()) {
            let name = names[i].clone();
            insert_sorted(&mut r, name);
        }
        i = i + 1;
        assert(views(r@).to_set() =~= views(names@.take(i as int)).to_set().filter(
            |n: Seq<char>| interface_included(n),
        ));
    }
    assert(names@.take(names@.len() as int) =~= names@);
    r
}

/// What a configuration watch session reports.
#[derive(Clone, Debug, PartialEq, Eq)]
pub enum ConfigurationSignal {
    /// A configuration event relevant to the selected zone.
    Changed(ConfigurationEvent),
    /// A periodic owner check found firewalld unchanged.
    Healthy,
}

/// One thing that happened to a configuration watch session.
#[derive(Debug)]
pub enum SessionInput {
    /// A firewalld root signal with its member name.
    RootSignal(Option<String>),
    /// The root signal stream ended.
    RootEnded,
    /// A runtime-zone signal with its decoded zone argument.
    RuntimeSignal(Result<String, BrokerError>),
    /// The runtime-zone signal stream ended.
    RuntimeEnded,
    /// A signal of the selected permanent zone with its member name and its
    /// decoded first argument.
    PermanentSignal {
        /// Member name of the signal.
        member: Option<String>,
        /// First string argument of the signal.
        argument: Result<String, BrokerError>,
    },
    /// The selected permanent-zone signal stream ended.
    PermanentEnded,
    /// A periodic owner check returned the current owner of the firewalld name.
    OwnerChecked(Result<String, BrokerError>),
    /// A periodic owner check did not answer in time.
    OwnerCheckTimedOut,
}

/// How a configuration watch session answers one input.
#[derive(Clone, Debug)]
pub enum SessionStep {
    /// Nothing is reported; the session goes on.
    Continue,
    /// A signal is reported; the session goes on.
    Emit(ConfigurationSignal),
    /// An error is reported and the session ends.
    Fail(BrokerError),
}

/// Whether `member` names the signal `name`.
pub open spec fn member_is(member: Option<String>, name: Seq<char>) -> bool {
    member matches Some(m) && m@ == name
}

fn member_equals(member: &Option<String>, name: &str) -> (r: bool)
    ensures
        r == member_is(*member, name@),
{
    match member {
        Some(m) => str_equal(m.as_str(), name),
        None => false,
    }
}

/// Classifies one input of a configuration watch session for `selected_zone`,
/// whose firewalld owner was `initial_owner` when the session began.
pub fn session_step(selected_zone: Option<&str>, initial_owner: &str, input: SessionInput) -> (r:
    SessionStep)
    ensures
        match input {
            SessionInput::RootSignal(member) => if member_is(member, "Reloaded"@) {
                r == SessionStep::Emit(ConfigurationSignal::Changed(ConfigurationEvent::Reloaded))
            } else {
                r is Continue
            },
            SessionInput::RootEnded => r matches SessionStep::Fail(e) && e@
                == "firewalld root signal stream ended"@,
            SessionInput::RuntimeSignal(argument) => match (selected_zone, argument) {
                (Some(s), Ok(z)) => if z@ == s@ {
                    r matches SessionStep::Emit(
                        ConfigurationSignal::Changed(ConfigurationEvent::RuntimeZoneChanged { zone }),
                    ) && zone@ == s@
                } else {
                    r is Continue
                },
                _ => r is Continue,
            },
            SessionInput::RuntimeEnded => r matches SessionStep::Fail(e) && e@
                == "firewalld runtime-zone signal stream ended"@,
            SessionInput::PermanentSignal { member, argument } => match selected_zone {
                None => r is Continue,
                Some(s) => if member_is(member, "Updated"@) {
                    r matches SessionStep::Emit(
                        ConfigurationSignal::Changed(
                            ConfigurationEvent::PermanentZoneUpdated { zone },
                        ),
                    ) && zone@ == s@
                } else if member_is(member, "Removed"@) {
                    r matches SessionStep::Emit(
                        ConfigurationSignal::Changed(
                            ConfigurationEvent::PermanentZoneRemoved { zone },
                        ),
                    ) && zone@ == s@
                } else if member_is(member, "Renamed"@) {
                    match argument {
                        Ok(new_name) => r matches SessionStep::Emit(
                            ConfigurationSignal::Changed(
                                ConfigurationEvent::PermanentZoneRenamed { old_zone, new_zone },
                            ),
                        ) && old_zone@ == s@ && new_zone@ == new_name@,
                        Err(error) => r matches SessionStep::Fail(e) && e@ == error@,
                    }
                } else {
                    r is Continue
                },
            },
            SessionInput::PermanentEnded => r matches SessionStep::Fail(e) && e@
                == "selected permanent-zone signal stream ended"@,
            SessionInput::OwnerChecked(result) => match result {
                Ok(owner) => if owner@ == initial_owner@ {
                    r == SessionStep::Emit(ConfigurationSignal::Healthy)
                } else {
                    r matches SessionStep::Fail(e) && e@ == owner_changed_text()
                },
                Err(error) => r matches SessionStep::Fail(e) && e@ == error@,
            },
            SessionInput::OwnerCheckTimedOut => r matches SessionStep::Fail(e) && e@
                == "firewalld owner check timed out"@,
        },
{
    match input {
        SessionInput::RootSignal(member) => {
            if member_equals(&member, "Reloaded") {
                SessionStep::Emit(ConfigurationSignal::Changed(ConfigurationEvent::Reloaded))
            } else {
                SessionStep::Continue
            }
        },
        SessionInput::RootEnded => SessionStep::Fail(
            BrokerError::new(owned("firewalld root signal stream ended")),
        ),
        SessionInput::RuntimeSignal(argument) => match (selected_zone, argument) {
            (Some(selected), Ok(zone)) => {
                if str_equal(zone.as_str(), selected) {
                    SessionStep::Emit(
                        ConfigurationSignal::Changed(
                            ConfigurationEvent::RuntimeZoneChanged { zone: owned(selected) },
                        ),
                    )
                } else {
                    SessionStep::Continue
                }
            },
            _ => SessionStep::Continue,
        },
        SessionInput::RuntimeEnded => SessionStep::Fail(
            BrokerError::new(owned("firewalld runtime-zone signal stream ended")),
        ),
        SessionInput::PermanentSignal { member, argument } => match selected_zone {
            None => SessionStep::Continue,
            Some(zone) => {
                if member_equals(&member, "Updated") {
                    SessionStep::Emit(
                        ConfigurationSignal::Changed(
                            ConfigurationEvent::PermanentZoneUpdated { zone: owned(zone) },
                        ),
                    )
                } else if member_equals(&member, "Removed") {
                    SessionStep::Emit(
                        ConfigurationSignal::Changed(
                            ConfigurationEvent::PermanentZoneRemoved { zone: owned(zone) },
                        ),
                    )
                } else if member_equals(&member, "Renamed") {
                    match argument {
                        Ok(new_zone) => SessionStep::Emit(
                            ConfigurationSignal::Changed(
                                ConfigurationEvent::PermanentZoneRenamed {
                                    old_zone: owned(zone),
                                    new_zone,
                                },
                            ),
                        ),
                        Err(error) => SessionStep::Fail(error),
                    }
                } else {
                    SessionStep::Continue
                }
            },
        },
        SessionInput::PermanentEnded => SessionStep::Fail(
            BrokerError::new(owned("selected permanent-zone signal stream ended")),
        ),
        SessionInput::OwnerChecked(result) => match result {
            Ok(owner) => match ensure_same_owner(initial_owner, owner.as_str()) {
                Ok(()) => SessionStep::Emit(ConfigurationSignal::Healthy),
                Err(error) => SessionStep::Fail(error),
            },
            Err(error) => SessionStep::Fail(error),
        },
        SessionInput::OwnerCheckTimedOut => SessionStep::Fail(
            BrokerError::new(owned("firewalld owner check timed out")),
        ),
    }
}

/// What the public event stream forwards of one session signal: events are
/// forwarded, health reports are dropped, and an error is forwarded and ends
/// the stream.
pub fn forwarded_event(signal: Result<ConfigurationSignal, BrokerError>) -> (r: Option<
    Result<ConfigurationEvent, BrokerError>,
>)
    ensures
        match signal {
            Ok(ConfigurationSignal::Changed(event)) => r == Some(
                Ok::<ConfigurationEvent, BrokerError>(event),
            ),
            Ok(ConfigurationSignal::Healthy) => r is None,
            Err(error) => r == Some(Err::<ConfigurationEvent, BrokerError>(error)),
        },
{
    match signal {
        Ok(ConfigurationSignal::Changed(event)) => Some(Ok(event)),
        Ok(ConfigurationSignal::Healthy) => None,
        Err(error) => Some(Err(error)),
    }
}

} // verus!

verus! {

/// A list of names (zones, IP sets, services) in name order.
pub fn name_catalog(names: Vec<String>) -> (r: Vec<String>)
    ensures
        stable_sort_of(r@, names@),
{
    sort_by_key(names)
}

/// The ICMP types in name order.
pub fn icmp_type_catalog(types: Vec<IcmpTypeInfo>) -> (r: Vec<IcmpTypeInfo>)
    ensures
        stable_sort_of(r@, types@),
{
    sort_by_key(types)
}

/// The interface catalog from the device names that NetworkManager reported:
/// the offered interfaces, sorted and without duplicates, when there is at
/// least one; otherwise (also when NetworkManager could not be asked) the
/// catalog falls back to the kernel's list.
pub fn networkmanager_interfaces(result: Result<Vec<String>, BrokerError>) -> (r: Option<Vec<String>>)
    ensures
        match result {
            Ok(names) => {
                let offered = views(names@).to_set().filter(|n: Seq<char>| interface_included(n));
                match r {
                    Some(v) => {
                        &&& v@.len() > 0
                        &&& strictly_sorted::<String>(views(v@))
                        &&& views(v@).to_set() == offered
                    },
                    None => offered.is_empty(),
                }
            },
            Err(_) => r is None,
        },
{
    match result {
        Ok(names) => {
            let ghost offered = views(names@).to_set().filter(|n: Seq<char>| interface_included(n));
            let v = interface_catalog(names);
            if v.len() > 0 {
                Some(v)
            } else {
                assert(views(v@) =~= Seq::<Seq<char>>::empty());
                assert(offered =~= Set::<Seq<char>>::empty());
                None
            }
        },
        Err(_) => None,
    }
}

} // verus!
