//! The zone feature: the selected zone's details, the firewalld status, and
//! how zone messages turn into broker work and application requests.
use vstd::prelude::*;

use crate::broker::{BrokerError, FirewalldStatus};
use crate::dialogs::port::PortKind;
use crate::dialogs::DialogKind;
use crate::models::{ZoneDetails, ZoneTarget};
use crate::outcome::Outcome;
use crate::pages::ContextPage;
use crate::reconciler::{opt_view, ReconciliationAction};
use crate::text::{owned, str_equal};

verus! {

/// What the detail pane shows.
#[derive(Debug, Clone)]
pub enum ZoneViewState {
    /// No zone is selected.
    Empty,
    /// The details of a zone are loading.
    Loading { zone: String },
    /// The details of a zone are loaded.
    Ready(Box<ZoneDetails>),
    /// The details could not be loaded.
    Error { zone: String, message: String },
}

/// Actions of the zone detail pane.
#[derive(Debug, Clone)]
pub enum ZoneViewAction {
    /// Load the zone's details again.
    RetryLoad(String),
    /// Permanently enable or disable masquerading.
    SetMasquerade(bool),
    /// Permanently enable or disable ICMP block inversion.
    SetIcmpBlockInversion(bool),
    /// Start the firewalld unit.
    StartFirewalld,
    /// Ask for confirmation before stopping the firewalld unit.
    StopFirewalld,
    /// An action on the permanent/runtime comparison.
    Reconciliation(ReconciliationAction),
    /// Open the service picker.
    AddService,
    /// Open the interface form.
    AddInterface,
    /// Open the port form for a kind of port.
    AddPort { kind: PortKind },
    /// Open the source form.
    AddSource,
    /// Open the ICMP-type picker.
    AddIcmpBlock,
    /// Open the rich-rule form.
    AddRichRule,
    RemoveService(String),
    RemoveInterface(String),
    RemoveSource(String),
    RemovePort { port: String, protocol: String },
    RemoveForwardPort { port: String, protocol: String, to_port: String, to_addr: String },
    RemoveSourcePort { port: String, protocol: String },
    RemoveIcmpBlock(String),
    RemoveRichRule(String),
}

/// The zone's detail pane and the firewalld status.
#[derive(Debug)]
pub struct State {
    /// What the detail pane shows.
    pub detail: ZoneViewState,
    /// The status of the firewalld unit.
    pub firewalld_status: FirewalldStatus,
}

impl Default for State {
    fn default() -> (r: Self)
        ensures
            r.detail is Empty,
            r.firewalld_status is Loading,
    {
        State { detail: ZoneViewState::Empty, firewalld_status: FirewalldStatus::Loading }
    }
}

/// The zone whose details are ready, if any.
pub open spec fn ready_zone(d: ZoneViewState) -> Option<Seq<char>> {
    match d {
        ZoneViewState::Ready(details) => Some(details.name@),
        _ => None,
    }
}

impl State {
    /// What the detail pane shows.
    pub fn detail(&self) -> (r: &ZoneViewState)
        ensures
            *r == self.detail,
    {
        &self.detail
    }

    /// The ready details, when the selected zone has loaded.
    pub fn ready_detail(&self) -> (r: Option<&ZoneDetails>)
        ensures
            match self.detail {
                ZoneViewState::Ready(d) => r == Some(&*d),
                _ => r is None,
            },
    {
        match &self.detail {
            ZoneViewState::Ready(details) => Some(details),
            _ => None,
        }
    }

    /// The zone whose details are ready.
    pub fn current_zone_name(&self) -> (r: Option<&str>)
        ensures
            opt_view(r) == ready_zone(self.detail),
    {
        match &self.detail {
            ZoneViewState::Ready(details) => Some(details.name.as_str()),
            _ => None,
        }
    }

    /// The status of the firewalld unit.
    pub fn firewalld_status(&self) -> (r: &FirewalldStatus)
        ensures
            *r == self.firewalld_status,
    {
        &self.firewalld_status
    }
}

/// What the zone reducer reads from the rest of the application.
pub struct Context<'a> {
    /// Whether any part of the application holds the mutation slot.
    pub mutation_pending: bool,
    /// The zone selected in navigation.
    pub selected_zone: Option<&'a str>,
    /// Whether a configuration refresh is running.
    pub reconciliation_refreshing: bool,
    /// The open dialog.
    pub open_dialog: Option<DialogKind>,
}

/// Messages of the zone feature.
#[derive(Debug)]
pub enum Message {
    View(ZoneViewAction),
    LoadList,
    LoadDetails(String),
    LoadDefault,
    LoadActive,
    LoadStatus,
    ClearSelection,
    ShowListError(String),
    SetDefault(String),
    Create { name: String, description: String, target: ZoneTarget },
    Rename { old_name: String, new_name: String },
    Delete(String),
    AddService { zone: String, service: String },
    AddPort { zone: String, port: String, protocol: String },
    AddSourcePort { zone: String, port: String, protocol: String },
    AddForwardPort {
        zone: String,
        port: String,
        protocol: String,
        to_port: String,
        to_addr: String,
    },
    AddInterface { zone: String, interface: String },
    AddSource { zone: String, source: String },
    AddIcmp { zone: String, icmp: String },
    AddRichRule { zone: String, rule: String },
    Remove(ZoneViewAction),
    SetMasquerade(bool),
    SetIcmpBlockInversion(bool),
    ControlFirewalld(bool),
    ConfirmDelete(String),
    ListLoaded(Result<Vec<String>, BrokerError>),
    DetailsLoaded { zone_name: String, result: Box<Result<ZoneDetails, BrokerError>> },
    DefaultLoaded(Result<String, BrokerError>),
    /// The active zones, in no particular order.
    ActiveLoaded(Result<Vec<String>, BrokerError>),
    DefaultSet(Result<(), BrokerError>),
    Created { zone_name: String, result: Result<(), BrokerError> },
    Renamed { old_name: String, new_name: String, result: Result<(), BrokerError> },
    Deleted { zone_name: String, result: Result<(), BrokerError> },
    ItemAdded { zone_name: String, result: Result<(), BrokerError> },
    ItemRemoved { zone_name: String, result: Result<(), BrokerError> },
    FirewalldStatusLoaded(Result<FirewalldStatus, BrokerError>),
    DaemonControlFinished(Result<(), BrokerError>),
}

/// Broker work of the zone feature.
#[derive(Debug, Clone)]
pub enum Effect {
    LoadZones,
    LoadDetails(String),
    LoadDefault,
    LoadActive,
    LoadStatus,
    SetDefault(String),
    CreateZone { name: String, description: String, target: ZoneTarget },
    RenameZone { old_name: String, new_name: String },
    DeleteZone(String),
    AddService { zone: String, service: String },
    AddPort { zone: String, port: String, protocol: String },
    AddSourcePort { zone: String, port: String, protocol: String },
    AddForwardPort {
        zone: String,
        port: String,
        protocol: String,
        to_port: String,
        to_addr: String,
    },
    AddInterface { zone: String, interface: String },
    AddSource { zone: String, source: String },
    AddIcmp { zone: String, icmp: String },
    AddRichRule { zone: String, rule: String },
    RemoveService { zone: String, service: String },
    RemoveInterface { zone: String, interface: String },
    RemoveSource { zone: String, source: String },
    RemovePort { zone: String, port: String, protocol: String },
    RemoveForwardPort {
        zone: String,
        port: String,
        protocol: String,
        to_port: String,
        to_addr: String,
    },
    RemoveSourcePort { zone: String, port: String, protocol: String },
    RemoveIcmp { zone: String, icmp: String },
    RemoveRichRule { zone: String, rule: String },
    SetMasquerade { zone: String, enabled: bool },
    SetIcmpBlockInversion { zone: String, enabled: bool },
    ControlFirewalld(bool),
}

/// The mutations that the zone feature starts.
#[derive(Clone, Copy, Debug, Eq, PartialEq, Structural)]
pub enum Mutation {
    CreateZone,
    RenameZone,
    DeleteZone,
    AddService,
    AddPort,
    AddSourcePort,
    AddForwardPort,
    AddInterface,
    AddSource,
    AddIcmp,
    AddRichRule,
    RemoveItem,
    SetMasquerade,
    SetIcmpBlockInversion,
    SetDefaultZone,
    StartFirewalld,
    StopFirewalld,
}

/// Coordination that the zone feature asks of the application.
#[derive(Debug)]
pub enum Request {
    NavigationLoading,
    NavigationZonesLoaded(Result<Vec<String>, String>),
    NavigationDefaultLoaded(Result<String, String>),
    NavigationActiveLoaded(Result<Vec<String>, String>),
    OpenContextPage(ContextPage),
    SetPortKind(PortKind),
    ResetDialog(DialogKind),
    ReconciliationSelectionChanged(Option<String>),
    LoadReconciliation(String),
    ReconciliationUnavailable(Option<String>),
    PreserveZoneRename { old_name: String, new_name: String },
    ReconciliationAction(ReconciliationAction),
    FinishConfigurationRefresh,
    ConfirmDeleteZone(String),
    ConfirmStopFirewalld,
    BeginMutation(Mutation),
    FinishMutation(Result<(), BrokerError>),
    MarkRuntimeDirty,
    CloseDrawer,
    RefreshZones,
    RefreshDefault,
    RefreshStatus,
    RefreshCurrentZone(String),
}

/// Whether an outcome holds no work.
pub open spec fn no_work(r: Outcome<Effect, Request>) -> bool {
    r.effects@.len() == 0 && r.requests@.len() == 0
}

/// The outcome of a mutation gated by the global slot: nothing while the slot
/// is taken, otherwise the broker work and the request to take the slot.
pub open spec fn gated(r: Outcome<Effect, Request>, pending: bool, mutation: Mutation, effect: Effect) -> bool {
    if pending {
        no_work(r)
    } else {
        r.effects@ == seq![effect] && r.requests@ == seq![Request::BeginMutation(mutation)]
    }
}

fn begin_effect(pending: bool, mutation: Mutation, effect: Effect) -> (r: Outcome<Effect, Request>)
    ensures
        gated(r, pending, mutation, effect),
{
    if pending {
        Outcome::default()
    } else {
        let mut outcome = Outcome::effect(effect);
        outcome.requests.push(Request::BeginMutation(mutation));
        outcome
    }
}

/// The removal effect for a remove action on `zone`, if the action is one.
pub open spec fn removal_effect(action: ZoneViewAction, zone: String) -> Option<Effect> {
    match action {
        ZoneViewAction::RemoveService(service) => Some(Effect::RemoveService { zone, service }),
        ZoneViewAction::RemoveInterface(interface) => Some(
            Effect::RemoveInterface { zone, interface },
        ),
        ZoneViewAction::RemoveSource(source) => Some(Effect::RemoveSource { zone, source }),
        ZoneViewAction::RemovePort { port, protocol } => Some(
            Effect::RemovePort { zone, port, protocol },
        ),
        ZoneViewAction::RemoveForwardPort { port, protocol, to_port, to_addr } => Some(
            Effect::RemoveForwardPort { zone, port, protocol, to_port, to_addr },
        ),
        ZoneViewAction::RemoveSourcePort { port, protocol } => Some(
            Effect::RemoveSourcePort { zone, port, protocol },
        ),
        ZoneViewAction::RemoveIcmpBlock(icmp) => Some(Effect::RemoveIcmp { zone, icmp }),
        ZoneViewAction::RemoveRichRule(rule) => Some(Effect::RemoveRichRule { zone, rule }),
        _ => None,
    }
}

/// Whether an action removes an item of the zone.
pub open spec fn is_removal(action: ZoneViewAction) -> bool {
    match action {
        ZoneViewAction::RemoveService(..) | ZoneViewAction::RemoveInterface(..)
        | ZoneViewAction::RemoveSource(..) | ZoneViewAction::RemovePort { .. }
        | ZoneViewAction::RemoveForwardPort { .. } | ZoneViewAction::RemoveSourcePort { .. }
        | ZoneViewAction::RemoveIcmpBlock(..) | ZoneViewAction::RemoveRichRule(..) => true,
        _ => false,
    }
}

/// What removing an item does: nothing without ready details, otherwise the
/// gated removal of the item from the ready zone.
pub open spec fn removal_result(state: State, action: ZoneViewAction, pending: bool, r: Outcome<Effect, Request>) -> bool {
    match state.detail {
        ZoneViewState::Ready(details) => exists|zone: String|
            zone@ == details.name@ && (#[trigger] removal_effect(action, zone) matches Some(effect)
                && gated(r, pending, Mutation::RemoveItem, effect)),
        _ => no_work(r),
    }
}

fn remove_item(state: &State, action: ZoneViewAction, pending: bool) -> (r: Outcome<Effect, Request>)
    requires
        is_removal(action),
    ensures
        removal_result(*state, action, pending, r),
{
    let zone = match state.current_zone_name() {
        Some(zone) => owned(zone),
        None => {
            return Outcome::default();
        },
    };
    let ghost z = zone;
    let effect = match action {
        ZoneViewAction::RemoveService(service) => Effect::RemoveService { zone, service },
        ZoneViewAction::RemoveInterface(interface) => Effect::RemoveInterface { zone, interface },
        ZoneViewAction::RemoveSource(source) => Effect::RemoveSource { zone, source },
        ZoneViewAction::RemovePort { port, protocol } => Effect::RemovePort {
            zone,
            port,
            protocol,
        },
        ZoneViewAction::RemoveForwardPort { port, protocol, to_port, to_addr } =>
            Effect::RemoveForwardPort { zone, port, protocol, to_port, to_addr },
        ZoneViewAction::RemoveSourcePort { port, protocol } => Effect::RemoveSourcePort {
            zone,
            port,
            protocol,
        },
        ZoneViewAction::RemoveIcmpBlock(icmp) => Effect::RemoveIcmp { zone, icmp },
        ZoneViewAction::RemoveRichRule(rule) => Effect::RemoveRichRule { zone, rule },
        _ => {
            return Outcome::default();
        },
    };
    let r = begin_effect(pending, Mutation::RemoveItem, effect);
    assert(removal_effect(action, z) == Some(effect));
    r
}

/// What toggling a zone setting does: nothing without ready details,
/// otherwise the gated change of the ready zone's setting.
pub open spec fn toggle_result(
    state: State,
    r: Outcome<Effect, Request>,
    pending: bool,
    masquerade: bool,
    enabled: bool,
) -> bool {
    match state.detail {
        ZoneViewState::Ready(details) => {
            let mutation = if masquerade {
                Mutation::SetMasquerade
            } else {
                Mutation::SetIcmpBlockInversion
            };
            if pending {
                no_work(r)
            } else {
                &&& r.requests@ == seq![Request::BeginMutation(mutation)]
                &&& r.effects@.len() == 1
                &&& if masquerade {
                    r.effects@[0] matches Effect::SetMasquerade { zone, enabled: e } && zone@
                        == details.name@ && e == enabled
                } else {
                    r.effects@[0] matches Effect::SetIcmpBlockInversion { zone, enabled: e }
                        && zone@ == details.name@ && e == enabled
                }
            }
        },
        _ => no_work(r),
    }
}

fn toggle_setting(state: &State, masquerade: bool, enabled: bool, pending: bool) -> (r: Outcome<
    Effect,
    Request,
>)
    ensures
        toggle_result(*state, r, pending, masquerade, enabled),
{
    let zone = match state.current_zone_name() {
        Some(zone) => owned(zone),
        None => {
            return Outcome::default();
        },
    };
    if masquerade {
        begin_effect(pending, Mutation::SetMasquerade, Effect::SetMasquerade { zone, enabled })
    } else {
        begin_effect(
            pending,
            Mutation::SetIcmpBlockInversion,
            Effect::SetIcmpBlockInversion { zone, enabled },
        )
    }
}

/// What starting or stopping firewalld does: nothing while the slot is taken,
/// otherwise the status becomes loading and the gated unit control starts.
pub open spec fn control_result(old: State, new: State, r: Outcome<Effect, Request>, start: bool, pending: bool) -> bool {
    if pending {
        new == old && no_work(r)
    } else {
        &&& new.detail == old.detail
        &&& new.firewalld_status is Loading
        &&& r.effects@ == seq![Effect::ControlFirewalld(start)]
        &&& r.requests@ == seq![
            Request::BeginMutation(
                if start {
                    Mutation::StartFirewalld
                } else {
                    Mutation::StopFirewalld
                },
            ),
        ]
    }
}

fn control_firewalld(state: &mut State, start: bool, pending: bool) -> (r: Outcome<Effect, Request>)
    ensures
        control_result(*old(state), *final(state), r, start, pending),
{
    if pending {
        return Outcome::default();
    }
    state.firewalld_status = FirewalldStatus::Loading;
    let mutation = if start {
        Mutation::StartFirewalld
    } else {
        Mutation::StopFirewalld
    };
    begin_effect(false, mutation, Effect::ControlFirewalld(start))
}

/// What the other pane actions ask for: nothing while the slot is taken,
/// otherwise the page, port kind, confirmation or reconciliation action.
pub open spec fn view_requests(action: ZoneViewAction) -> Seq<Request> {
    match action {
        ZoneViewAction::Reconciliation(a) => seq![Request::ReconciliationAction(a)],
        ZoneViewAction::AddService => seq![Request::OpenContextPage(ContextPage::AddService)],
        ZoneViewAction::AddInterface => seq![Request::OpenContextPage(ContextPage::AddInterface)],
        ZoneViewAction::AddPort { kind } => seq![
            Request::OpenContextPage(ContextPage::AddPort),
            Request::SetPortKind(kind),
        ],
        ZoneViewAction::AddSource => seq![Request::OpenContextPage(ContextPage::AddSource)],
        ZoneViewAction::AddIcmpBlock => seq![Request::OpenContextPage(ContextPage::AddIcmp)],
        ZoneViewAction::AddRichRule => seq![Request::OpenContextPage(ContextPage::AddRichRule)],
        ZoneViewAction::StopFirewalld => seq![Request::ConfirmStopFirewalld],
        _ => Seq::empty(),
    }
}

fn update_view(action: ZoneViewAction, pending: bool) -> (r: Outcome<Effect, Request>)
    ensures
        r.effects@.len() == 0,
        pending ==> r.requests@.len() == 0,
        !pending ==> r.requests@ == view_requests(action),
{
    if pending {
        return Outcome::default();
    }
    match action {
        ZoneViewAction::Reconciliation(action) => Outcome::request(
            Request::ReconciliationAction(action),
        ),
        ZoneViewAction::AddService => Outcome::request(
            Request::OpenContextPage(ContextPage::AddService),
        ),
        ZoneViewAction::AddInterface => Outcome::request(
            Request::OpenContextPage(ContextPage::AddInterface),
        ),
        ZoneViewAction::AddPort { kind } => {
            let mut outcome = Outcome::request(Request::OpenContextPage(ContextPage::AddPort));
            outcome.requests.push(Request::SetPortKind(kind));
            outcome
        },
        ZoneViewAction::AddSource => Outcome::request(
            Request::OpenContextPage(ContextPage::AddSource),
        ),
        ZoneViewAction::AddIcmpBlock => Outcome::request(
            Request::OpenContextPage(ContextPage::AddIcmp),
        ),
        ZoneViewAction::AddRichRule => Outcome::request(
            Request::OpenContextPage(ContextPage::AddRichRule),
        ),
        ZoneViewAction::StopFirewalld => Outcome::request(Request::ConfirmStopFirewalld),
        _ => Outcome::default(),
    }
}

/// What completed detail loading does: a completion for another zone than
/// the selected one is ignored; details make the pane ready and load the
/// comparison when firewalld is active, otherwise mark it unavailable and
/// finish the refresh; an error is shown and also marks it unavailable.
pub open spec fn details_result(
    old: State,
    new: State,
    r: Outcome<Effect, Request>,
    zone: String,
    result: Result<ZoneDetails, BrokerError>,
    selected: Option<&str>,
) -> bool {
    if opt_view(selected) != Some(zone@) {
        new == old && no_work(r)
    } else {
        &&& r.effects@.len() == 0
        &&& new.firewalld_status == old.firewalld_status
        &&& match result {
            Ok(details) => {
                &&& new.detail == ZoneViewState::Ready(Box::new(details))
                &&& if old.firewalld_status is Active {
                    r.requests@ == seq![Request::LoadReconciliation(zone)]
                } else {
                    r.requests@ == seq![
                        Request::ReconciliationUnavailable(Some(zone)),
                        Request::FinishConfigurationRefresh,
                    ]
                }
            },
            Err(error) => {
                &&& new.detail matches ZoneViewState::Error { zone: z, message } && z@ == zone@
                    && message@ == error@
                &&& r.requests@.len() == 2
                &&& r.requests@[0] matches Request::ReconciliationUnavailable(Some(z)) && z@
                    == zone@
                &&& r.requests@[1] matches Request::FinishConfigurationRefresh
            },
        }
    }
}

fn finish_details(
    state: &mut State,
    zone: String,
    result: Result<ZoneDetails, BrokerError>,
    selected: Option<&str>,
) -> (r: Outcome<Effect, Request>)
    ensures
        details_result(*old(state), *final(state), r, zone, result, selected),
{
    let current = match selected {
        Some(s) => str_equal(s, zone.as_str()),
        None => false,
    };
    if !current {
        return Outcome::default();
    }
    match result {
        Ok(details) => {
            state.detail = ZoneViewState::Ready(Box::new(details));
            if matches!(state.firewalld_status, FirewalldStatus::Active) {
                Outcome::request(Request::LoadReconciliation(zone))
            } else {
                let ghost z = zone;
                let mut outcome = Outcome::request(Request::ReconciliationUnavailable(Some(zone)));
                outcome.requests.push(Request::FinishConfigurationRefresh);
                assert(outcome.requests@ =~= seq![
                    Request::ReconciliationUnavailable(Some(z)),
                    Request::FinishConfigurationRefresh,
                ]);
                outcome
            }
        },
        Err(error) => {
            state.detail = ZoneViewState::Error { zone: zone.clone(), message: error.to_string() };
            let mut outcome = Outcome::request(Request::ReconciliationUnavailable(Some(zone)));
            outcome.requests.push(Request::FinishConfigurationRefresh);
            outcome
        },
    }
}

/// The status that a status load leaves: the loaded status, or an error
/// status carrying the broker's message.
pub open spec fn loaded_status(result: Result<FirewalldStatus, BrokerError>, status: FirewalldStatus) -> bool {
    match result {
        Ok(s) => status == s,
        Err(e) => status matches FirewalldStatus::Error(m) && m@ == e@,
    }
}

/// What a completed status load does: it records the status, then loads the
/// comparison of the ready zone when firewalld is active and no refresh runs,
/// and otherwise marks the comparison unavailable for the ready zone.
pub open spec fn status_result(
    old: State,
    new: State,
    r: Outcome<Effect, Request>,
    result: Result<FirewalldStatus, BrokerError>,
    refreshing: bool,
) -> bool {
    &&& new.detail == old.detail
    &&& loaded_status(result, new.firewalld_status)
    &&& r.effects@.len() == 0
    &&& r.requests@.len() == 1
    &&& match ready_zone(old.detail) {
        Some(zone) => if new.firewalld_status is Active && !refreshing {
            r.requests@[0] matches Request::LoadReconciliation(z) && z@ == zone
        } else {
            r.requests@[0] matches Request::ReconciliationUnavailable(Some(z)) && z@ == zone
        },
        None => r.requests@[0] matches Request::ReconciliationUnavailable(None),
    }
}

fn finish_status(state: &mut State, result: Result<FirewalldStatus, BrokerError>, refreshing: bool) -> (r:
    Outcome<Effect, Request>)
    ensures
        status_result(*old(state), *final(state), r, result, refreshing),
{
    state.firewalld_status = match result {
        Ok(status) => status,
        Err(error) => FirewalldStatus::Error(error.to_string()),
    };
    let active = matches!(state.firewalld_status, FirewalldStatus::Active);
    match state.current_zone_name() {
        Some(zone) => {
            if active && !refreshing {
                Outcome::request(Request::LoadReconciliation(owned(zone)))
            } else {
                Outcome::request(Request::ReconciliationUnavailable(Some(owned(zone))))
            }
        },
        None => Outcome::request(Request::ReconciliationUnavailable(None)),
    }
}

/// The requests of a finished mutation: on success `success` followed by
/// nothing else, on failure only the release of the slot with the error.
pub open spec fn finished(r: Outcome<Effect, Request>, result: Result<(), BrokerError>, success: Seq<Request>) -> bool {
    &&& r.effects@.len() == 0
    &&& match result {
        Ok(()) => r.requests@ == success,
        Err(e) => r.requests@ == seq![Request::FinishMutation(Err(e))],
    }
}

fn failed(error: BrokerError) -> (r: Outcome<Effect, Request>)
    ensures
        r.effects@.len() == 0,
        r.requests@ == seq![Request::FinishMutation(Err(error))],
{
    Outcome::request(Request::FinishMutation(Err(error)))
}

fn requests_of(requests: Vec<Request>) -> (r: Outcome<Effect, Request>)
    ensures
        r.effects@.len() == 0,
        r.requests@ == requests@,
{
    Outcome { effects: Vec::new(), requests }
}

/// What a completed deletion does: on success, a deleted selected zone clears
/// the pane and makes the comparison unavailable before the zone list reloads.
pub open spec fn delete_result(
    old: State,
    new: State,
    r: Outcome<Effect, Request>,
    zone: String,
    result: Result<(), BrokerError>,
    selected: Option<&str>,
) -> bool {
    let is_selected = opt_view(selected) == Some(zone@);
    let tail = seq![
        Request::MarkRuntimeDirty,
        Request::FinishMutation(Ok(())),
        Request::RefreshZones,
    ];
    &&& new.firewalld_status == old.firewalld_status
    &&& if result is Ok && is_selected {
        new.detail is Empty
    } else {
        new.detail == old.detail
    }
    &&& finished(
        r,
        result,
        if is_selected {
            seq![Request::ReconciliationUnavailable(None)] + tail
        } else {
            tail
        },
    )
}

fn finish_delete(
    state: &mut State,
    zone: String,
    result: Result<(), BrokerError>,
    selected: Option<&str>,
) -> (r: Outcome<Effect, Request>)
    ensures
        delete_result(*old(state), *final(state), r, zone, result, selected),
{
    match result {
        Ok(()) => {
            let mut requests: Vec<Request> = Vec::new();
            let is_selected = match selected {
                Some(s) => str_equal(s, zone.as_str()),
                None => false,
            };
            if is_selected {
                state.detail = ZoneViewState::Empty;
                requests.push(Request::ReconciliationUnavailable(None));
            }
            requests.push(Request::MarkRuntimeDirty);
            requests.push(Request::FinishMutation(Ok(())));
            requests.push(Request::RefreshZones);
            let ghost tail = seq![
                Request::MarkRuntimeDirty,
                Request::FinishMutation(Ok(())),
                Request::RefreshZones,
            ];
            if is_selected {
                assert(requests@ =~= seq![Request::ReconciliationUnavailable(None)] + tail);
            } else {
                assert(requests@ =~= tail);
            }
            requests_of(requests)
        },
        Err(error) => failed(error),
    }
}

/// The requests of a successful item change: the runtime becomes dirty, an
/// open dialog is reset and the drawer closed, the slot is released, and the
/// details reload when the change concerned the selected zone.
pub open spec fn item_change_requests(zone: String, context: Context<'_>) -> Seq<Request> {
    let dialog = match context.open_dialog {
        Some(d) => seq![Request::ResetDialog(d), Request::CloseDrawer],
        None => Seq::empty(),
    };
    let reload = if opt_view(context.selected_zone) == Some(zone@) {
        seq![Request::RefreshCurrentZone(zone)]
    } else {
        Seq::empty()
    };
    seq![Request::MarkRuntimeDirty] + dialog + seq![Request::FinishMutation(Ok(()))] + reload
}

fn finish_item_change(zone: String, result: Result<(), BrokerError>, context: Context<'_>) -> (r:
    Outcome<Effect, Request>)
    ensures
        finished(r, result, item_change_requests(zone, context)),
{
    match result {
        Ok(()) => {
            let mut requests: Vec<Request> = Vec::new();
            requests.push(Request::MarkRuntimeDirty);
            if let Some(dialog) = context.open_dialog {
                requests.push(Request::ResetDialog(dialog));
                requests.push(Request::CloseDrawer);
            }
            requests.push(Request::FinishMutation(Ok(())));
            let reload = match context.selected_zone {
                Some(s) => str_equal(s, zone.as_str()),
                None => false,
            };
            if reload {
                requests.push(Request::RefreshCurrentZone(zone));
            }
            assert(requests@ =~= item_change_requests(zone, context));
            requests_of(requests)
        },
        Err(error) => failed(error),
    }
}

/// The view of a loading result whose error is shown as text.
pub open spec fn shown<T>(r: Result<T, String>, loaded: Result<T, BrokerError>) -> bool {
    match loaded {
        Ok(v) => r == Ok::<T, String>(v),
        Err(e) => r matches Err(m) && m@ == e@,
    }
}

fn shown_error<T>(result: Result<T, BrokerError>) -> (r: Result<T, String>)
    ensures
        shown(r, result),
{
    match result {
        Ok(v) => Ok(v),
        Err(e) => Err(e.to_string()),
    }
}

/// Applies one zone message.
pub fn update(state: &mut State, message: Message, context: Context<'_>) -> (r: Outcome<
    Effect,
    Request,
>)
    ensures
        match message {
            Message::View(action) => match action {
                ZoneViewAction::SetMasquerade(enabled) => *final(state) == *old(state) && toggle_result(
                    *old(state),
                    r,
                    context.mutation_pending,
                    true,
                    enabled,
                ),
                ZoneViewAction::SetIcmpBlockInversion(enabled) => *final(state) == *old(state)
                    && toggle_result(*old(state), r, context.mutation_pending, false, enabled),
                ZoneViewAction::StartFirewalld => control_result(
                    *old(state),
                    *final(state),
                    r,
                    true,
                    context.mutation_pending,
                ),
                ZoneViewAction::RetryLoad(..) => *final(state) == *old(state) && no_work(r),
                _ => if is_removal(action) {
                    *final(state) == *old(state) && removal_result(
                        *old(state),
                        action,
                        context.mutation_pending,
                        r,
                    )
                } else {
                    &&& *final(state) == *old(state)
                    &&& r.effects@.len() == 0
                    &&& context.mutation_pending ==> r.requests@.len() == 0
                    &&& !context.mutation_pending ==> r.requests@ == view_requests(action)
                },
            },
            Message::LoadList => *final(state) == *old(state) && r.effects@ == seq![Effect::LoadZones]
                && r.requests@ == seq![Request::NavigationLoading],
            Message::LoadDetails(zone) => {
                &&& final(state).detail matches ZoneViewState::Loading { zone: z } && z@ == zone@
                &&& final(state).firewalld_status == old(state).firewalld_status
                &&& r.effects@.len() == 1
                &&& r.effects@[0] matches Effect::LoadDetails(z) && z@ == zone@
                &&& r.requests@ == seq![Request::ReconciliationSelectionChanged(Some(zone))]
            },
            Message::LoadDefault => *final(state) == *old(state) && r.effects@ == seq![
                Effect::LoadDefault,
            ] && r.requests@.len() == 0,
            Message::LoadActive => *final(state) == *old(state) && r.effects@ == seq![
                Effect::LoadActive,
            ] && r.requests@.len() == 0,
            Message::LoadStatus => final(state).detail == old(state).detail
                && final(state).firewalld_status is Loading && r.effects@ == seq![
                Effect::LoadStatus,
            ] && r.requests@.len() == 0,
            Message::ClearSelection => final(state).detail is Empty
                && final(state).firewalld_status == old(state).firewalld_status && no_work(r),
            Message::ShowListError(message) => final(state).detail matches ZoneViewState::Error {
                zone,
                message: m,
            } && zone@ == "zones"@ && m == message && final(state).firewalld_status == old(
                state,
            ).firewalld_status && no_work(r),
            Message::SetDefault(zone) => *final(state) == *old(state) && gated(
                r,
                context.mutation_pending,
                Mutation::SetDefaultZone,
                Effect::SetDefault(zone),
            ),
            Message::Create { name, description, target } => *final(state) == *old(state) && gated(
                r,
                context.mutation_pending,
                Mutation::CreateZone,
                Effect::CreateZone { name, description, target },
            ),
            Message::Rename { old_name, new_name } => *final(state) == *old(state) && gated(
                r,
                context.mutation_pending,
                Mutation::RenameZone,
                Effect::RenameZone { old_name, new_name },
            ),
            Message::Delete(zone) => *final(state) == *old(state) && gated(
                r,
                context.mutation_pending,
                Mutation::DeleteZone,
                Effect::DeleteZone(zone),
            ),
            Message::AddService { zone, service } => *final(state) == *old(state) && gated(
                r,
                context.mutation_pending,
                Mutation::AddService,
                Effect::AddService { zone, service },
            ),
            Message::AddPort { zone, port, protocol } => *final(state) == *old(state) && gated(
                r,
                context.mutation_pending,
                Mutation::AddPort,
                Effect::AddPort { zone, port, protocol },
            ),
            Message::AddSourcePort { zone, port, protocol } => *final(state) == *old(state) && gated(
                r,
                context.mutation_pending,
                Mutation::AddSourcePort,
                Effect::AddSourcePort { zone, port, protocol },
            ),
            Message::AddForwardPort { zone, port, protocol, to_port, to_addr } => *final(state)
                == *old(state) && gated(
                r,
                context.mutation_pending,
                Mutation::AddForwardPort,
                Effect::AddForwardPort { zone, port, protocol, to_port, to_addr },
            ),
            Message::AddInterface { zone, interface } => *final(state) == *old(state) && gated(
                r,
                context.mutation_pending,
                Mutation::AddInterface,
                Effect::AddInterface { zone, interface },
            ),
            Message::AddSource { zone, source } => *final(state) == *old(state) && gated(
                r,
                context.mutation_pending,
                Mutation::AddSource,
                Effect::AddSource { zone, source },
            ),
            Message::AddIcmp { zone, icmp } => *final(state) == *old(state) && gated(
                r,
                context.mutation_pending,
                Mutation::AddIcmp,
                Effect::AddIcmp { zone, icmp },
            ),
            Message::AddRichRule { zone, rule } => *final(state) == *old(state) && gated(
                r,
                context.mutation_pending,
                Mutation::AddRichRule,
                Effect::AddRichRule { zone, rule },
            ),
            Message::Remove(action) => *final(state) == *old(state) && if is_removal(action) {
                removal_result(*old(state), action, context.mutation_pending, r)
            } else {
                no_work(r)
            },
            Message::SetMasquerade(enabled) => *final(state) == *old(state) && toggle_result(
                *old(state),
                r,
                context.mutation_pending,
                true,
                enabled,
            ),
            Message::SetIcmpBlockInversion(enabled) => *final(state) == *old(state) && toggle_result(
                *old(state),
                r,
                context.mutation_pending,
                false,
                enabled,
            ),
            Message::ControlFirewalld(start) => control_result(
                *old(state),
                *final(state),
                r,
                start,
                context.mutation_pending,
            ),
            Message::ConfirmDelete(zone) => *final(state) == *old(state) && r.effects@.len() == 0
                && r.requests@ == seq![Request::ConfirmDeleteZone(zone)],
            Message::ListLoaded(result) => *final(state) == *old(state) && r.effects@.len() == 0
                && r.requests@.len() == 1 && (r.requests@[0] matches Request::NavigationZonesLoaded(
                shown_result,
            ) && shown(shown_result, result)),
            Message::DefaultLoaded(result) => *final(state) == *old(state) && r.effects@.len() == 0
                && r.requests@.len() == 1 && (r.requests@[0] matches Request::NavigationDefaultLoaded(
                shown_result,
            ) && shown(shown_result, result)),
            Message::ActiveLoaded(result) => *final(state) == *old(state) && r.effects@.len() == 0
                && r.requests@.len() == 1 && (r.requests@[0] matches Request::NavigationActiveLoaded(
                shown_result,
            ) && shown(shown_result, result)),
            Message::DetailsLoaded { zone_name, result } => details_result(
                *old(state),
                *final(state),
                r,
                zone_name,
                *result,
                context.selected_zone,
            ),
            Message::FirewalldStatusLoaded(result) => status_result(
                *old(state),
                *final(state),
                r,
                result,
                context.reconciliation_refreshing,
            ),
            Message::DefaultSet(result) => *final(state) == *old(state) && finished(
                r,
                result,
                seq![Request::FinishMutation(Ok(())), Request::RefreshDefault],
            ),
            Message::Created { result, .. } => *final(state) == *old(state) && finished(
                r,
                result,
                seq![
                    Request::MarkRuntimeDirty,
                    Request::ResetDialog(DialogKind::Zone),
                    Request::CloseDrawer,
                    Request::FinishMutation(Ok(())),
                    Request::RefreshZones,
                ],
            ),
            Message::Renamed { old_name, new_name, result } => *final(state) == *old(state)
                && finished(
                r,
                result,
                seq![
                    Request::PreserveZoneRename { old_name, new_name },
                    Request::MarkRuntimeDirty,
                    Request::ResetDialog(DialogKind::Zone),
                    Request::CloseDrawer,
                    Request::FinishMutation(Ok(())),
                    Request::RefreshZones,
                ],
            ),
            Message::Deleted { zone_name, result } => delete_result(
                *old(state),
                *final(state),
                r,
                zone_name,
                result,
                context.selected_zone,
            ),
            Message::ItemAdded { zone_name, result } => *final(state) == *old(state) && finished(
                r,
                result,
                item_change_requests(zone_name, context),
            ),
            Message::ItemRemoved { zone_name, result } => *final(state) == *old(state) && finished(
                r,
                result,
                item_change_requests(zone_name, context),
            ),
            Message::DaemonControlFinished(result) => *final(state) == *old(state) && finished(
                r,
                result,
                seq![Request::FinishMutation(Ok(())), Request::RefreshStatus],
            ),
        },
{
    let pending = context.mutation_pending;
    match message {
        Message::View(action) => match action {
            ZoneViewAction::SetMasquerade(enabled) => toggle_setting(state, true, enabled, pending),
            ZoneViewAction::SetIcmpBlockInversion(enabled) => toggle_setting(
                state,
                false,
                enabled,
                pending,
            ),
            ZoneViewAction::StartFirewalld => control_firewalld(state, true, pending),
            ZoneViewAction::RetryLoad(..) => Outcome::default(),
            ZoneViewAction::RemoveService(..) | ZoneViewAction::RemoveInterface(..)
            | ZoneViewAction::RemoveSource(..) | ZoneViewAction::RemovePort { .. }
            | ZoneViewAction::RemoveForwardPort { .. } | ZoneViewAction::RemoveSourcePort { .. }
            | ZoneViewAction::RemoveIcmpBlock(..) | ZoneViewAction::RemoveRichRule(..) =>
                remove_item(state, action, pending),
            _ => update_view(action, pending),
        },
        Message::LoadList => {
            let mut outcome = Outcome::effect(Effect::LoadZones);
            outcome.requests.push(Request::NavigationLoading);
            outcome
        },
        Message::LoadDetails(zone) => {
            state.detail = ZoneViewState::Loading { zone: zone.clone() };
            let mut outcome = Outcome::effect(Effect::LoadDetails(zone.clone()));
            outcome.requests.push(Request::ReconciliationSelectionChanged(Some(zone)));
            outcome
        },
        Message::LoadDefault => Outcome::effect(Effect::LoadDefault),
        Message::LoadActive => Outcome::effect(Effect::LoadActive),
        Message::LoadStatus => {
            state.firewalld_status = FirewalldStatus::Loading;
            Outcome::effect(Effect::LoadStatus)
        },
        Message::ClearSelection => {
            state.detail = ZoneViewState::Empty;
            Outcome::default()
        },
        Message::ShowListError(message) => {
            state.detail = ZoneViewState::Error { zone: owned("zones"), message };
            Outcome::default()
        },
        Message::SetDefault(zone) => begin_effect(
            pending,
            Mutation::SetDefaultZone,
            Effect::SetDefault(zone),
        ),
        Message::Create { name, description, target } => begin_effect(
            pending,
            Mutation::CreateZone,
            Effect::CreateZone { name, description, target },
        ),
        Message::Rename { old_name, new_name } => begin_effect(
            pending,
            Mutation::RenameZone,
            Effect::RenameZone { old_name, new_name },
        ),
        Message::Delete(zone) => begin_effect(pending, Mutation::DeleteZone, Effect::DeleteZone(zone)),
        Message::AddService { zone, service } => begin_effect(
            pending,
            Mutation::AddService,
            Effect::AddService { zone, service },
        ),
        Message::AddPort { zone, port, protocol } => begin_effect(
            pending,
            Mutation::AddPort,
            Effect::AddPort { zone, port, protocol },
        ),
        Message::AddSourcePort { zone, port, protocol } => begin_effect(
            pending,
            Mutation::AddSourcePort,
            Effect::AddSourcePort { zone, port, protocol },
        ),
        Message::AddForwardPort { zone, port, protocol, to_port, to_addr } => begin_effect(
            pending,
            Mutation::AddForwardPort,
            Effect::AddForwardPort { zone, port, protocol, to_port, to_addr },
        ),
        Message::AddInterface { zone, interface } => begin_effect(
            pending,
            Mutation::AddInterface,
            Effect::AddInterface { zone, interface },
        ),
        Message::AddSource { zone, source } => begin_effect(
            pending,
            Mutation::AddSource,
            Effect::AddSource { zone, source },
        ),
        Message::AddIcmp { zone, icmp } => begin_effect(
            pending,
            Mutation::AddIcmp,
            Effect::AddIcmp { zone, icmp },
        ),
        Message::AddRichRule { zone, rule } => begin_effect(
            pending,
            Mutation::AddRichRule,
            Effect::AddRichRule { zone, rule },
        ),
        Message::Remove(action) => match action {
            ZoneViewAction::RemoveService(..) | ZoneViewAction::RemoveInterface(..)
            | ZoneViewAction::RemoveSource(..) | ZoneViewAction::RemovePort { .. }
            | ZoneViewAction::RemoveForwardPort { .. } | ZoneViewAction::RemoveSourcePort { .. }
            | ZoneViewAction::RemoveIcmpBlock(..) | ZoneViewAction::RemoveRichRule(..) =>
                remove_item(state, action, pending),
            _ => Outcome::default(),
        },
        Message::SetMasquerade(enabled) => toggle_setting(state, true, enabled, pending),
        Message::SetIcmpBlockInversion(enabled) => toggle_setting(state, false, enabled, pending),
        Message::ControlFirewalld(start) => control_firewalld(state, start, pending),
        Message::ConfirmDelete(zone) => Outcome::request(Request::ConfirmDeleteZone(zone)),
        Message::ListLoaded(result) => Outcome::request(
            Request::NavigationZonesLoaded(shown_error(result)),
        ),
        Message::DefaultLoaded(result) => Outcome::request(
            Request::NavigationDefaultLoaded(shown_error(result)),
        ),
        Message::ActiveLoaded(result) => Outcome::request(
            Request::NavigationActiveLoaded(shown_error(result)),
        ),
        Message::DetailsLoaded { zone_name, result } => finish_details(
            state,
            zone_name,
            *result,
            context.selected_zone,
        ),
        Message::FirewalldStatusLoaded(result) => finish_status(
            state,
            result,
            context.reconciliation_refreshing,
        ),
        Message::DefaultSet(result) => match result {
            Ok(()) => {
                let mut requests: Vec<Request> = Vec::new();
                requests.push(Request::FinishMutation(Ok(())));
                requests.push(Request::RefreshDefault);
                assert(requests@ =~= seq![Request::FinishMutation(Ok(())), Request::RefreshDefault]);
                requests_of(requests)
            },
            Err(error) => failed(error),
        },
        Message::Created { result, .. } => match result {
            Ok(()) => {
                let mut requests: Vec<Request> = Vec::new();
                requests.push(Request::MarkRuntimeDirty);
                requests.push(Request::ResetDialog(DialogKind::Zone));
                requests.push(Request::CloseDrawer);
                requests.push(Request::FinishMutation(Ok(())));
                requests.push(Request::RefreshZones);
                assert(requests@ =~= seq![
                    Request::MarkRuntimeDirty,
                    Request::ResetDialog(DialogKind::Zone),
                    Request::CloseDrawer,
                    Request::FinishMutation(Ok(())),
                    Request::RefreshZones,
                ]);
                requests_of(requests)
            },
            Err(error) => failed(error),
        },
        Message::Renamed { old_name, new_name, result } => match result {
            Ok(()) => {
                let mut requests: Vec<Request> = Vec::new();
                let ghost renamed = Request::PreserveZoneRename { old_name, new_name };
                requests.push(Request::PreserveZoneRename { old_name, new_name });
                requests.push(Request::MarkRuntimeDirty);
                requests.push(Request::ResetDialog(DialogKind::Zone));
                requests.push(Request::CloseDrawer);
                requests.push(Request::FinishMutation(Ok(())));
                requests.push(Request::RefreshZones);
                assert(requests@ =~= seq![
                    renamed,
                    Request::MarkRuntimeDirty,
                    Request::ResetDialog(DialogKind::Zone),
                    Request::CloseDrawer,
                    Request::FinishMutation(Ok(())),
                    Request::RefreshZones,
                ]);
                requests_of(requests)
            },
            Err(error) => failed(error),
        },
        Message::Deleted { zone_name, result } => finish_delete(
            state,
            zone_name,
            result,
            context.selected_zone,
        ),
        Message::ItemAdded { zone_name, result } => finish_item_change(zone_name, result, context),
        Message::ItemRemoved { zone_name, result } => finish_item_change(zone_name, result, context),
        Message::DaemonControlFinished(result) => match result {
            Ok(()) => {
                let mut requests: Vec<Request> = Vec::new();
                requests.push(Request::FinishMutation(Ok(())));
                requests.push(Request::RefreshStatus);
                assert(requests@ =~= seq![Request::FinishMutation(Ok(())), Request::RefreshStatus]);
                requests_of(requests)
            },
            Err(error) => failed(error),
        },
    }
}

} // verus!
