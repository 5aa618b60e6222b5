//! The selected-zone reconciliation lifecycle: request identity, rejection of
//! stale responses, coalescing of configuration events, watcher health and
//! the messages that drive them.
use vstd::prelude::*;

use crate::broker::BrokerError;
use crate::events::{ConfigurationEvent, ConfigurationRefreshCoordinator, CoordinatorView, RefreshRequest};
use crate::outcome::Outcome;
use crate::reconciliation::{classified, ZoneReconciliationData, ZoneReconciliationState};
use crate::text::{owned, str_equal};

verus! {

/// A point in wall-clock time.
#[verifier::external_type_specification]
#[verifier::external_body]
pub struct ExSystemTime(std::time::SystemTime);

/// Reads the wall clock (`std::time::SystemTime::now`). Nothing is stated of
/// the result: it depends on the moment of the call.
#[verifier::external_body]
fn clock_now() -> (r: std::time::SystemTime) {
    std::time::SystemTime::now()
}

/// The time elapsed since `t` (`SystemTime::elapsed`), or `None` when the
/// clock now reads earlier than `t`. Nothing is stated of the result: it
/// depends on the moment of the call.
#[verifier::external_body]
fn elapsed_since(t: &std::time::SystemTime) -> (r: Option<std::time::Duration>) {
    t.elapsed().ok()
}

/// The whole seconds of a duration (`Duration::as_secs`). Nothing is stated
/// of the result: a duration is opaque here.
#[verifier::external_body]
fn whole_seconds(d: &std::time::Duration) -> (r: u64) {
    d.as_secs()
}

/// User actions of the reconciliation banner and review drawer.
#[derive(Clone, Copy, Debug, PartialEq, Eq, Structural)]
pub enum ReconciliationAction {
    /// Open the detailed comparison drawer.
    Review,
    /// Reload the permanent and runtime snapshots of the selected zone.
    Refresh,
    /// Ask to apply permanent configuration to runtime.
    ApplyPermanentToRuntime,
    /// Ask to save runtime configuration as permanent.
    SaveRuntimeAsPermanent,
}

/// Messages of the reconciliation lifecycle.
#[derive(Debug)]
pub enum Message {
    /// An action of the banner or the review drawer.
    Action(ReconciliationAction),
    /// Begin loading the comparison of a zone.
    Load(String),
    /// Apply permanent configuration after confirmation.
    ApplyPermanent,
    /// Persist runtime configuration after confirmation.
    PersistRuntime,
    /// A comparison load completed.
    LoadCompleted {
        /// Zone requested by the load.
        zone: String,
        /// Selection identity captured when the load began.
        generation: u64,
        /// Loaded data or a displayable error.
        result: Box<Result<ZoneReconciliationData, String>>,
    },
    /// A configuration event or a watcher failure.
    ConfigurationEvent(Result<ConfigurationEvent, String>),
    /// Applying permanent configuration finished.
    PermanentApplied(Result<(), BrokerError>),
    /// Persisting runtime configuration finished.
    RuntimePersisted(Result<(), BrokerError>),
}

/// What the reconciliation reducer reads from the rest of the application.
pub struct Context<'a> {
    /// Zone selected by navigation.
    pub selected_zone: Option<&'a str>,
    /// Zone represented by the ready detail view.
    pub ready_zone: Option<&'a str>,
    /// Whether firewalld is active.
    pub firewalld_active: bool,
    /// Whether any part of the application holds the mutation slot.
    pub mutation_pending: bool,
}

/// Asynchronous work of the reconciliation lifecycle.
#[derive(Clone, Debug, PartialEq, Eq)]
pub enum Effect {
    /// Load permanent and runtime snapshots.
    Load {
        /// Zone to load.
        zone: String,
        /// Selection identity of the request.
        generation: u64,
    },
    /// Apply permanent configuration globally to runtime.
    ApplyPermanent,
    /// Persist global runtime configuration permanently.
    PersistRuntime,
}

/// The global mutations that reconciliation starts.
#[derive(Clone, Copy, Debug, PartialEq, Eq, Structural)]
pub enum Mutation {
    /// Applying permanent configuration to runtime.
    ApplyPermanent,
    /// Persisting runtime configuration.
    PersistRuntime,
}

/// Coordination that reconciliation asks of the application.
#[derive(Debug)]
pub enum Request {
    /// Open the review drawer.
    OpenReview,
    /// Ask for confirmation before applying permanent configuration.
    ConfirmApplyPermanent,
    /// Ask for confirmation before persisting runtime configuration.
    ConfirmPersistRuntime,
    /// Take the global mutation slot.
    BeginMutation(Mutation),
    /// Release the global mutation slot with the mutation's result.
    FinishMutation(Result<(), BrokerError>),
    /// Forget that runtime configuration was changed.
    ClearRuntimeDirty,
    /// Refresh after a configuration event.
    ConfigurationRefresh(ConfigurationEvent),
    /// Reload the firewalld status.
    RefreshFirewalldStatus,
    /// Reload the zone list.
    RefreshZones,
    /// Reload the IP-set list.
    RefreshIpSets,
    /// Reload the dialog catalogs.
    RefreshCatalogs,
}

/// Selected-zone reconciliation state and refresh coordination.
#[derive(Debug)]
pub struct State {
    last_checked: Option<std::time::SystemTime>,
    state: ZoneReconciliationState,
    coordinator: ConfigurationRefreshCoordinator,
}

/// The observable state of the reconciliation lifecycle.
pub struct ReconcilerView {
    /// Whether a comparison has ever loaded successfully.
    pub checked: bool,
    /// The comparison state.
    pub state: ZoneReconciliationState,
    /// Request identity, refresh coalescing and watcher warning.
    pub coordinator: CoordinatorView,
}

impl View for State {
    type V = ReconcilerView;

    closed spec fn view(&self) -> ReconcilerView {
        ReconcilerView {
            checked: self.last_checked is Some,
            state: self.state,
            coordinator: self.coordinator@,
        }
    }
}

/// The zone that a comparison state is bound to.
pub open spec fn selected_zone_of(s: ZoneReconciliationState) -> Option<Seq<char>> {
    match s {
        ZoneReconciliationState::Loading { zone } => Some(zone@),
        ZoneReconciliationState::InSync { zone, .. } => Some(zone@),
        ZoneReconciliationState::Different { zone, .. } => Some(zone@),
        ZoneReconciliationState::Incomplete { zone, .. } => Some(zone@),
        ZoneReconciliationState::Error { zone, .. } => Some(zone@),
        ZoneReconciliationState::Unavailable { zone } => match zone {
            Some(z) => Some(z@),
            None => None,
        },
    }
}

/// The view of an optional string slice.
pub open spec fn opt_view(o: Option<&str>) -> Option<Seq<char>> {
    match o {
        Some(s) => Some(s@),
        None => None,
    }
}

fn option_names(o: Option<&str>, zone: &str) -> (r: bool)
    ensures
        r == (opt_view(o) == Some(zone@)),
{
    match o {
        Some(s) => str_equal(s, zone),
        None => false,
    }
}

impl Default for State {
    fn default() -> (r: Self)
        ensures
            !r@.checked,
            r@.state == (ZoneReconciliationState::Unavailable { zone: None }),
            r@.coordinator.generation == 0,
            !r@.coordinator.refreshing,
            !r@.coordinator.pending,
            r@.coordinator.warning is None,
    {
        State {
            last_checked: None,
            state: ZoneReconciliationState::default(),
            coordinator: ConfigurationRefreshCoordinator::default(),
        }
    }
}

impl State {
    /// Whole seconds since the last successful comparison, when there was one
    /// and the clock has not gone back since.
    pub fn last_checked_age_seconds(&self) -> (r: Option<u64>)
        ensures
            !self@.checked ==> r is None,
    {
        match &self.last_checked {
            Some(checked) => match elapsed_since(checked) {
                Some(elapsed) => Some(whole_seconds(&elapsed)),
                None => None,
            },
            None => None,
        }
    }

    /// The comparison state.
    pub fn state(&self) -> (r: &ZoneReconciliationState)
        ensures
            *r == self@.state,
    {
        &self.state
    }

    /// The zone that the comparison state is bound to.
    pub fn selected_zone(&self) -> (r: Option<&str>)
        ensures
            opt_view(r) == selected_zone_of(self@.state),
    {
        match &self.state {
            ZoneReconciliationState::Loading { zone } => Some(zone.as_str()),
            ZoneReconciliationState::InSync { zone, .. } => Some(zone.as_str()),
            ZoneReconciliationState::Different { zone, .. } => Some(zone.as_str()),
            ZoneReconciliationState::Incomplete { zone, .. } => Some(zone.as_str()),
            ZoneReconciliationState::Error { zone, .. } => Some(zone.as_str()),
            ZoneReconciliationState::Unavailable { zone } => match zone {
                Some(z) => Some(z.as_str()),
                None => None,
            },
        }
    }

    /// Rebinds reconciliation to a newly selected or renamed zone and returns
    /// the new request identity.
    pub fn selection_changed(&mut self, zone: Option<String>) -> (r: u64)
        ensures
            r == crate::events::next_generation(old(self)@.coordinator.generation),
            final(self)@.coordinator.generation == r,
            final(self)@.coordinator.refreshing == old(self)@.coordinator.refreshing,
            final(self)@.coordinator.pending == old(self)@.coordinator.pending,
            final(self)@.coordinator.warning == old(self)@.coordinator.warning,
            final(self)@.state == (ZoneReconciliationState::Unavailable { zone }),
            final(self)@.checked == old(self)@.checked,
    {
        let generation = self.coordinator.selection_changed();
        self.state = ZoneReconciliationState::Unavailable { zone };
        generation
    }

    /// Marks the runtime comparison unavailable, keeping the request identity.
    pub fn set_unavailable(&mut self, zone: Option<String>)
        ensures
            final(self)@.state == (ZoneReconciliationState::Unavailable { zone }),
            final(self)@.coordinator == old(self)@.coordinator,
            final(self)@.checked == old(self)@.checked,
    {
        self.state = ZoneReconciliationState::Unavailable { zone };
    }

    /// Begins a comparison of `zone` and returns its request identity.
    pub fn begin_load(&mut self, zone: String) -> (r: u64)
        ensures
            r == old(self)@.coordinator.generation,
            final(self)@.state == (ZoneReconciliationState::Loading { zone }),
            final(self)@.coordinator == old(self)@.coordinator,
            final(self)@.checked == old(self)@.checked,
    {
        self.state = ZoneReconciliationState::Loading { zone };
        self.coordinator.generation()
    }

    /// Applies a completed load when both its zone and its identity are
    /// current, and returns whether it did.
    pub fn complete_load(
        &mut self,
        zone: String,
        generation: u64,
        result: Result<ZoneReconciliationData, String>,
    ) -> (r: bool)
        ensures
            r == (generation == old(self)@.coordinator.generation && selected_zone_of(
                old(self)@.state,
            ) == Some(zone@)),
            !r ==> final(self)@ == old(self)@,
            r ==> final(self)@.coordinator == old(self)@.coordinator,
            r ==> match result {
                Ok(data) => final(self)@.state == classified(zone, data) && final(self)@.checked,
                Err(message) => final(self)@.state == (ZoneReconciliationState::Error {
                    zone,
                    message,
                }) && final(self)@.checked == old(self)@.checked,
            },
    {
        let current = match self.selected_zone() {
            Some(selected) => str_equal(selected, zone.as_str()),
            None => false,
        };
        if !self.coordinator.accepts(generation) || !current {
            return false;
        }
        match result {
            Ok(data) => {
                self.state = ZoneReconciliationState::from_data(zone, data);
                self.last_checked = Some(clock_now());
            },
            Err(message) => {
                self.state = ZoneReconciliationState::Error { zone, message };
            },
        }
        true
    }

    /// Schedules a refresh after a configuration event was received, which
    /// also shows that the watcher works again.
    pub fn handle_configuration_event(&mut self, blocked: bool) -> (r: RefreshRequest)
        ensures
            final(self)@.state == old(self)@.state,
            final(self)@.checked == old(self)@.checked,
            final(self)@.coordinator.warning is None,
            final(self)@.coordinator.generation == old(self)@.coordinator.generation,
            if blocked || old(self)@.coordinator.refreshing {
                &&& r == RefreshRequest::Coalesced
                &&& final(self)@.coordinator.pending
                &&& final(self)@.coordinator.refreshing == old(self)@.coordinator.refreshing
            } else {
                &&& r == RefreshRequest::Start
                &&& final(self)@.coordinator.refreshing
                &&& final(self)@.coordinator.pending == old(self)@.coordinator.pending
            },
    {
        self.coordinator.watcher_recovered();
        self.coordinator.request_refresh(blocked)
    }

    /// Keeps a watcher warning while manual refresh stays usable.
    pub fn watcher_failed(&mut self, message: String)
        ensures
            final(self)@.state == old(self)@.state,
            final(self)@.checked == old(self)@.checked,
            final(self)@.coordinator.warning == Some(message@),
            final(self)@.coordinator.generation == old(self)@.coordinator.generation,
            final(self)@.coordinator.refreshing == old(self)@.coordinator.refreshing,
            final(self)@.coordinator.pending == old(self)@.coordinator.pending,
    {
        self.coordinator.watcher_failed(message);
    }

    /// The current watcher warning.
    pub fn watch_warning(&self) -> (r: Option<&str>)
        ensures
            opt_view(r) == self@.coordinator.warning,
    {
        self.coordinator.watch_warning()
    }

    /// Finishes active refresh work and returns whether one coalesced
    /// follow-up is due.
    pub fn refresh_finished(&mut self) -> (r: bool)
        ensures
            r == old(self)@.coordinator.pending,
            !final(self)@.coordinator.pending,
            final(self)@.coordinator.refreshing == r,
            final(self)@.coordinator.generation == old(self)@.coordinator.generation,
            final(self)@.coordinator.warning == old(self)@.coordinator.warning,
            final(self)@.state == old(self)@.state,
            final(self)@.checked == old(self)@.checked,
    {
        self.coordinator.finish_refresh()
    }

    /// Whether refresh work is active.
    pub fn is_refreshing(&self) -> (r: bool)
        ensures
            r == self@.coordinator.refreshing,
    {
        self.coordinator.is_refreshing()
    }

    /// Takes a deferred refresh when no refresh is active, and returns whether
    /// one was taken.
    pub fn take_deferred_refresh(&mut self) -> (r: bool)
        ensures
            r == (old(self)@.coordinator.pending && !old(self)@.coordinator.refreshing),
            r ==> final(self)@.coordinator.refreshing && !final(self)@.coordinator.pending,
            !r ==> final(self)@.coordinator == old(self)@.coordinator,
            final(self)@.coordinator.generation == old(self)@.coordinator.generation,
            final(self)@.coordinator.warning == old(self)@.coordinator.warning,
            final(self)@.state == old(self)@.state,
            final(self)@.checked == old(self)@.checked,
    {
        self.coordinator.has_pending() && !self.coordinator.is_refreshing()
            && self.coordinator.finish_refresh()
    }

    /// Whether a comparison is loading.
    pub fn is_loading(&self) -> (r: bool)
        ensures
            r == self@.state is Loading,
    {
        matches!(self.state, ZoneReconciliationState::Loading { .. })
    }
}

fn load(state: &mut State, zone: String) -> (r: Outcome<Effect, Request>)
    ensures
        final(state)@.state == (ZoneReconciliationState::Loading { zone }),
        final(state)@.coordinator == old(state)@.coordinator,
        final(state)@.checked == old(state)@.checked,
        r.effects@ == seq![Effect::Load { zone, generation: old(state)@.coordinator.generation }],
        r.requests@.len() == 0,
{
    let generation = state.begin_load(zone.clone());
    Outcome::effect(Effect::Load { zone, generation })
}

fn begin_mutation(pending: bool, mutation: Mutation, effect: Effect) -> (r: Outcome<Effect, Request>)
    ensures
        pending ==> r.effects@.len() == 0 && r.requests@.len() == 0,
        !pending ==> r.effects@ == seq![effect] && r.requests@ == seq![Request::BeginMutation(mutation)],
{
    if pending {
        Outcome::default()
    } else {
        let mut outcome = Outcome::effect(effect);
        outcome.requests.push(Request::BeginMutation(mutation));
        outcome
    }
}

/// Finishes coordinated refresh work and schedules one coalesced follow-up.
pub fn finish_refresh(state: &mut State) -> (r: Outcome<Effect, Request>)
    ensures
        !final(state)@.coordinator.pending,
        final(state)@.coordinator.refreshing == old(state)@.coordinator.pending,
        final(state)@.coordinator.generation == old(state)@.coordinator.generation,
        final(state)@.coordinator.warning == old(state)@.coordinator.warning,
        final(state)@.state == old(state)@.state,
        final(state)@.checked == old(state)@.checked,
        r.effects@.len() == 0,
        old(state)@.coordinator.pending ==> r.requests@ == seq![
            Request::ConfigurationRefresh(ConfigurationEvent::Reloaded),
        ],
        !old(state)@.coordinator.pending ==> r.requests@.len() == 0,
{
    if state.refresh_finished() {
        Outcome::request(Request::ConfigurationRefresh(ConfigurationEvent::Reloaded))
    } else {
        Outcome::default()
    }
}

/// What an action of the banner or drawer does: `old` and `new` are the
/// states before and after, `effects` and `requests` the work it emits.
pub open spec fn action_result(
    old: ReconcilerView,
    new: ReconcilerView,
    effects: Seq<Effect>,
    requests: Seq<Request>,
    action: ReconciliationAction,
    context: Context<'_>,
) -> bool {
    match action {
        ReconciliationAction::Review => new == old && effects.len() == 0
            && requests == seq![Request::OpenReview],
        ReconciliationAction::Refresh => match context.selected_zone {
            None => new == old && effects.len() == 0 && requests.len()
                == 0,
            Some(zone) => if !context.firewalld_active {
                &&& new.state matches ZoneReconciliationState::Unavailable {
                    zone: Some(z),
                } && z@ == zone@
                &&& new.coordinator == old.coordinator
                &&& new.checked == old.checked
                &&& effects.len() == 0
                &&& requests.len() == 0
            } else {
                &&& new.state matches ZoneReconciliationState::Loading { zone: z }
                    && z@ == zone@
                &&& new.coordinator == old.coordinator
                &&& new.checked == old.checked
                &&& effects.len() == 1
                &&& effects[0] matches Effect::Load { zone: z, generation } && z@ == zone@
                    && generation == old.coordinator.generation
                &&& requests.len() == 0
            },
        },
        ReconciliationAction::ApplyPermanentToRuntime => new == old
            && effects.len() == 0 && requests == seq![Request::ConfirmApplyPermanent],
        ReconciliationAction::SaveRuntimeAsPermanent => new == old
            && effects.len() == 0 && requests == seq![Request::ConfirmPersistRuntime],
    }
}

fn update_action(state: &mut State, action: ReconciliationAction, context: Context<'_>) -> (r:
    Outcome<Effect, Request>)
    ensures
        action_result(old(state)@, final(state)@, r.effects@, r.requests@, action, context),
{
    match action {
        ReconciliationAction::Review => Outcome::request(Request::OpenReview),
        ReconciliationAction::Refresh => match context.selected_zone {
            None => Outcome::default(),
            Some(zone) => {
                if !context.firewalld_active {
                    state.set_unavailable(Some(owned(zone)));
                    Outcome::default()
                } else {
                    load(state, owned(zone))
                }
            },
        },
        ReconciliationAction::ApplyPermanentToRuntime => Outcome::request(
            Request::ConfirmApplyPermanent,
        ),
        ReconciliationAction::SaveRuntimeAsPermanent => Outcome::request(
            Request::ConfirmPersistRuntime,
        ),
    }
}

/// Applies one reconciliation message.
pub fn update(state: &mut State, message: Message, context: Context<'_>) -> (r: Outcome<
    Effect,
    Request,
>)
    ensures
        match message {
            Message::Action(action) => action_result(
                old(state)@,
                final(state)@,
                r.effects@,
                r.requests@,
                action,
                context,
            ),
            Message::Load(zone) => {
                &&& final(state)@.state == (ZoneReconciliationState::Loading { zone })
                &&& final(state)@.coordinator == old(state)@.coordinator
                &&& final(state)@.checked == old(state)@.checked
                &&& r.effects@ == seq![
                    Effect::Load { zone, generation: old(state)@.coordinator.generation },
                ]
                &&& r.requests@.len() == 0
            },
            Message::ApplyPermanent => {
                &&& final(state)@ == old(state)@
                &&& context.mutation_pending ==> r.effects@.len() == 0 && r.requests@.len() == 0
                &&& !context.mutation_pending ==> r.effects@ == seq![Effect::ApplyPermanent]
                    && r.requests@ == seq![Request::BeginMutation(Mutation::ApplyPermanent)]
            },
            Message::PersistRuntime => {
                &&& final(state)@ == old(state)@
                &&& context.mutation_pending ==> r.effects@.len() == 0 && r.requests@.len() == 0
                &&& !context.mutation_pending ==> r.effects@ == seq![Effect::PersistRuntime]
                    && r.requests@ == seq![Request::BeginMutation(Mutation::PersistRuntime)]
            },
            Message::ConfigurationEvent(Ok(event)) => {
                let blocked = context.mutation_pending || old(state)@.state is Loading;
                &&& final(state)@.state == old(state)@.state
                &&& final(state)@.checked == old(state)@.checked
                &&& final(state)@.coordinator.warning is None
                &&& final(state)@.coordinator.generation == old(state)@.coordinator.generation
                &&& r.effects@.len() == 0
                &&& if blocked || old(state)@.coordinator.refreshing {
                    &&& r.requests@.len() == 0
                    &&& final(state)@.coordinator.pending
                    &&& final(state)@.coordinator.refreshing == old(state)@.coordinator.refreshing
                } else {
                    &&& r.requests@ == seq![Request::ConfigurationRefresh(event)]
                    &&& final(state)@.coordinator.refreshing
                    &&& final(state)@.coordinator.pending == old(state)@.coordinator.pending
                }
            },
            Message::ConfigurationEvent(Err(error)) => {
                &&& final(state)@.state == old(state)@.state
                &&& final(state)@.checked == old(state)@.checked
                &&& final(state)@.coordinator.warning == Some(error@)
                &&& final(state)@.coordinator.generation == old(state)@.coordinator.generation
                &&& final(state)@.coordinator.refreshing == old(state)@.coordinator.refreshing
                &&& final(state)@.coordinator.pending == old(state)@.coordinator.pending
                &&& r.effects@.len() == 0
                &&& r.requests@.len() == 0
            },
            Message::LoadCompleted { zone, generation, result } => {
                let accepted = opt_view(context.selected_zone) == Some(zone@) && opt_view(
                    context.ready_zone,
                ) == Some(zone@) && generation == old(state)@.coordinator.generation
                    && selected_zone_of(old(state)@.state) == Some(zone@);
                &&& r.effects@.len() == 0
                &&& !accepted ==> final(state)@ == old(state)@ && r.requests@.len() == 0
                &&& accepted ==> {
                    &&& match *result {
                        Ok(data) => final(state)@.state == classified(zone, data)
                            && final(state)@.checked,
                        Err(message) => final(state)@.state == (ZoneReconciliationState::Error {
                            zone,
                            message,
                        }) && final(state)@.checked == old(state)@.checked,
                    }
                    &&& !final(state)@.coordinator.pending
                    &&& final(state)@.coordinator.refreshing == old(state)@.coordinator.pending
                    &&& final(state)@.coordinator.generation == old(state)@.coordinator.generation
                    &&& final(state)@.coordinator.warning == old(state)@.coordinator.warning
                    &&& old(state)@.coordinator.pending ==> r.requests@ == seq![
                        Request::ConfigurationRefresh(ConfigurationEvent::Reloaded),
                    ]
                    &&& !old(state)@.coordinator.pending ==> r.requests@.len() == 0
                }
            },
            Message::PermanentApplied(result) => {
                &&& final(state)@ == old(state)@
                &&& r.effects@.len() == 0
                &&& result is Ok ==> r.requests@ == seq![
                    Request::ClearRuntimeDirty,
                    Request::FinishMutation(result),
                    Request::RefreshFirewalldStatus,
                    Request::RefreshZones,
                ]
                &&& result is Err ==> r.requests@ == seq![
                    Request::FinishMutation(result),
                    Request::RefreshFirewalldStatus,
                ]
            },
            Message::RuntimePersisted(result) => {
                &&& final(state)@ == old(state)@
                &&& r.effects@.len() == 0
                &&& result is Ok ==> r.requests@ == seq![
                    Request::FinishMutation(result),
                    Request::RefreshFirewalldStatus,
                    Request::RefreshZones,
                    Request::RefreshIpSets,
                    Request::RefreshCatalogs,
                ]
                &&& result is Err ==> r.requests@ == seq![Request::FinishMutation(result)]
            },
        },
{
    match message {
        Message::Action(action) => update_action(state, action, context),
        Message::Load(zone) => load(state, zone),
        Message::ApplyPermanent => begin_mutation(
            context.mutation_pending,
            Mutation::ApplyPermanent,
            Effect::ApplyPermanent,
        ),
        Message::PersistRuntime => begin_mutation(
            context.mutation_pending,
            Mutation::PersistRuntime,
            Effect::PersistRuntime,
        ),
        Message::ConfigurationEvent(result) => match result {
            Ok(event) => {
                let blocked = context.mutation_pending || state.is_loading();
                match state.handle_configuration_event(blocked) {
                    RefreshRequest::Start => Outcome::request(Request::ConfigurationRefresh(event)),
                    RefreshRequest::Coalesced => Outcome::default(),
                }
            },
            Err(error) => {
                state.watcher_failed(error);
                Outcome::default()
            },
        },
        Message::LoadCompleted { zone, generation, result } => {
            let current = option_names(context.selected_zone, zone.as_str()) && option_names(
                context.ready_zone,
                zone.as_str(),
            );
            if !current {
                return Outcome::default();
            }
            if !state.complete_load(zone, generation, *result) {
                return Outcome::default();
            }
            finish_refresh(state)
        },
        Message::PermanentApplied(result) => {
            let succeeded = result.is_ok();
            let mut requests: Vec<Request> = Vec::new();
            if succeeded {
                requests.push(Request::ClearRuntimeDirty);
            }
            requests.push(Request::FinishMutation(result));
            requests.push(Request::RefreshFirewalldStatus);
            if succeeded {
                requests.push(Request::RefreshZones);
            }
            Outcome { effects: Vec::new(), requests }
        },
        Message::RuntimePersisted(result) => {
            let succeeded = result.is_ok();
            let mut requests: Vec<Request> = Vec::new();
            requests.push(Request::FinishMutation(result));
            if succeeded {
                requests.push(Request::RefreshFirewalldStatus);
                requests.push(Request::RefreshZones);
                requests.push(Request::RefreshIpSets);
                requests.push(Request::RefreshCatalogs);
            }
            Outcome { effects: Vec::new(), requests }
        },
    }
}

} // verus!
