//! The application's root decisions: what each request of a feature does to
//! the state that the root owns (the context drawer, the dialog forms, the
//! mutation slot and the pending confirmation), and which feature receives
//! work next.
//!
//! The shell drives the loop: it hands a feature's requests here one at a
//! time, in order, and runs each returned dispatch to completion before it
//! hands over the next request, so that later requests see the state that
//! earlier ones left.
use vstd::prelude::*;

use crate::broker::BrokerError;
use crate::catalogs;
use crate::dialogs::{reset_matches, select_zone_first_id, DialogKind, DialogState, Submission};
use crate::events::ConfigurationEvent;
use crate::ipsets;
use crate::navigation::{self, same_lists, ItemView, Sidebar};
use crate::operations;
use crate::pages::{page_descriptor, ContextCatalog, ContextPage};
use crate::reconciler;
use crate::refresh::ConfigurationRefreshPlan;
use crate::text::owned;
use crate::zones::{self, ready_zone};
use crate::dialogs::port::{PortFormState, PortKind};

verus! {

/// A destructive action awaiting explicit confirmation.
#[derive(Debug, Clone, PartialEq, Eq)]
pub enum Confirmation {
    DeleteZone(String),
    DeleteIpSet(String),
    StopFirewalld,
    ApplyPermanentConfiguration,
    SaveRuntimeConfiguration,
}

/// Work that the IP-set feature receives from the root.
#[derive(Debug, Clone, PartialEq, Eq)]
pub enum IpSetCommand {
    /// Reload the IP-set list.
    LoadList,
    /// Delete an IP set.
    Delete(String),
    /// Create an IP set with its first entries.
    Create { name: String, ipset_type: String, entries: Vec<String> },
}

/// The work that a root decision hands on, to be run to completion in order.
#[derive(Debug)]
pub enum Dispatch {
    /// A message for the zone feature.
    Zone(zones::Message),
    /// A message for navigation.
    Navigation(navigation::Message),
    /// A message for the reconciliation feature.
    Reconciliation(reconciler::Message),
    /// A message for the catalogs.
    Catalog(catalogs::Message),
    /// Work for the IP-set feature.
    IpSet(IpSetCommand),
    /// Plan and start the refresh that a configuration event calls for.
    ConfigurationRefresh(ConfigurationEvent),
    /// Finish the configuration refresh in progress.
    FinishConfigurationRefresh,
    /// Release the mutation slot and report how the mutation ended.
    FinishMutation(Result<(), BrokerError>),
    /// Show the selected entry in the window title.
    RefreshTitle,
    /// Open an external link.
    LaunchUrl(String),
    /// Mark the runtime comparison unavailable for the given zone.
    ReconciliationUnavailable(Option<String>),
}

/// The state that the root owns besides the features.
#[derive(Debug)]
pub struct Shell {
    /// The page of the context drawer.
    pub context_page: ContextPage,
    /// Whether the context drawer is shown.
    pub show_context: bool,
    /// The dialog forms.
    pub dialogs: DialogState,
    /// The mutation slot, the pending confirmation and the reload reminder.
    pub operations: operations::State<Confirmation>,
}

/// How a finished mutation is reported.
#[derive(Debug, Clone, PartialEq, Eq)]
pub struct MutationReport {
    /// The name of the mutation that finished.
    pub operation: String,
    /// The broker's message when the mutation failed.
    pub error: Option<String>,
    /// Whether a deferred configuration refresh is now due.
    pub refresh: bool,
}

/// The catalog message that opening `page` sends.
pub open spec fn catalog_load(page: ContextPage) -> Option<catalogs::Message> {
    match page_descriptor(page).catalog {
        Some(ContextCatalog::Services) => Some(catalogs::Message::LoadServices),
        Some(ContextCatalog::Interfaces) => Some(catalogs::Message::LoadInterfaces),
        Some(ContextCatalog::IcmpTypes) => Some(catalogs::Message::LoadIcmpTypes),
        None => None,
    }
}

/// The forms after `page` opens: the form that the page hosts is reset and
/// the others are kept; a page without a form changes nothing.
pub open spec fn dialog_prepared(before: DialogState, after: DialogState, page: ContextPage) -> bool {
    match page_descriptor(page).dialog {
        Some(kind) => reset_matches(before, after, kind),
        None => after == before,
    }
}

/// The dispatches that a list of catalog messages makes, in order.
pub open spec fn catalog_dispatch(m: Option<catalogs::Message>) -> Seq<Dispatch> {
    match m {
        Some(message) => seq![Dispatch::Catalog(message)],
        None => Seq::empty(),
    }
}

fn reset_dialog_for_context(dialogs: &mut DialogState, page: ContextPage)
    ensures
        dialog_prepared(*old(dialogs), *final(dialogs), page),
{
    match page.descriptor().dialog {
        Some(kind) => dialogs.reset(kind),
        None => {},
    }
}

fn load_context_catalog(page: ContextPage) -> (r: Option<catalogs::Message>)
    ensures
        r == catalog_load(page),
{
    match page.descriptor().catalog {
        Some(ContextCatalog::Services) => Some(catalogs::Message::LoadServices),
        Some(ContextCatalog::Interfaces) => Some(catalogs::Message::LoadInterfaces),
        Some(ContextCatalog::IcmpTypes) => Some(catalogs::Message::LoadIcmpTypes),
        None => None,
    }
}

impl Shell {
    /// The drawer closed on the about page, fresh forms, and no mutation,
    /// confirmation or reload reminder.
    pub fn new() -> (r: Self)
        ensures
            r.context_page == ContextPage::About,
            !r.show_context,
            r.dialogs.operation_error is None,
            r.operations.pending is None,
            r.operations.confirmation is None,
            !r.operations.runtime_reload_needed,
    {
        Shell {
            context_page: ContextPage::About,
            show_context: false,
            dialogs: DialogState::default(),
            operations: operations::State::new(),
        }
    }

    /// Shows `page` in the drawer, resets the form it hosts, and returns the
    /// catalog load that it needs.
    pub fn open_context_page(&mut self, page: ContextPage) -> (r: Option<catalogs::Message>)
        ensures
            final(self).context_page == page,
            final(self).show_context,
            dialog_prepared(old(self).dialogs, final(self).dialogs, page),
            final(self).operations == old(self).operations,
            r == catalog_load(page),
    {
        self.context_page = page;
        self.show_context = true;
        reset_dialog_for_context(&mut self.dialogs, page);
        load_context_catalog(page)
    }

    /// Opens `page`, or closes the drawer when it already shows `page`. An
    /// opened page resets its form, reports that a zone must be selected
    /// first when it needs one and `zone_selected` is false, and returns the
    /// catalog load that it needs.
    pub fn toggle_context_page(&mut self, page: ContextPage, zone_selected: bool) -> (r: Option<
        catalogs::Message,
    >)
        ensures
            final(self).context_page == page,
            final(self).show_context == if old(self).context_page == page {
                !old(self).show_context
            } else {
                true
            },
            final(self).operations == old(self).operations,
            !final(self).show_context ==> final(self).dialogs == old(self).dialogs && r is None,
            final(self).show_context ==> r == catalog_load(page),
            final(self).show_context && !(page_descriptor(page).requires_zone && !zone_selected)
                ==> dialog_prepared(old(self).dialogs, final(self).dialogs, page),
            final(self).show_context && page_descriptor(page).requires_zone && !zone_selected ==> {
                &&& final(self).dialogs.operation_error matches Some(e) && e@ == select_zone_first_id()
                &&& dialog_prepared(
                    old(self).dialogs,
                    DialogState { operation_error: None, ..final(self).dialogs },
                    page,
                )
            },
    {
        if self.context_page == page {
            self.show_context = !self.show_context;
        } else {
            self.context_page = page;
            self.show_context = true;
        }
        if !self.show_context {
            return None;
        }
        let ghost before = self.dialogs;
        reset_dialog_for_context(&mut self.dialogs, page);
        let descriptor = page.descriptor();
        if descriptor.requires_zone && !zone_selected {
            let ghost mid = self.dialogs;
            self.dialogs.operation_error = Some(owned("error-select-zone-first"));
            proof {
                assert(DialogState { operation_error: None, ..self.dialogs } == mid) by {
                    assert(mid.operation_error is None);
                }
            }
        }
        load_context_catalog(page)
    }

    /// Hides the context drawer.
    pub fn close_context_drawer(&mut self)
        ensures
            !final(self).show_context,
            final(self).context_page == old(self).context_page,
            final(self).dialogs == old(self).dialogs,
            final(self).operations == old(self).operations,
    {
        self.show_context = false;
    }

    /// Takes the mutation slot for `operation` unless a mutation is in
    /// flight, clearing the last submission error when it does; returns
    /// whether it did.
    pub fn begin_mutation(&mut self, operation: &str) -> (r: bool)
        ensures
            r == old(self).operations.pending is None,
            r ==> (final(self).operations.pending matches Some(p) && p@ == operation@),
            r ==> final(self).dialogs == (DialogState { operation_error: None, ..old(self).dialogs }),
            !r ==> final(self).operations == old(self).operations && final(self).dialogs == old(
                self,
            ).dialogs,
            final(self).operations.confirmation == old(self).operations.confirmation,
            final(self).operations.runtime_reload_needed == old(self).operations.runtime_reload_needed,
            final(self).context_page == old(self).context_page,
            final(self).show_context == old(self).show_context,
    {
        if !self.operations.begin(owned(operation)) {
            return false;
        }
        self.dialogs.operation_error = None;
        true
    }

    /// Releases the mutation slot and reports how the mutation ended: its
    /// name (or the generic change when none was recorded), the broker's
    /// message on failure, which the open drawer also shows, and whether a
    /// refresh deferred behind the mutation is now due.
    pub fn finish_mutation(&mut self, reconciliation: &mut reconciler::State, result: &Result<(), BrokerError>) -> (r: MutationReport)
        ensures
            final(self).operations.pending is None,
            final(self).operations.confirmation == old(self).operations.confirmation,
            final(self).operations.runtime_reload_needed == old(self).operations.runtime_reload_needed,
            match old(self).operations.pending {
                Some(p) => r.operation == p,
                None => r.operation@ == "operation-change"@,
            },
            match result {
                Ok(()) => r.error is None && final(self).dialogs == old(self).dialogs,
                Err(e) => {
                    &&& r.error matches Some(m) && m@ == e@
                    &&& if old(self).show_context {
                        final(self).dialogs == (DialogState { operation_error: r.error, ..old(self).dialogs })
                    } else {
                        final(self).dialogs == old(self).dialogs
                    }
                },
            },
            final(self).context_page == old(self).context_page,
            final(self).show_context == old(self).show_context,
            r.refresh == (old(reconciliation)@.coordinator.pending && !old(reconciliation)@.coordinator.refreshing),
            r.refresh ==> final(reconciliation)@.coordinator.refreshing && !final(reconciliation)@.coordinator.pending,
            !r.refresh ==> final(reconciliation)@.coordinator == old(reconciliation)@.coordinator,
            final(reconciliation)@.coordinator.generation == old(reconciliation)@.coordinator.generation,
            final(reconciliation)@.coordinator.warning == old(reconciliation)@.coordinator.warning,
            final(reconciliation)@.state == old(reconciliation)@.state,
            final(reconciliation)@.checked == old(reconciliation)@.checked,
    {
        let operation = self.operations.finish_label(owned("operation-change"));
        let error = match result {
            Ok(()) => None,
            Err(e) => {
                let message = e.to_string();
                if self.show_context {
                    self.dialogs.operation_error = Some(message.clone());
                }
                Some(message)
            },
        };
        let refresh = reconciliation.take_deferred_refresh();
        MutationReport { operation, error, refresh }
    }

    /// Drops the pending confirmation.
    pub fn cancel_confirmation(&mut self)
        ensures
            final(self).operations.confirmation is None,
            final(self).operations.pending == old(self).operations.pending,
            final(self).operations.runtime_reload_needed == old(self).operations.runtime_reload_needed,
            final(self).dialogs == old(self).dialogs,
            final(self).context_page == old(self).context_page,
            final(self).show_context == old(self).show_context,
    {
        self.operations.confirmation = None;
    }

    /// Consumes the pending confirmation and returns the work that it
    /// confirms; with none pending there is nothing to do.
    pub fn confirm_destructive(&mut self) -> (r: Option<Dispatch>)
        ensures
            final(self).operations.confirmation is None,
            final(self).operations.pending == old(self).operations.pending,
            final(self).operations.runtime_reload_needed == old(self).operations.runtime_reload_needed,
            final(self).dialogs == old(self).dialogs,
            final(self).context_page == old(self).context_page,
            final(self).show_context == old(self).show_context,
            r == match old(self).operations.confirmation {
                Some(c) => Some(confirmed(c)),
                None => None,
            },
    {
        match self.operations.confirmation.take() {
            None => None,
            Some(c) => Some(
                match c {
                    Confirmation::DeleteZone(zone) => Dispatch::Zone(zones::Message::Delete(zone)),
                    Confirmation::DeleteIpSet(name) => Dispatch::IpSet(IpSetCommand::Delete(name)),
                    Confirmation::StopFirewalld => Dispatch::Zone(zones::Message::ControlFirewalld(false)),
                    Confirmation::ApplyPermanentConfiguration => Dispatch::Reconciliation(
                        reconciler::Message::ApplyPermanent,
                    ),
                    Confirmation::SaveRuntimeConfiguration => Dispatch::Reconciliation(
                        reconciler::Message::PersistRuntime,
                    ),
                },
            ),
        }
    }
}

/// The work that a confirmation confirms.
pub open spec fn confirmed(c: Confirmation) -> Dispatch {
    match c {
        Confirmation::DeleteZone(zone) => Dispatch::Zone(zones::Message::Delete(zone)),
        Confirmation::DeleteIpSet(name) => Dispatch::IpSet(IpSetCommand::Delete(name)),
        Confirmation::StopFirewalld => Dispatch::Zone(zones::Message::ControlFirewalld(false)),
        Confirmation::ApplyPermanentConfiguration => Dispatch::Reconciliation(reconciler::Message::ApplyPermanent),
        Confirmation::SaveRuntimeConfiguration => Dispatch::Reconciliation(reconciler::Message::PersistRuntime),
    }
}

} // verus!

verus! {

/// The catalogue identifier that names a mutation of the zone feature.
pub open spec fn zone_mutation_id(m: zones::Mutation) -> Seq<char> {
    match m {
        zones::Mutation::CreateZone => "operation-create-zone"@,
        zones::Mutation::RenameZone => "operation-rename-zone"@,
        zones::Mutation::DeleteZone => "operation-delete-zone"@,
        zones::Mutation::AddService => "operation-add-service"@,
        zones::Mutation::AddPort => "operation-add-port"@,
        zones::Mutation::AddSourcePort => "operation-add-source-port"@,
        zones::Mutation::AddForwardPort => "operation-add-forward-port"@,
        zones::Mutation::AddInterface => "operation-add-interface"@,
        zones::Mutation::AddSource => "operation-add-source"@,
        zones::Mutation::AddIcmp => "operation-add-icmp"@,
        zones::Mutation::AddRichRule => "operation-add-rich-rule"@,
        zones::Mutation::RemoveItem => "operation-remove-zone-item"@,
        zones::Mutation::SetMasquerade => "operation-set-masquerading"@,
        zones::Mutation::SetIcmpBlockInversion => "operation-set-icmp-inversion"@,
        zones::Mutation::SetDefaultZone => "operation-set-default-zone"@,
        zones::Mutation::StartFirewalld => "operation-start-firewalld"@,
        zones::Mutation::StopFirewalld => "operation-stop-firewalld"@,
    }
}

/// The name of a zone mutation.
pub fn zone_mutation_label(m: zones::Mutation) -> (r: &'static str)
    ensures
        r@ == zone_mutation_id(m),
{
    match m {
        zones::Mutation::CreateZone => "operation-create-zone",
        zones::Mutation::RenameZone => "operation-rename-zone",
        zones::Mutation::DeleteZone => "operation-delete-zone",
        zones::Mutation::AddService => "operation-add-service",
        zones::Mutation::AddPort => "operation-add-port",
        zones::Mutation::AddSourcePort => "operation-add-source-port",
        zones::Mutation::AddForwardPort => "operation-add-forward-port",
        zones::Mutation::AddInterface => "operation-add-interface",
        zones::Mutation::AddSource => "operation-add-source",
        zones::Mutation::AddIcmp => "operation-add-icmp",
        zones::Mutation::AddRichRule => "operation-add-rich-rule",
        zones::Mutation::RemoveItem => "operation-remove-zone-item",
        zones::Mutation::SetMasquerade => "operation-set-masquerading",
        zones::Mutation::SetIcmpBlockInversion => "operation-set-icmp-inversion",
        zones::Mutation::SetDefaultZone => "operation-set-default-zone",
        zones::Mutation::StartFirewalld => "operation-start-firewalld",
        zones::Mutation::StopFirewalld => "operation-stop-firewalld",
    }
}

/// The catalogue identifier that names a reconciliation mutation.
pub open spec fn reconciliation_mutation_id(m: reconciler::Mutation) -> Seq<char> {
    match m {
        reconciler::Mutation::ApplyPermanent => "operation-apply-permanent"@,
        reconciler::Mutation::PersistRuntime => "operation-save-runtime"@,
    }
}

/// The name of a reconciliation mutation.
pub fn reconciliation_mutation_label(m: reconciler::Mutation) -> (r: &'static str)
    ensures
        r@ == reconciliation_mutation_id(m),
{
    match m {
        reconciler::Mutation::ApplyPermanent => "operation-apply-permanent",
        reconciler::Mutation::PersistRuntime => "operation-save-runtime",
    }
}

/// The catalogue identifier that names an IP-set mutation.
pub open spec fn ipset_mutation_id(m: ipsets::Mutation) -> Seq<char> {
    match m {
        ipsets::Mutation::AddEntry => "operation-add-ipset-entry"@,
        ipsets::Mutation::RemoveEntry => "operation-remove-ipset-entry"@,
    }
}

/// The name of an IP-set mutation.
pub fn ipset_mutation_label(m: ipsets::Mutation) -> (r: &'static str)
    ensures
        r@ == ipset_mutation_id(m),
{
    match m {
        ipsets::Mutation::AddEntry => "operation-add-ipset-entry",
        ipsets::Mutation::RemoveEntry => "operation-remove-ipset-entry",
    }
}

/// What taking the mutation slot for `label` does: when it is free, the
/// slot holds `label` and the last submission error is cleared; otherwise
/// nothing changes.
pub open spec fn began(before: Shell, after: Shell, label: Seq<char>) -> bool {
    if before.operations.pending is None {
        &&& after.operations.pending matches Some(p) && p@ == label
        &&& after.operations.confirmation == before.operations.confirmation
        &&& after.operations.runtime_reload_needed == before.operations.runtime_reload_needed
        &&& after.dialogs == (DialogState { operation_error: None, ..before.dialogs })
        &&& after.context_page == before.context_page
        &&& after.show_context == before.show_context
    } else {
        after == before
    }
}

/// The shell with a new pending confirmation.
pub open spec fn confirming(before: Shell, c: Confirmation) -> Shell {
    Shell { operations: operations::State { confirmation: Some(c), ..before.operations }, ..before }
}

/// The shell with the reload reminder set or cleared.
pub open spec fn reminding(before: Shell, needed: bool) -> Shell {
    Shell { operations: operations::State { runtime_reload_needed: needed, ..before.operations }, ..before }
}

/// What opening `page` does to the shell.
pub open spec fn opened(before: Shell, after: Shell, page: ContextPage) -> bool {
    &&& after.context_page == page
    &&& after.show_context
    &&& dialog_prepared(before.dialogs, after.dialogs, page)
    &&& after.operations == before.operations
}

/// The work that a request of the zone feature hands on.
pub open spec fn zone_dispatches(request: zones::Request) -> Seq<Dispatch> {
    match request {
        zones::Request::NavigationZonesLoaded(result) => seq![Dispatch::Navigation(navigation::Message::ZonesLoaded(result))],
        zones::Request::NavigationDefaultLoaded(result) => seq![Dispatch::Navigation(navigation::Message::DefaultZoneLoaded(result))],
        zones::Request::NavigationActiveLoaded(result) => seq![Dispatch::Navigation(navigation::Message::ActiveZonesLoaded(result))],
        zones::Request::OpenContextPage(page) => catalog_dispatch(catalog_load(page)),
        zones::Request::LoadReconciliation(zone) => seq![Dispatch::Reconciliation(reconciler::Message::Load(zone))],
        zones::Request::ReconciliationAction(action) => seq![Dispatch::Reconciliation(reconciler::Message::Action(action))],
        zones::Request::FinishConfigurationRefresh => seq![Dispatch::FinishConfigurationRefresh],
        zones::Request::FinishMutation(result) => seq![Dispatch::FinishMutation(result)],
        zones::Request::RefreshZones => seq![Dispatch::Zone(zones::Message::LoadList)],
        zones::Request::RefreshDefault => seq![Dispatch::Zone(zones::Message::LoadDefault)],
        zones::Request::RefreshStatus => seq![Dispatch::Zone(zones::Message::LoadStatus)],
        zones::Request::RefreshCurrentZone(zone) => seq![Dispatch::Zone(zones::Message::LoadDetails(zone))],
        _ => Seq::empty(),
    }
}

/// What a request of the zone feature does to the shell.
pub open spec fn zone_request_shell(before: Shell, after: Shell, request: zones::Request) -> bool {
    match request {
        zones::Request::OpenContextPage(page) => opened(before, after, page),
        zones::Request::SetPortKind(kind) => after == Shell {
            dialogs: DialogState { port: PortFormState { kind, ..before.dialogs.port }, ..before.dialogs },
            ..before
        },
        zones::Request::ResetDialog(kind) => {
            &&& reset_matches(before.dialogs, after.dialogs, kind)
            &&& after == Shell { dialogs: after.dialogs, ..before }
        },
        zones::Request::ConfirmDeleteZone(zone) => after == confirming(before, Confirmation::DeleteZone(zone)),
        zones::Request::ConfirmStopFirewalld => after == confirming(before, Confirmation::StopFirewalld),
        zones::Request::BeginMutation(m) => began(before, after, zone_mutation_id(m)),
        zones::Request::MarkRuntimeDirty => after == reminding(before, true),
        zones::Request::CloseDrawer => after == Shell { show_context: false, ..before },
        _ => after == before,
    }
}

/// Applies one request of the zone feature to the root's state and returns
/// the work it hands on.
pub fn apply_zone_request(
    shell: &mut Shell,
    navigation: &mut Sidebar,
    reconciliation: &mut reconciler::State,
    request: zones::Request,
) -> (r: Vec<Dispatch>)
    ensures
        r@ == zone_dispatches(request),
        zone_request_shell(*old(shell), *final(shell), request),
        match request {
            zones::Request::NavigationLoading => {
                &&& final(navigation)@.status is Loading
                &&& final(navigation)@.zones == old(navigation)@.zones
                &&& final(navigation)@.items == old(navigation)@.items
                &&& final(navigation)@.active == old(navigation)@.active
            },
            zones::Request::PreserveZoneRename { old_name, new_name } => {
                &&& same_lists(old(navigation)@, final(navigation)@)
                &&& final(navigation)@.items == old(navigation)@.items
                &&& final(navigation)@.active == old(navigation)@.active
                &&& if (old(navigation)@.items[old(navigation)@.active] matches ItemView::Zone { name, .. }
                    && name == old_name@) {
                    final(navigation)@.rename_target == Some(new_name@)
                } else {
                    final(navigation)@.rename_target == old(navigation)@.rename_target
                }
            },
            _ => *final(navigation) == *old(navigation),
        },
        match request {
            zones::Request::ReconciliationSelectionChanged(zone) => {
                &&& final(reconciliation)@.coordinator.generation == crate::events::next_generation(
                    old(reconciliation)@.coordinator.generation,
                )
                &&& final(reconciliation)@.coordinator.refreshing == old(reconciliation)@.coordinator.refreshing
                &&& final(reconciliation)@.coordinator.pending == old(reconciliation)@.coordinator.pending
                &&& final(reconciliation)@.coordinator.warning == old(reconciliation)@.coordinator.warning
                &&& final(reconciliation)@.state == (crate::reconciliation::ZoneReconciliationState::Unavailable { zone })
                &&& final(reconciliation)@.checked == old(reconciliation)@.checked
            },
            zones::Request::ReconciliationUnavailable(zone) => {
                &&& final(reconciliation)@.state == (crate::reconciliation::ZoneReconciliationState::Unavailable { zone })
                &&& final(reconciliation)@.coordinator == old(reconciliation)@.coordinator
                &&& final(reconciliation)@.checked == old(reconciliation)@.checked
            },
            _ => *final(reconciliation) == *old(reconciliation),
        },
{
    let mut r: Vec<Dispatch> = Vec::new();
    match request {
        zones::Request::NavigationLoading => navigation.set_loading(),
        zones::Request::NavigationZonesLoaded(result) => {
            r.push(Dispatch::Navigation(navigation::Message::ZonesLoaded(result)));
        },
        zones::Request::NavigationDefaultLoaded(result) => {
            r.push(Dispatch::Navigation(navigation::Message::DefaultZoneLoaded(result)));
        },
        zones::Request::NavigationActiveLoaded(result) => {
            r.push(Dispatch::Navigation(navigation::Message::ActiveZonesLoaded(result)));
        },
        zones::Request::OpenContextPage(page) => {
            if let Some(load) = shell.open_context_page(page) {
                r.push(Dispatch::Catalog(load));
            }
        },
        zones::Request::SetPortKind(kind) => {
            shell.dialogs.port.kind = kind;
        },
        zones::Request::ResetDialog(kind) => shell.dialogs.reset(kind),
        zones::Request::ReconciliationSelectionChanged(zone) => {
            let _ = reconciliation.selection_changed(zone);
        },
        zones::Request::LoadReconciliation(zone) => {
            r.push(Dispatch::Reconciliation(reconciler::Message::Load(zone)));
        },
        zones::Request::ReconciliationUnavailable(zone) => reconciliation.set_unavailable(zone),
        zones::Request::PreserveZoneRename { old_name, new_name } => {
            navigation.preserve_zone_rename(old_name.as_str(), new_name.as_str());
        },
        zones::Request::ReconciliationAction(action) => {
            r.push(Dispatch::Reconciliation(reconciler::Message::Action(action)));
        },
        zones::Request::FinishConfigurationRefresh => r.push(Dispatch::FinishConfigurationRefresh),
        zones::Request::ConfirmDeleteZone(zone) => {
            shell.operations.confirmation = Some(Confirmation::DeleteZone(zone));
        },
        zones::Request::ConfirmStopFirewalld => {
            shell.operations.confirmation = Some(Confirmation::StopFirewalld);
        },
        zones::Request::BeginMutation(m) => {
            let _ = shell.begin_mutation(zone_mutation_label(m));
        },
        zones::Request::FinishMutation(result) => r.push(Dispatch::FinishMutation(result)),
        zones::Request::MarkRuntimeDirty => {
            shell.operations.runtime_reload_needed = true;
        },
        zones::Request::CloseDrawer => shell.close_context_drawer(),
        zones::Request::RefreshZones => r.push(Dispatch::Zone(zones::Message::LoadList)),
        zones::Request::RefreshDefault => r.push(Dispatch::Zone(zones::Message::LoadDefault)),
        zones::Request::RefreshStatus => r.push(Dispatch::Zone(zones::Message::LoadStatus)),
        zones::Request::RefreshCurrentZone(zone) => {
            r.push(Dispatch::Zone(zones::Message::LoadDetails(zone)));
        },
    }
    r
}

} // verus!

verus! {

/// The work that a request of navigation hands on.
pub open spec fn navigation_dispatches(request: navigation::Request, opened_load: Option<catalogs::Message>) -> Seq<Dispatch> {
    match request {
        navigation::Request::LoadZone(zone) => seq![Dispatch::Zone(zones::Message::LoadDetails(zone))],
        navigation::Request::LoadIpSets => seq![Dispatch::IpSet(IpSetCommand::LoadList)],
        navigation::Request::OpenContextPage(_) => catalog_dispatch(opened_load),
        navigation::Request::ToggleContextPage(_) => catalog_dispatch(opened_load),
        navigation::Request::SetDefaultZone(zone) => seq![Dispatch::Zone(zones::Message::SetDefault(zone))],
        navigation::Request::ConfirmDeleteZone(zone) => seq![Dispatch::Zone(zones::Message::ConfirmDelete(zone))],
        navigation::Request::RenameZone(_) => Seq::empty(),
        navigation::Request::RefreshTitle => seq![Dispatch::RefreshTitle],
        navigation::Request::ClearSelectedZone => seq![
            Dispatch::Zone(zones::Message::ClearSelection),
            Dispatch::ReconciliationUnavailable(None),
        ],
        navigation::Request::LoadDefaultZone => seq![Dispatch::Zone(zones::Message::LoadDefault)],
        navigation::Request::LoadActiveZones => seq![Dispatch::Zone(zones::Message::LoadActive)],
        navigation::Request::FinishConfigurationRefresh => seq![Dispatch::FinishConfigurationRefresh],
        navigation::Request::ShowZoneListError(message) => seq![Dispatch::Zone(zones::Message::ShowListError(message))],
        navigation::Request::LaunchUrl(url) => seq![Dispatch::LaunchUrl(url)],
    }
}

/// Applies one request of navigation to the root's state and returns the
/// work it hands on. Toggling a page that needs a zone reports that one must
/// be selected first when the zone page has no current zone.
pub fn apply_navigation_request(shell: &mut Shell, zones: &zones::State, request: navigation::Request) -> (r: Vec<Dispatch>)
    ensures
        match request {
            navigation::Request::OpenContextPage(page) => {
                &&& opened(*old(shell), *final(shell), page)
                &&& r@ == catalog_dispatch(catalog_load(page))
            },
            navigation::Request::ToggleContextPage(page) => {
                let zone_selected = ready_zone(zones.detail) is Some;
                &&& final(shell).context_page == page
                &&& final(shell).show_context == if old(shell).context_page == page {
                    !old(shell).show_context
                } else {
                    true
                }
                &&& final(shell).operations == old(shell).operations
                &&& !final(shell).show_context ==> final(shell).dialogs == old(shell).dialogs && r@.len() == 0
                &&& final(shell).show_context ==> r@ == catalog_dispatch(catalog_load(page))
                &&& final(shell).show_context && !(page_descriptor(page).requires_zone && !zone_selected)
                    ==> dialog_prepared(old(shell).dialogs, final(shell).dialogs, page)
                &&& final(shell).show_context && page_descriptor(page).requires_zone && !zone_selected ==> {
                    &&& final(shell).dialogs.operation_error matches Some(e) && e@ == select_zone_first_id()
                    &&& dialog_prepared(
                        old(shell).dialogs,
                        DialogState { operation_error: None, ..final(shell).dialogs },
                        page,
                    )
                }
            },
            _ => *final(shell) == *old(shell) && r@ == navigation_dispatches(request, None),
        },
{
    let mut r: Vec<Dispatch> = Vec::new();
    match request {
        navigation::Request::LoadZone(zone) => r.push(Dispatch::Zone(zones::Message::LoadDetails(zone))),
        navigation::Request::LoadIpSets => r.push(Dispatch::IpSet(IpSetCommand::LoadList)),
        navigation::Request::OpenContextPage(page) => {
            if let Some(load) = shell.open_context_page(page) {
                r.push(Dispatch::Catalog(load));
            }
        },
        navigation::Request::ToggleContextPage(page) => {
            let zone_selected = zones.current_zone_name().is_some();
            if let Some(load) = shell.toggle_context_page(page, zone_selected) {
                r.push(Dispatch::Catalog(load));
            }
        },
        navigation::Request::SetDefaultZone(zone) => r.push(Dispatch::Zone(zones::Message::SetDefault(zone))),
        navigation::Request::ConfirmDeleteZone(zone) => {
            r.push(Dispatch::Zone(zones::Message::ConfirmDelete(zone)));
        },
        navigation::Request::RenameZone(_) => {},
        navigation::Request::RefreshTitle => r.push(Dispatch::RefreshTitle),
        navigation::Request::ClearSelectedZone => {
            r.push(Dispatch::Zone(zones::Message::ClearSelection));
            r.push(Dispatch::ReconciliationUnavailable(None));
        },
        navigation::Request::LoadDefaultZone => r.push(Dispatch::Zone(zones::Message::LoadDefault)),
        navigation::Request::LoadActiveZones => r.push(Dispatch::Zone(zones::Message::LoadActive)),
        navigation::Request::FinishConfigurationRefresh => r.push(Dispatch::FinishConfigurationRefresh),
        navigation::Request::ShowZoneListError(message) => {
            r.push(Dispatch::Zone(zones::Message::ShowListError(message)));
        },
        navigation::Request::LaunchUrl(url) => r.push(Dispatch::LaunchUrl(url)),
    }
    r
}

/// The work that a validated submission hands on: a zone is created, or
/// renamed when the form edits an existing zone; an item is added to its
/// zone; an IP set is created.
pub open spec fn submission_dispatch(s: Submission) -> Dispatch {
    match s {
        Submission::Zone { rename_from, name, description, target } => match rename_from {
            Some(old_name) => Dispatch::Zone(zones::Message::Rename { old_name, new_name: name }),
            None => Dispatch::Zone(zones::Message::Create { name, description, target }),
        },
        Submission::Service { zone, service } => Dispatch::Zone(zones::Message::AddService { zone, service }),
        Submission::Port { zone, port, protocol } => Dispatch::Zone(zones::Message::AddPort { zone, port, protocol }),
        Submission::SourcePort { zone, port, protocol } => Dispatch::Zone(
            zones::Message::AddSourcePort { zone, port, protocol },
        ),
        Submission::ForwardPort { zone, port, protocol, to_port, to_addr } => Dispatch::Zone(
            zones::Message::AddForwardPort { zone, port, protocol, to_port, to_addr },
        ),
        Submission::Interface { zone, interface } => Dispatch::Zone(zones::Message::AddInterface { zone, interface }),
        Submission::Source { zone, source } => Dispatch::Zone(zones::Message::AddSource { zone, source }),
        Submission::Icmp { zone, icmp } => Dispatch::Zone(zones::Message::AddIcmp { zone, icmp }),
        Submission::RichRule { zone, rule } => Dispatch::Zone(zones::Message::AddRichRule { zone, rule }),
        Submission::IpSet { name, ipset_type, entries } => Dispatch::IpSet(
            IpSetCommand::Create { name, ipset_type, entries },
        ),
    }
}

fn dispatch_submission(s: Submission) -> (r: Dispatch)
    ensures
        r == submission_dispatch(s),
{
    match s {
        Submission::Zone { rename_from, name, description, target } => match rename_from {
            Some(old_name) => Dispatch::Zone(zones::Message::Rename { old_name, new_name: name }),
            None => Dispatch::Zone(zones::Message::Create { name, description, target }),
        },
        Submission::Service { zone, service } => Dispatch::Zone(zones::Message::AddService { zone, service }),
        Submission::Port { zone, port, protocol } => Dispatch::Zone(zones::Message::AddPort { zone, port, protocol }),
        Submission::SourcePort { zone, port, protocol } => Dispatch::Zone(
            zones::Message::AddSourcePort { zone, port, protocol },
        ),
        Submission::ForwardPort { zone, port, protocol, to_port, to_addr } => Dispatch::Zone(
            zones::Message::AddForwardPort { zone, port, protocol, to_port, to_addr },
        ),
        Submission::Interface { zone, interface } => Dispatch::Zone(zones::Message::AddInterface { zone, interface }),
        Submission::Source { zone, source } => Dispatch::Zone(zones::Message::AddSource { zone, source }),
        Submission::Icmp { zone, icmp } => Dispatch::Zone(zones::Message::AddIcmp { zone, icmp }),
        Submission::RichRule { zone, rule } => Dispatch::Zone(zones::Message::AddRichRule { zone, rule }),
        Submission::IpSet { name, ipset_type, entries } => Dispatch::IpSet(
            IpSetCommand::Create { name, ipset_type, entries },
        ),
    }
}

/// Applies one request of the dialogs: a submission goes to the feature
/// that performs it, and closing hides the drawer.
pub fn apply_dialog_request(shell: &mut Shell, request: crate::dialogs::Request) -> (r: Vec<Dispatch>)
    ensures
        match request {
            crate::dialogs::Request::Submit(s) => *final(shell) == *old(shell) && r@ == seq![submission_dispatch(s)],
            crate::dialogs::Request::CloseDrawer => *final(shell) == (Shell { show_context: false, ..*old(shell) })
                && r@.len() == 0,
        },
{
    let mut r: Vec<Dispatch> = Vec::new();
    match request {
        crate::dialogs::Request::Submit(s) => r.push(dispatch_submission(s)),
        crate::dialogs::Request::CloseDrawer => shell.close_context_drawer(),
    }
    r
}

/// Applies one request of the IP-set feature: it takes the mutation slot or
/// asks to confirm a deletion.
pub fn apply_ipset_request(shell: &mut Shell, request: ipsets::Request)
    ensures
        match request {
            ipsets::Request::BeginMutation(m) => began(*old(shell), *final(shell), ipset_mutation_id(m)),
            ipsets::Request::ConfirmDelete(name) => *final(shell) == confirming(*old(shell), Confirmation::DeleteIpSet(name)),
        },
{
    match request {
        ipsets::Request::BeginMutation(m) => {
            let _ = shell.begin_mutation(ipset_mutation_label(m));
        },
        ipsets::Request::ConfirmDelete(name) => {
            shell.operations.confirmation = Some(Confirmation::DeleteIpSet(name));
        },
    }
}

/// Applies one request of the catalogs: a refreshed interface list without
/// the selected interface clears the interface form's choice and error.
pub fn apply_catalog_request(shell: &mut Shell, request: catalogs::Request)
    ensures
        match request {
            catalogs::Request::ClearInterfaceSelection => {
                &&& final(shell).dialogs.interface.interface@.len() == 0
                &&& final(shell).dialogs.interface.error is None
                &&& *final(shell) == (Shell {
                    dialogs: DialogState { interface: final(shell).dialogs.interface, ..old(shell).dialogs },
                    ..*old(shell)
                })
            },
        },
{
    match request {
        catalogs::Request::ClearInterfaceSelection => {
            shell.dialogs.interface.interface = String::new();
            shell.dialogs.interface.error = None;
        },
    }
}

/// The work that a request of the reconciliation feature hands on.
pub open spec fn reconciliation_dispatches(request: reconciler::Request) -> Seq<Dispatch> {
    match request {
        reconciler::Request::FinishMutation(result) => seq![Dispatch::FinishMutation(result)],
        reconciler::Request::ConfigurationRefresh(event) => seq![Dispatch::ConfigurationRefresh(event)],
        reconciler::Request::RefreshFirewalldStatus => seq![Dispatch::Zone(zones::Message::LoadStatus)],
        reconciler::Request::RefreshZones => seq![Dispatch::Zone(zones::Message::LoadList)],
        reconciler::Request::RefreshIpSets => seq![Dispatch::IpSet(IpSetCommand::LoadList)],
        reconciler::Request::RefreshCatalogs => seq![
            Dispatch::Catalog(catalogs::Message::LoadServices),
            Dispatch::Catalog(catalogs::Message::LoadIcmpTypes),
            Dispatch::Catalog(catalogs::Message::LoadInterfaces),
        ],
        _ => Seq::empty(),
    }
}

/// Applies one request of the reconciliation feature to the root's state
/// and returns the work it hands on.
pub fn apply_reconciliation_request(shell: &mut Shell, request: reconciler::Request) -> (r: Vec<Dispatch>)
    ensures
        r@ == reconciliation_dispatches(request),
        match request {
            reconciler::Request::OpenReview => opened(*old(shell), *final(shell), ContextPage::ReviewReconciliation),
            reconciler::Request::ConfirmApplyPermanent => *final(shell) == confirming(
                *old(shell),
                Confirmation::ApplyPermanentConfiguration,
            ),
            reconciler::Request::ConfirmPersistRuntime => *final(shell) == confirming(
                *old(shell),
                Confirmation::SaveRuntimeConfiguration,
            ),
            reconciler::Request::BeginMutation(m) => began(*old(shell), *final(shell), reconciliation_mutation_id(m)),
            reconciler::Request::ClearRuntimeDirty => *final(shell) == reminding(*old(shell), false),
            _ => *final(shell) == *old(shell),
        },
{
    let mut r: Vec<Dispatch> = Vec::new();
    match request {
        reconciler::Request::OpenReview => {
            let _ = shell.open_context_page(ContextPage::ReviewReconciliation);
        },
        reconciler::Request::ConfirmApplyPermanent => {
            shell.operations.confirmation = Some(Confirmation::ApplyPermanentConfiguration);
        },
        reconciler::Request::ConfirmPersistRuntime => {
            shell.operations.confirmation = Some(Confirmation::SaveRuntimeConfiguration);
        },
        reconciler::Request::BeginMutation(m) => {
            let _ = shell.begin_mutation(reconciliation_mutation_label(m));
        },
        reconciler::Request::FinishMutation(result) => r.push(Dispatch::FinishMutation(result)),
        reconciler::Request::ClearRuntimeDirty => {
            shell.operations.runtime_reload_needed = false;
        },
        reconciler::Request::ConfigurationRefresh(event) => r.push(Dispatch::ConfigurationRefresh(event)),
        reconciler::Request::RefreshFirewalldStatus => r.push(Dispatch::Zone(zones::Message::LoadStatus)),
        reconciler::Request::RefreshZones => r.push(Dispatch::Zone(zones::Message::LoadList)),
        reconciler::Request::RefreshIpSets => r.push(Dispatch::IpSet(IpSetCommand::LoadList)),
        reconciler::Request::RefreshCatalogs => {
            r.push(Dispatch::Catalog(catalogs::Message::LoadServices));
            r.push(Dispatch::Catalog(catalogs::Message::LoadIcmpTypes));
            r.push(Dispatch::Catalog(catalogs::Message::LoadInterfaces));
        },
    }
    r
}

/// The work that a refresh plan starts: everything reloads in a fixed
/// order (status, zones, IP sets, services, ICMP types, interfaces), or one
/// feature reloads, or the refresh finishes.
pub open spec fn plan_dispatches(plan: ConfigurationRefreshPlan) -> Seq<Dispatch> {
    match plan {
        ConfigurationRefreshPlan::ReloadEverything => seq![
            Dispatch::Zone(zones::Message::LoadStatus),
            Dispatch::Zone(zones::Message::LoadList),
            Dispatch::IpSet(IpSetCommand::LoadList),
            Dispatch::Catalog(catalogs::Message::LoadServices),
            Dispatch::Catalog(catalogs::Message::LoadIcmpTypes),
            Dispatch::Catalog(catalogs::Message::LoadInterfaces),
        ],
        ConfigurationRefreshPlan::ReloadCurrentReconciliation { zone } => seq![
            Dispatch::Reconciliation(reconciler::Message::Load(zone)),
        ],
        ConfigurationRefreshPlan::ReloadCurrentZone { zone } => seq![Dispatch::Zone(zones::Message::LoadDetails(zone))],
        ConfigurationRefreshPlan::ReloadZones => seq![Dispatch::Zone(zones::Message::LoadList)],
        ConfigurationRefreshPlan::PreserveRenameAndReloadZones { .. } => seq![Dispatch::Zone(zones::Message::LoadList)],
        ConfigurationRefreshPlan::FinishWithoutReload => seq![Dispatch::FinishConfigurationRefresh],
    }
}

/// Starts the refresh that `plan` calls for; a rename first keeps the
/// navigation selection on the renamed zone.
pub fn start_configuration_refresh(navigation: &mut Sidebar, plan: ConfigurationRefreshPlan) -> (r: Vec<Dispatch>)
    ensures
        r@ == plan_dispatches(plan),
        match plan {
            ConfigurationRefreshPlan::PreserveRenameAndReloadZones { old_zone, new_zone } => {
                &&& same_lists(old(navigation)@, final(navigation)@)
                &&& final(navigation)@.items == old(navigation)@.items
                &&& final(navigation)@.active == old(navigation)@.active
                &&& if (old(navigation)@.items[old(navigation)@.active] matches ItemView::Zone { name, .. }
                    && name == old_zone@) {
                    final(navigation)@.rename_target == Some(new_zone@)
                } else {
                    final(navigation)@.rename_target == old(navigation)@.rename_target
                }
            },
            _ => *final(navigation) == *old(navigation),
        },
{
    let mut r: Vec<Dispatch> = Vec::new();
    match plan {
        ConfigurationRefreshPlan::ReloadEverything => {
            let steps = crate::refresh::reload_everything_steps();
            let mut i: usize = 0;
            while i < 6
                invariant
                    i <= 6,
                    steps@ == seq![
                        crate::refresh::ReloadEverythingStep::FirewalldStatus,
                        crate::refresh::ReloadEverythingStep::Zones,
                        crate::refresh::ReloadEverythingStep::IpSets,
                        crate::refresh::ReloadEverythingStep::Services,
                        crate::refresh::ReloadEverythingStep::IcmpTypes,
                        crate::refresh::ReloadEverythingStep::Interfaces,
                    ],
                    r@.len() == i,
                    forall|j: int| 0 <= j < i ==> r@[j] == plan_dispatches(ConfigurationRefreshPlan::ReloadEverything)[j],
                decreases 6 - i,
            {
                let d = match steps[i] {
                    crate::refresh::ReloadEverythingStep::FirewalldStatus => Dispatch::Zone(zones::Message::LoadStatus),
                    crate::refresh::ReloadEverythingStep::Zones => Dispatch::Zone(zones::Message::LoadList),
                    crate::refresh::ReloadEverythingStep::IpSets => Dispatch::IpSet(IpSetCommand::LoadList),
                    crate::refresh::ReloadEverythingStep::Services => Dispatch::Catalog(catalogs::Message::LoadServices),
                    crate::refresh::ReloadEverythingStep::IcmpTypes => Dispatch::Catalog(catalogs::Message::LoadIcmpTypes),
                    crate::refresh::ReloadEverythingStep::Interfaces => Dispatch::Catalog(catalogs::Message::LoadInterfaces),
                };
                r.push(d);
                i = i + 1;
            }
            assert(r@ =~= plan_dispatches(ConfigurationRefreshPlan::ReloadEverything));
        },
        ConfigurationRefreshPlan::ReloadCurrentReconciliation { zone } => {
            r.push(Dispatch::Reconciliation(reconciler::Message::Load(zone)));
        },
        ConfigurationRefreshPlan::ReloadCurrentZone { zone } => r.push(Dispatch::Zone(zones::Message::LoadDetails(zone))),
        ConfigurationRefreshPlan::ReloadZones => r.push(Dispatch::Zone(zones::Message::LoadList)),
        ConfigurationRefreshPlan::PreserveRenameAndReloadZones { old_zone, new_zone } => {
            navigation.preserve_zone_rename(old_zone.as_str(), new_zone.as_str());
            r.push(Dispatch::Zone(zones::Message::LoadList));
        },
        ConfigurationRefreshPlan::FinishWithoutReload => r.push(Dispatch::FinishConfigurationRefresh),
    }
    r
}

/// Finishes the configuration refresh in progress; a refresh that arrived
/// meanwhile is started as one full reload.
pub fn finish_configuration_refresh(reconciliation: &mut reconciler::State) -> (r: Vec<Dispatch>)
    ensures
        !final(reconciliation)@.coordinator.pending,
        final(reconciliation)@.coordinator.refreshing == old(reconciliation)@.coordinator.pending,
        final(reconciliation)@.coordinator.generation == old(reconciliation)@.coordinator.generation,
        final(reconciliation)@.coordinator.warning == old(reconciliation)@.coordinator.warning,
        final(reconciliation)@.state == old(reconciliation)@.state,
        final(reconciliation)@.checked == old(reconciliation)@.checked,
        r@ == if old(reconciliation)@.coordinator.pending {
            seq![Dispatch::ConfigurationRefresh(ConfigurationEvent::Reloaded)]
        } else {
            Seq::empty()
        },
{
    let outcome = reconciler::finish_refresh(reconciliation);
    let mut requests = outcome.requests;
    let mut r: Vec<Dispatch> = Vec::new();
    if requests.len() > 0 {
        match requests.remove(0) {
            reconciler::Request::ConfigurationRefresh(event) => r.push(Dispatch::ConfigurationRefresh(event)),
            _ => {},
        }
    }
    r
}

} // verus!

verus! {

/// The actions of the application menu.
#[derive(Clone, Copy, Debug, PartialEq, Eq, Structural)]
pub enum MenuAction {
    About,
    AddZone,
    AddService,
    AddPort,
    AddForwardPort,
    AddSourcePort,
    AddInterface,
    AddSource,
    AddIcmp,
    AddRichRule,
    AddIpSet,
}

/// The work that a menu action starts: the port and service entries go
/// through the zone page, the others toggle their drawer page.
pub open spec fn menu_dispatch(action: MenuAction) -> Dispatch {
    match action {
        MenuAction::About => Dispatch::Navigation(navigation::Message::ToggleContextPage(ContextPage::About)),
        MenuAction::AddZone => Dispatch::Navigation(navigation::Message::ToggleContextPage(ContextPage::AddZone)),
        MenuAction::AddService => Dispatch::Zone(zones::Message::View(zones::ZoneViewAction::AddService)),
        MenuAction::AddPort => Dispatch::Zone(zones::Message::View(zones::ZoneViewAction::AddPort { kind: PortKind::Destination })),
        MenuAction::AddForwardPort => Dispatch::Zone(zones::Message::View(zones::ZoneViewAction::AddPort { kind: PortKind::Forward })),
        MenuAction::AddSourcePort => Dispatch::Zone(zones::Message::View(zones::ZoneViewAction::AddPort { kind: PortKind::Source })),
        MenuAction::AddInterface => Dispatch::Navigation(navigation::Message::ToggleContextPage(ContextPage::AddInterface)),
        MenuAction::AddSource => Dispatch::Navigation(navigation::Message::ToggleContextPage(ContextPage::AddSource)),
        MenuAction::AddIcmp => Dispatch::Navigation(navigation::Message::ToggleContextPage(ContextPage::AddIcmp)),
        MenuAction::AddRichRule => Dispatch::Navigation(navigation::Message::ToggleContextPage(ContextPage::AddRichRule)),
        MenuAction::AddIpSet => Dispatch::Navigation(navigation::Message::ToggleContextPage(ContextPage::AddIpSet)),
    }
}

impl MenuAction {
    /// The work that the action starts.
    pub fn message(&self) -> (r: Dispatch)
        ensures
            r == menu_dispatch(*self),
    {
        match self {
            MenuAction::About => Dispatch::Navigation(navigation::Message::ToggleContextPage(ContextPage::About)),
            MenuAction::AddZone => Dispatch::Navigation(navigation::Message::ToggleContextPage(ContextPage::AddZone)),
            MenuAction::AddService => Dispatch::Zone(zones::Message::View(zones::ZoneViewAction::AddService)),
            MenuAction::AddPort => Dispatch::Zone(zones::Message::View(zones::ZoneViewAction::AddPort { kind: PortKind::Destination })),
            MenuAction::AddForwardPort => Dispatch::Zone(zones::Message::View(zones::ZoneViewAction::AddPort { kind: PortKind::Forward })),
            MenuAction::AddSourcePort => Dispatch::Zone(zones::Message::View(zones::ZoneViewAction::AddPort { kind: PortKind::Source })),
            MenuAction::AddInterface => Dispatch::Navigation(navigation::Message::ToggleContextPage(ContextPage::AddInterface)),
            MenuAction::AddSource => Dispatch::Navigation(navigation::Message::ToggleContextPage(ContextPage::AddSource)),
            MenuAction::AddIcmp => Dispatch::Navigation(navigation::Message::ToggleContextPage(ContextPage::AddIcmp)),
            MenuAction::AddRichRule => Dispatch::Navigation(navigation::Message::ToggleContextPage(ContextPage::AddRichRule)),
            MenuAction::AddIpSet => Dispatch::Navigation(navigation::Message::ToggleContextPage(ContextPage::AddIpSet)),
        }
    }
}

/// The dialog that the open drawer hosts, if any: the zone feature resets it
/// after an item change.
pub fn open_dialog(shell: &Shell) -> (r: Option<DialogKind>)
    ensures
        r == if shell.show_context {
            page_descriptor(shell.context_page).dialog
        } else {
            None
        },
{
    if shell.show_context {
        shell.context_page.descriptor().dialog
    } else {
        None
    }
}

} // verus!
