//! Dialog form state, validation and submission.
use vstd::prelude::*;

pub mod icmp;
pub mod interface;
pub mod ipset;
pub mod port;
pub mod rich_rule;
pub mod service;
pub mod source;
pub mod zone;

use crate::models::ZoneTarget;

use icmp::IcmpFormState;
use interface::InterfaceFormState;
use ipset::IpSetFormState;
use port::{is_fresh_port_form, PortFormState};
use rich_rule::RichRuleFormState;
use service::ServiceFormState;
use source::SourceFormState;
use zone::ZoneFormState;
use crate::validation::{source_result, ValidationError};
use crate::outcome::Outcome;
use crate::text::{owned, str_equal, trim};
use crate::rich_rule::{rule_check, rule_xml, RichRuleSpec};
use rich_rule::form_spec_matches;
use port::{port_form_valid, port_submission_matches, trimmed};
use ipset::ipset_form_valid;
use interface::interface_error_matches;
use crate::validation::interface_name_result;
use crate::text::entry_lines;

verus! {

/// Validated, localization-independent submission intent.
#[derive(Debug, Clone, Eq, PartialEq)]
pub enum Submission {
    Zone { rename_from: Option<String>, name: String, description: String, target: ZoneTarget },
    Service { zone: String, service: String },
    Port { zone: String, port: String, protocol: String },
    SourcePort { zone: String, port: String, protocol: String },
    ForwardPort { zone: String, port: String, protocol: String, to_port: String, to_addr: String },
    Interface { zone: String, interface: String },
    Source { zone: String, source: String },
    Icmp { zone: String, icmp: String },
    RichRule { zone: String, rule: String },
    IpSet { name: String, ipset_type: String, entries: Vec<String> },
}


/// The catalogue identifier of the message that explains a validation failure.
pub open spec fn validation_message_id(e: ValidationError) -> Seq<char> {
    match e {
        ValidationError::Required => "validation-required"@,
        ValidationError::InvalidPort => "validation-port"@,
        ValidationError::ReversedPortRange => "validation-port-range-order"@,
        ValidationError::InvalidProtocol => "validation-protocol"@,
        ValidationError::InvalidIpAddress => "validation-ip-address"@,
        ValidationError::InterfaceNameTooLong => "validation-interface-length"@,
        ValidationError::InvalidInterfaceName => "validation-interface-name"@,
        ValidationError::InvalidSource => "validation-source"@,
        ValidationError::InvalidCidrPrefix => "validation-cidr-prefix"@,
        ValidationError::IpSetNameTooLong => "validation-ipset-name-length"@,
        ValidationError::InvalidIpSetName => "validation-ipset-name"@,
        ValidationError::IpSetNameStartsWithDash => "validation-ipset-name-dash"@,
        ValidationError::InvalidIpSetType => "validation-ipset-type"@,
        ValidationError::InvalidIpSetEntry => "validation-ipset-entry"@,
        ValidationError::InvalidMacAddress => "validation-mac-address"@,
    }
}

/// The user-facing message for a validation failure, as its catalogue identifier; the
/// interface looks the identifier up in the active locale's catalogue.
pub fn localized_validation_error(error: ValidationError) -> (r: String)
    ensures
        r@ == validation_message_id(error),
{
    let id = match error {
        ValidationError::Required => "validation-required",
        ValidationError::InvalidPort => "validation-port",
        ValidationError::ReversedPortRange => "validation-port-range-order",
        ValidationError::InvalidProtocol => "validation-protocol",
        ValidationError::InvalidIpAddress => "validation-ip-address",
        ValidationError::InterfaceNameTooLong => "validation-interface-length",
        ValidationError::InvalidInterfaceName => "validation-interface-name",
        ValidationError::InvalidSource => "validation-source",
        ValidationError::InvalidCidrPrefix => "validation-cidr-prefix",
        ValidationError::IpSetNameTooLong => "validation-ipset-name-length",
        ValidationError::InvalidIpSetName => "validation-ipset-name",
        ValidationError::IpSetNameStartsWithDash => "validation-ipset-name-dash",
        ValidationError::InvalidIpSetType => "validation-ipset-type",
        ValidationError::InvalidIpSetEntry => "validation-ipset-entry",
        ValidationError::InvalidMacAddress => "validation-mac-address",
    };
    id.to_owned()
}


/// The dialogs of the application.
#[derive(Debug, Clone, Copy, Eq, PartialEq, Structural)]
pub enum DialogKind {
    Zone,
    Service,
    Port,
    Interface,
    Source,
    Icmp,
    RichRule,
    IpSet,
}

/// Messages for every dialog.
#[derive(Debug, Clone)]
pub enum DialogMessage {
    Zone(zone::Message),
    Service(service::Message),
    Port(port::Message),
    Interface(interface::Message),
    Source(source::Message),
    Icmp(icmp::Message),
    RichRule(rich_rule::Message),
    IpSet(ipset::Message),
    Submit(DialogKind),
    Cancel(DialogKind),
}

/// Every form, and the error of the last submission.
#[derive(Debug, Clone)]
pub struct DialogState {
    /// Error returned by the current form submission.
    pub operation_error: Option<String>,
    pub zone: ZoneFormState,
    pub service: ServiceFormState,
    pub port: PortFormState,
    pub interface: InterfaceFormState,
    pub source: SourceFormState,
    pub icmp: IcmpFormState,
    pub rich_rule: RichRuleFormState,
    pub ipset: IpSetFormState,
}

impl Default for DialogState {
    /// Every form empty and no error.
    fn default() -> (r: Self)
        ensures
            r.operation_error is None,
            is_fresh_port_form(r.port, port::PortKind::Destination),
    {
        DialogState {
            operation_error: None,
            zone: ZoneFormState::default(),
            service: ServiceFormState::default(),
            port: PortFormState::default(),
            interface: InterfaceFormState::default(),
            source: SourceFormState::default(),
            icmp: IcmpFormState::default(),
            rich_rule: RichRuleFormState::default(),
            ipset: IpSetFormState::default(),
        }
    }
}

/// Whether `after` is `before` with the form of `kind` reset and the error cleared; a reset
/// port form keeps the port kind that was selected.
pub open spec fn reset_matches(before: DialogState, after: DialogState, kind: DialogKind) -> bool {
    &&& after.operation_error is None
    &&& (kind != DialogKind::Zone ==> after.zone == before.zone)
    &&& (kind != DialogKind::Service ==> after.service == before.service)
    &&& (kind != DialogKind::Port ==> after.port == before.port)
    &&& (kind != DialogKind::Interface ==> after.interface == before.interface)
    &&& (kind != DialogKind::Source ==> after.source == before.source)
    &&& (kind != DialogKind::Icmp ==> after.icmp == before.icmp)
    &&& (kind != DialogKind::RichRule ==> after.rich_rule == before.rich_rule)
    &&& (kind != DialogKind::IpSet ==> after.ipset == before.ipset)
    &&& (kind == DialogKind::Zone ==> after.zone.name@.len() == 0 && after.zone.description@.len() == 0
        && after.zone.target == ZoneTarget::Default)
    &&& (kind == DialogKind::Service ==> after.service.search@.len() == 0)
    &&& (kind == DialogKind::Port ==> is_fresh_port_form(after.port, before.port.kind))
    &&& (kind == DialogKind::Interface ==> after.interface.interface@.len() == 0
        && after.interface.error is None)
    &&& (kind == DialogKind::Source ==> after.source.source@.len() == 0 && !after.source.touched)
    &&& (kind == DialogKind::Icmp ==> after.icmp.search@.len() == 0)
    &&& (kind == DialogKind::RichRule ==> rich_rule::is_default_rich_rule_form(after.rich_rule))
    &&& (kind == DialogKind::IpSet ==> after.ipset.name@.len() == 0
        && after.ipset.ipset_type@ == "hash:ip"@ && after.ipset.entries@.len() == 0
        && !after.ipset.name_touched && !after.ipset.entries_touched)
}

impl DialogState {
    /// Reset one form while retaining the selected port kind for port forms.
    pub fn reset(&mut self, kind: DialogKind)
        ensures
            reset_matches(*old(self), *final(self), kind),
    {
        self.operation_error = None;
        match kind {
            DialogKind::Zone => self.zone = ZoneFormState::default(),
            DialogKind::Service => self.service = ServiceFormState { search: String::new() },
            DialogKind::Port => {
                let kind = self.port.kind;
                self.port = PortFormState::fresh(kind);
            },
            DialogKind::Interface => self.interface = InterfaceFormState { interface: String::new(), error: None },
            DialogKind::Source => self.source = SourceFormState { source: String::new(), touched: false },
            DialogKind::Icmp => self.icmp = IcmpFormState { search: String::new() },
            DialogKind::RichRule => self.rich_rule = RichRuleFormState::default(),
            DialogKind::IpSet => self.ipset = IpSetFormState::default(),
        }
    }
}

/// The catalogue identifier of a dialog's submit label.
pub open spec fn submit_label_id(kind: DialogKind) -> Seq<char> {
    match kind {
        DialogKind::Zone => "dialog-submit-add-zone"@,
        DialogKind::Service => "dialog-submit-add-service"@,
        DialogKind::Port => "dialog-submit-add-port"@,
        DialogKind::Interface => "dialog-submit-add-interface"@,
        DialogKind::Source => "dialog-submit-add-source"@,
        DialogKind::Icmp => "dialog-submit-add-icmp"@,
        DialogKind::RichRule => "dialog-submit-add-rich-rule"@,
        DialogKind::IpSet => "dialog-submit-add-ipset"@,
    }
}

/// The submit label of a dialog, as its catalogue identifier.
pub fn submit_label(kind: DialogKind) -> (r: String)
    ensures
        r@ == submit_label_id(kind),
{
    let id = match kind {
        DialogKind::Zone => "dialog-submit-add-zone",
        DialogKind::Service => "dialog-submit-add-service",
        DialogKind::Port => "dialog-submit-add-port",
        DialogKind::Interface => "dialog-submit-add-interface",
        DialogKind::Source => "dialog-submit-add-source",
        DialogKind::Icmp => "dialog-submit-add-icmp",
        DialogKind::RichRule => "dialog-submit-add-rich-rule",
        DialogKind::IpSet => "dialog-submit-add-ipset",
    };
    id.to_owned()
}

/// What the dialog reducer reads from the rest of the application.
pub struct Context<'a> {
    /// The zone selected in navigation.
    pub selected_zone: Option<&'a str>,
    /// The interfaces that the interface form offers.
    pub interfaces: &'a [String],
    /// The services already enabled in the selected zone.
    pub enabled_services: &'a [String],
    /// The ICMP types already blocked in the selected zone.
    pub blocked_icmp: &'a [String],
    /// Whether any part of the application holds the mutation slot.
    pub mutation_pending: bool,
}

/// Coordination that dialogs ask of the application.
#[derive(Debug, Clone, Eq, PartialEq)]
pub enum Request {
    /// Carry out a validated submission.
    Submit(Submission),
    /// Close the context drawer.
    CloseDrawer,
}

/// The catalogue identifier shown when a submission needs a selected zone.
pub open spec fn select_zone_first_id() -> Seq<char> {
    "error-select-zone-first"@
}

/// The catalogue identifier shown when a form has invalid fields.
pub open spec fn fix_fields_id() -> Seq<char> {
    "validation-fix-fields"@
}

/// The catalogue identifier shown when a zone name is not acceptable.
pub open spec fn zone_name_id() -> Seq<char> {
    "validation-zone-name"@
}

/// The catalogue identifier shown when a selected service is already enabled.
pub open spec fn service_enabled_id() -> Seq<char> {
    "error-service-already-enabled"@
}

/// Whether every form is the same in `a` and `b`.
pub open spec fn same_forms(a: DialogState, b: DialogState) -> bool {
    &&& a.zone == b.zone
    &&& a.service == b.service
    &&& a.port == b.port
    &&& a.interface == b.interface
    &&& a.source == b.source
    &&& a.icmp == b.icmp
    &&& a.rich_rule == b.rich_rule
    &&& a.ipset == b.ipset
}

/// Whether the reducer reports `id` and submits nothing.
pub open spec fn reports(new: DialogState, requests: Seq<Request>, id: Seq<char>) -> bool {
    new.operation_error matches Some(m) && m@ == id && requests.len() == 0
}

/// Whether the structured or raw rule of a form can be generated.
pub open spec fn rule_generates(f: rich_rule::RichRuleFormState) -> bool {
    if f.raw_mode {
        trim(f.raw_rule@).len() > 0
    } else {
        exists|s: RichRuleSpec| form_spec_matches(f, s) && rule_check(s) is Ok
    }
}

/// Whether `rule` is the text that a form generates.
pub open spec fn generated_text(f: rich_rule::RichRuleFormState, rule: Seq<char>) -> bool {
    if f.raw_mode {
        rule == trim(f.raw_rule@)
    } else {
        exists|s: RichRuleSpec| form_spec_matches(f, s) && rule_check(s) is Ok && rule == rule_xml(s)
    }
}

/// What submitting the form of `kind` does. Each form is validated (a port
/// or IP-set form first marks its fields touched, a source form its address);
/// an invalid form reports why; a form that needs a zone reports when none is
/// selected; otherwise the trimmed values are submitted. The pickers submit on
/// selection, so submitting them does nothing.
pub open spec fn submit_result(old: DialogState, new: DialogState, kind: DialogKind, selected: Option<&str>, requests: Seq<Request>) -> bool {
    let zone_chosen = selected is Some;
    match kind {
        DialogKind::Zone => {
            &&& same_forms(old, new)
            &&& if trim(old.zone.name@).len() == 0 {
                reports(new, requests, zone_name_id())
            } else {
                &&& new.operation_error == old.operation_error
                &&& requests.len() == 1
                &&& requests[0] matches Request::Submit(Submission::Zone { rename_from, name, description, target })
                    && rename_from is None && name@ == trim(old.zone.name@)
                    && description@ == trim(old.zone.description@) && target@ == old.zone.target@
            }
        },
        DialogKind::Service | DialogKind::Icmp => new == old && requests.len() == 0,
        DialogKind::Port => {
            &&& new.port.port_touched
            &&& new.port.dest_ip_touched == (old.port.dest_ip_touched || old.port.kind == port::PortKind::Forward)
            &&& new.port.dest_port_touched == (old.port.dest_port_touched || old.port.kind == port::PortKind::Forward)
            &&& new.port.port == old.port.port && new.port.protocol == old.port.protocol
            &&& new.port.kind == old.port.kind && new.port.dest_ip == old.port.dest_ip
            &&& new.port.dest_port == old.port.dest_port
            &&& if !port_form_valid(old.port) {
                reports(new, requests, fix_fields_id())
            } else if !zone_chosen {
                reports(new, requests, select_zone_first_id())
            } else {
                &&& new.operation_error == old.operation_error
                &&& requests.len() == 1
                &&& requests[0] matches Request::Submit(sub) && exists|z: String|
                    Some(z@) == crate::reconciler::opt_view(selected) && port_submission_matches(new.port, z, sub)
            }
        },
        DialogKind::Interface => {
            &&& new.interface.interface == old.interface.interface
            &&& interface_error_matches(new.interface.interface@, new.interface.error)
            &&& if interface_name_result(trim(old.interface.interface@)) is Err {
                new.operation_error == old.operation_error && requests.len() == 0
            } else if !zone_chosen {
                reports(new, requests, select_zone_first_id())
            } else {
                &&& new.operation_error == old.operation_error
                &&& requests.len() == 1
                &&& requests[0] matches Request::Submit(Submission::Interface { zone, interface })
                    && Some(zone@) == crate::reconciler::opt_view(selected)
                    && interface@ == trim(old.interface.interface@)
            }
        },
        DialogKind::Source => {
            &&& new.source.source == old.source.source
            &&& new.source.touched
            &&& if source_result(old.source.source@) is Err {
                reports(new, requests, fix_fields_id())
            } else if !zone_chosen {
                reports(new, requests, select_zone_first_id())
            } else {
                &&& new.operation_error == old.operation_error
                &&& requests.len() == 1
                &&& requests[0] matches Request::Submit(Submission::Source { zone, source })
                    && Some(zone@) == crate::reconciler::opt_view(selected)
                    && source@ == trim(old.source.source@)
            }
        },
        DialogKind::RichRule => {
            &&& same_forms(old, new)
            &&& if !rule_generates(old.rich_rule) {
                reports(new, requests, fix_fields_id())
            } else if !zone_chosen {
                reports(new, requests, select_zone_first_id())
            } else {
                &&& new.operation_error == old.operation_error
                &&& requests.len() == 1
                &&& requests[0] matches Request::Submit(Submission::RichRule { zone, rule })
                    && Some(zone@) == crate::reconciler::opt_view(selected)
                    && generated_text(old.rich_rule, rule@)
            }
        },
        DialogKind::IpSet => {
            &&& new.ipset.name_touched && new.ipset.entries_touched
            &&& new.ipset.name == old.ipset.name && new.ipset.ipset_type == old.ipset.ipset_type
            &&& new.ipset.entries == old.ipset.entries
            &&& if !ipset_form_valid(old.ipset) {
                reports(new, requests, fix_fields_id())
            } else {
                &&& new.operation_error == old.operation_error
                &&& requests.len() == 1
                &&& requests[0] matches Request::Submit(Submission::IpSet { name, ipset_type, entries })
                    && name@ == trim(old.ipset.name@) && ipset_type@ == trim(old.ipset.ipset_type@)
                    && entries@.len() == entry_lines(old.ipset.entries@).len()
                    && forall|k: int| 0 <= k < entries@.len() ==> #[trigger] entries@[k]@ == entry_lines(old.ipset.entries@)[k]
            }
        },
    }
}

fn report(state: &mut DialogState, id: &str) -> (r: Outcome<(), Request>)
    ensures
        final(state).operation_error matches Some(m) && m@ == id@,
        same_forms(*old(state), *final(state)),
        r.requests@.len() == 0,
        r.effects@.len() == 0,
{
    state.operation_error = Some(owned(id));
    Outcome::default()
}

fn submit(submission: Submission) -> (r: Outcome<(), Request>)
    ensures
        r.requests@ == seq![Request::Submit(submission)],
        r.effects@.len() == 0,
{
    Outcome::request(Request::Submit(submission))
}

/// Validates and submits the form of `kind`.
pub fn submit_form(state: &mut DialogState, kind: DialogKind, selected: Option<&str>) -> (r: Outcome<(), Request>)
    ensures
        submit_result(*old(state), *final(state), kind, selected, r.requests@),
        r.effects@.len() == 0,
{
    match kind {
        DialogKind::Zone => {
            let name = trimmed(&state.zone.name);
            if name.as_str().is_empty() {
                return report(state, "validation-zone-name");
            }
            submit(Submission::Zone {
                rename_from: None,
                name,
                description: trimmed(&state.zone.description),
                target: state.zone.target.copied(),
            })
        },
        DialogKind::Service | DialogKind::Icmp => Outcome::default(),
        DialogKind::Port => {
            port::touch_submission_fields(&mut state.port);
            if !state.port.is_valid() {
                return report(state, "validation-fix-fields");
            }
            let zone = match selected {
                Some(zone) => owned(zone),
                None => {
                    return report(state, "error-select-zone-first");
                },
            };
            let ghost z = zone;
            let sub = port::submission(&state.port, zone);
            submit(sub)
        },
        DialogKind::Interface => {
            if !interface::validate(&mut state.interface) {
                return Outcome::default();
            }
            let zone = match selected {
                Some(zone) => owned(zone),
                None => {
                    return report(state, "error-select-zone-first");
                },
            };
            submit(Submission::Interface { zone, interface: trimmed(&state.interface.interface) })
        },
        DialogKind::Source => {
            source::touch(&mut state.source);
            if !state.source.is_valid() {
                return report(state, "validation-fix-fields");
            }
            let zone = match selected {
                Some(zone) => owned(zone),
                None => {
                    return report(state, "error-select-zone-first");
                },
            };
            submit(Submission::Source { zone, source: trimmed(&state.source.source) })
        },
        DialogKind::RichRule => {
            let rule = match state.rich_rule.generated_rule() {
                Ok(rule) => rule,
                Err(_) => {
                    return report(state, "validation-fix-fields");
                },
            };
            let zone = match selected {
                Some(zone) => owned(zone),
                None => {
                    return report(state, "error-select-zone-first");
                },
            };
            submit(Submission::RichRule { zone, rule })
        },
        DialogKind::IpSet => {
            ipset::touch_submission_fields(&mut state.ipset);
            if !state.ipset.is_valid() {
                return report(state, "validation-fix-fields");
            }
            submit(Submission::IpSet {
                name: trimmed(&state.ipset.name),
                ipset_type: trimmed(&state.ipset.ipset_type),
                entries: ipset::split_entries(state.ipset.entries.as_str()),
            })
        },
    }
}

fn offers(items: &[String], item: &String) -> (r: bool)
    ensures
        r == exists|i: int| 0 <= i < items@.len() && (#[trigger] items@[i])@ == item@,
{
    let mut i: usize = 0;
    while i < items.len()
        invariant
            i <= items@.len(),
            forall|k: int| 0 <= k < i ==> (#[trigger] items@[k])@ != item@,
        decreases items@.len() - i,
    {
        if str_equal(items[i].as_str(), item.as_str()) {
            return true;
        }
        i = i + 1;
    }
    false
}

/// What selecting `service` in the picker does: with a selected zone that
/// does not enable it yet, it is submitted; otherwise the reason is reported.
pub open spec fn service_selected(old: DialogState, new: DialogState, service: String, context: Context<'_>, requests: Seq<Request>) -> bool {
    &&& same_forms(old, new)
    &&& match context.selected_zone {
        None => reports(new, requests, select_zone_first_id()),
        Some(zone) => if exists|i: int| 0 <= i < context.enabled_services@.len() && (#[trigger] context.enabled_services@[i])@ == service@ {
            reports(new, requests, service_enabled_id())
        } else {
            &&& new.operation_error == old.operation_error
            &&& requests.len() == 1
            &&& requests[0] matches Request::Submit(Submission::Service { zone: z, service: s })
                && z@ == zone@ && s == service
        },
    }
}

/// What selecting `icmp` in the picker does: with a selected zone that does
/// not block it yet, it is submitted; with no selected zone the reason is
/// reported; a blocked type is not offered and does nothing.
pub open spec fn icmp_selected(old: DialogState, new: DialogState, icmp: String, context: Context<'_>, requests: Seq<Request>) -> bool {
    &&& same_forms(old, new)
    &&& match context.selected_zone {
        None => reports(new, requests, select_zone_first_id()),
        Some(zone) => if exists|i: int| 0 <= i < context.blocked_icmp@.len() && (#[trigger] context.blocked_icmp@[i])@ == icmp@ {
            new == old && requests.len() == 0
        } else {
            &&& new.operation_error == old.operation_error
            &&& requests.len() == 1
            &&& requests[0] matches Request::Submit(Submission::Icmp { zone: z, icmp: s })
                && z@ == zone@ && s == icmp
        },
    }
}

/// Whether only the form of `kind`, if any, may differ between `a` and `b`.
pub open spec fn only_form_changed(a: DialogState, b: DialogState, kind: DialogKind) -> bool {
    &&& a.operation_error == b.operation_error
    &&& (kind != DialogKind::Zone ==> a.zone == b.zone)
    &&& (kind != DialogKind::Service ==> a.service == b.service)
    &&& (kind != DialogKind::Port ==> a.port == b.port)
    &&& (kind != DialogKind::Interface ==> a.interface == b.interface)
    &&& (kind != DialogKind::Source ==> a.source == b.source)
    &&& (kind != DialogKind::Icmp ==> a.icmp == b.icmp)
    &&& (kind != DialogKind::RichRule ==> a.rich_rule == b.rich_rule)
    &&& (kind != DialogKind::IpSet ==> a.ipset == b.ipset)
}

/// Applies one dialog message: form edits, picker selections, submission
/// (ignored while a mutation is pending) and cancellation.
pub fn update(state: &mut DialogState, message: DialogMessage, context: Context<'_>) -> (r: Outcome<(), Request>)
    ensures
        r.effects@.len() == 0,
        match message {
            DialogMessage::Zone(m) => only_form_changed(*old(state), *final(state), DialogKind::Zone)
                && zone::updated(old(state).zone, final(state).zone, m) && r.requests@.len() == 0,
            DialogMessage::Service(service::Message::SearchChanged(v)) => only_form_changed(*old(state), *final(state), DialogKind::Service)
                && final(state).service.search == v && r.requests@.len() == 0,
            DialogMessage::Service(service::Message::Selected(service)) => service_selected(*old(state), *final(state), service, context, r.requests@),
            DialogMessage::Port(m) => only_form_changed(*old(state), *final(state), DialogKind::Port)
                && port::updated(old(state).port, final(state).port, m) && r.requests@.len() == 0,
            DialogMessage::Interface(m) => only_form_changed(*old(state), *final(state), DialogKind::Interface)
                && interface::updated(old(state).interface, final(state).interface, m, context.interfaces@)
                && r.requests@.len() == 0,
            DialogMessage::Source(source::Message::AddressChanged(v)) => only_form_changed(*old(state), *final(state), DialogKind::Source)
                && final(state).source.source == v && final(state).source.touched && r.requests@.len() == 0,
            DialogMessage::Icmp(icmp::Message::SearchChanged(v)) => only_form_changed(*old(state), *final(state), DialogKind::Icmp)
                && final(state).icmp.search == v && r.requests@.len() == 0,
            DialogMessage::Icmp(icmp::Message::Selected(icmp)) => icmp_selected(*old(state), *final(state), icmp, context, r.requests@),
            DialogMessage::RichRule(m) => only_form_changed(*old(state), *final(state), DialogKind::RichRule)
                && rich_rule::updated(old(state).rich_rule, final(state).rich_rule, m) && r.requests@.len() == 0,
            DialogMessage::IpSet(m) => only_form_changed(*old(state), *final(state), DialogKind::IpSet)
                && ipset::updated(old(state).ipset, final(state).ipset, m) && r.requests@.len() == 0,
            DialogMessage::Submit(kind) => if context.mutation_pending {
                *final(state) == *old(state) && r.requests@.len() == 0
            } else {
                submit_result(*old(state), *final(state), kind, context.selected_zone, r.requests@)
            },
            DialogMessage::Cancel(kind) => reset_matches(*old(state), *final(state), kind) && r.requests@ == seq![Request::CloseDrawer],
        },
{
    match message {
        DialogMessage::Zone(message) => {
            zone::update(&mut state.zone, message);
            Outcome::default()
        },
        DialogMessage::Service(message) => match message {
            service::Message::SearchChanged(value) => {
                state.service.search = value;
                Outcome::default()
            },
            service::Message::Selected(service) => {
                let zone = match context.selected_zone {
                    Some(zone) => owned(zone),
                    None => {
                        return report(state, "error-select-zone-first");
                    },
                };
                if offers(context.enabled_services, &service) {
                    return report(state, "error-service-already-enabled");
                }
                submit(Submission::Service { zone, service })
            },
        },
        DialogMessage::Port(message) => {
            port::update(&mut state.port, message);
            Outcome::default()
        },
        DialogMessage::Interface(message) => {
            interface::update(&mut state.interface, message, context.interfaces);
            Outcome::default()
        },
        DialogMessage::Source(message) => {
            match message {
                source::Message::AddressChanged(value) => source::address_changed(&mut state.source, value),
            }
            Outcome::default()
        },
        DialogMessage::Icmp(message) => match message {
            icmp::Message::SearchChanged(value) => {
                icmp::search_changed(&mut state.icmp, value);
                Outcome::default()
            },
            icmp::Message::Selected(icmp) => {
                let zone = match context.selected_zone {
                    Some(zone) => owned(zone),
                    None => {
                        return report(state, "error-select-zone-first");
                    },
                };
                if offers(context.blocked_icmp, &icmp) {
                    return Outcome::default();
                }
                submit(Submission::Icmp { zone, icmp })
            },
        },
        DialogMessage::RichRule(message) => {
            rich_rule::update(&mut state.rich_rule, message);
            Outcome::default()
        },
        DialogMessage::IpSet(message) => {
            ipset::update(&mut state.ipset, message);
            Outcome::default()
        },
        DialogMessage::Submit(kind) => {
            if context.mutation_pending {
                return Outcome::default();
            }
            submit_form(state, kind, context.selected_zone)
        },
        DialogMessage::Cancel(kind) => {
            state.reset(kind);
            Outcome::request(Request::CloseDrawer)
        },
    }
}

} // verus!
