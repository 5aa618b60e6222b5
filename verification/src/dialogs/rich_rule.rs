//! The rich-rule form: a structured builder and a raw-text mode.
use vstd::prelude::*;

use crate::rich_rule::{
    rule_check, rule_xml, RichRuleAction, RichRuleElement, RichRuleError, RichRuleFamily,
    RichRuleSpec,
};
use crate::text::trim;

use super::port::{protocol_for_index, protocol_from_index, trimmed};

verus! {

/// Edits of the rich-rule form.
#[derive(Debug, Clone)]
pub enum Message {
    RawModeToggled(bool),
    RawChanged(String),
    FamilySelected(usize),
    SourceChanged(String),
    SourceInvertToggled(bool),
    DestinationChanged(String),
    DestinationInvertToggled(bool),
    ElementSelected(usize),
    ElementValueChanged(String),
    PortProtocolSelected(usize),
    ActionSelected(usize),
    RejectTypeChanged(String),
    MarkChanged(String),
}

/// State for structured generation and advanced raw rich-rule entry.
#[derive(Debug, Clone)]
pub struct RichRuleFormState {
    /// Whether advanced raw mode is active.
    pub raw_mode: bool,
    /// Lossless raw rule text.
    pub raw_rule: String,
    /// Family dropdown index: any, IPv4, or IPv6.
    pub family: usize,
    /// Optional source address/network.
    pub source: String,
    /// Whether the source match is inverted.
    pub source_invert: bool,
    /// Optional destination address/network.
    pub destination: String,
    /// Whether the destination match is inverted.
    pub destination_invert: bool,
    /// Element dropdown index: service, port, or protocol.
    pub element: usize,
    /// Service, port, or protocol value for the selected element.
    pub element_value: String,
    /// Protocol used by a port element.
    pub port_protocol: String,
    /// Action dropdown index: accept, reject, drop, or mark.
    pub action: usize,
    /// Optional reject type.
    pub reject_type: String,
    /// Mark value for the mark action.
    pub mark: String,
}

/// Whether `f` is the empty rich-rule form: structured mode, any family, no
/// inversion, a service accepted, every text empty, protocol `tcp`.
pub open spec fn is_default_rich_rule_form(f: RichRuleFormState) -> bool {
    &&& !f.raw_mode
    &&& f.raw_rule@.len() == 0
    &&& f.family == 0
    &&& f.source@.len() == 0
    &&& !f.source_invert
    &&& f.destination@.len() == 0
    &&& !f.destination_invert
    &&& f.element == 0
    &&& f.element_value@.len() == 0
    &&& f.port_protocol@ == "tcp"@
    &&& f.action == 0
    &&& f.reject_type@.len() == 0
    &&& f.mark@.len() == 0
}

impl Default for RichRuleFormState {
    /// Structured mode, any family, a service accepted, every text empty, protocol `tcp`.
    fn default() -> (r: Self)
        ensures
            is_default_rich_rule_form(r),
    {
        RichRuleFormState {
            raw_mode: false,
            raw_rule: String::new(),
            family: 0,
            source: String::new(),
            source_invert: false,
            destination: String::new(),
            destination_invert: false,
            element: 0,
            element_value: String::new(),
            port_protocol: protocol_from_index(0),
            action: 0,
            reject_type: String::new(),
            mark: String::new(),
        }
    }
}

/// An optional address field: absent when blank, otherwise trimmed.
pub open spec fn optional_address_matches(text: Seq<char>, invert: bool, a: Option<(String, bool)>) -> bool {
    if trim(text).len() == 0 {
        a is None
    } else {
        a matches Some((v, i)) && v@ == trim(text) && i == invert
    }
}

/// The rule that the structured fields describe.
pub open spec fn form_spec_matches(f: RichRuleFormState, s: RichRuleSpec) -> bool {
    &&& s.family == (if f.family == 1 {
        Some(RichRuleFamily::Ipv4)
    } else if f.family == 2 {
        Some(RichRuleFamily::Ipv6)
    } else {
        None
    })
    &&& optional_address_matches(f.source@, f.source_invert, s.source)
    &&& optional_address_matches(f.destination@, f.destination_invert, s.destination)
    &&& (if f.element == 1 {
        s.element matches RichRuleElement::Port { port, protocol } && port@ == trim(f.element_value@)
            && protocol@ == f.port_protocol@
    } else if f.element == 2 {
        s.element matches RichRuleElement::Protocol(v) && v@ == trim(f.element_value@)
    } else {
        s.element matches RichRuleElement::Service(v) && v@ == trim(f.element_value@)
    })
    &&& (if f.action == 1 {
        if trim(f.reject_type@).len() == 0 {
            s.action == RichRuleAction::Reject(None)
        } else {
            s.action matches RichRuleAction::Reject(Some(k)) && k@ == trim(f.reject_type@)
        }
    } else if f.action == 2 {
        s.action == RichRuleAction::Drop
    } else if f.action == 3 {
        s.action matches RichRuleAction::Mark(m) && m@ == trim(f.mark@)
    } else {
        s.action == RichRuleAction::Accept
    })
}

fn optional_address(text: &String, invert: bool) -> (r: Option<(String, bool)>)
    ensures
        optional_address_matches(text@, invert, r),
{
    let t = trimmed(text);
    if t.as_str().is_empty() {
        None
    } else {
        assert(t@.len() > 0);
        Some((t, invert))
    }
}

impl RichRuleFormState {
    /// The structured rule that the form's fields describe.
    pub fn rule_spec(&self) -> (r: RichRuleSpec)
        ensures
            form_spec_matches(*self, r),
    {
        let family = if self.family == 1 {
            Some(RichRuleFamily::Ipv4)
        } else if self.family == 2 {
            Some(RichRuleFamily::Ipv6)
        } else {
            None
        };
        let element = if self.element == 1 {
            RichRuleElement::Port { port: trimmed(&self.element_value), protocol: self.port_protocol.clone() }
        } else if self.element == 2 {
            RichRuleElement::Protocol(trimmed(&self.element_value))
        } else {
            RichRuleElement::Service(trimmed(&self.element_value))
        };
        let action = if self.action == 1 {
            let kind = trimmed(&self.reject_type);
            if kind.as_str().is_empty() {
                RichRuleAction::Reject(None)
            } else {
                assert(kind@.len() > 0);
                RichRuleAction::Reject(Some(kind))
            }
        } else if self.action == 2 {
            RichRuleAction::Drop
        } else if self.action == 3 {
            RichRuleAction::Mark(trimmed(&self.mark))
        } else {
            RichRuleAction::Accept
        };
        RichRuleSpec {
            family,
            source: optional_address(&self.source, self.source_invert),
            destination: optional_address(&self.destination, self.destination_invert),
            element,
            action,
        }
    }

    /// Returns validated raw text or generated XML for submission.
    ///
    /// In raw mode the trimmed raw text is returned unchanged when it is not blank; the
    /// structured fields are then ignored.
    pub fn generated_rule(&self) -> (r: Result<String, RichRuleError>)
        ensures
            self.raw_mode ==> (if trim(self.raw_rule@).len() == 0 {
                r == Err::<String, RichRuleError>(RichRuleError::MissingElement)
            } else {
                r matches Ok(x) && x@ == trim(self.raw_rule@)
            }),
            !self.raw_mode ==> exists|s: RichRuleSpec|
                form_spec_matches(*self, s) && match r {
                    Ok(x) => rule_check(s) is Ok && x@ == rule_xml(s),
                    Err(e) => rule_check(s) == Err::<(), RichRuleError>(e),
                },
    {
        if self.raw_mode {
            let t = trimmed(&self.raw_rule);
            return if t.as_str().is_empty() {
                Err(RichRuleError::MissingElement)
            } else {
                Ok(t)
            };
        }
        let spec = self.rule_spec();
        spec.to_xml()
    }
}

/// What a message does to the form.
pub open spec fn updated(before: RichRuleFormState, after: RichRuleFormState, message: Message) -> bool {
    match message {
        Message::RawModeToggled(v) => after == (RichRuleFormState { raw_mode: v, ..before }),
        Message::RawChanged(v) => after == (RichRuleFormState { raw_rule: v, ..before }),
        Message::FamilySelected(v) => after == (RichRuleFormState { family: v, ..before }),
        Message::SourceChanged(v) => after == (RichRuleFormState { source: v, ..before }),
        Message::SourceInvertToggled(v) => after == (RichRuleFormState { source_invert: v, ..before }),
        Message::DestinationChanged(v) => after == (RichRuleFormState { destination: v, ..before }),
        Message::DestinationInvertToggled(v) => after == (RichRuleFormState { destination_invert: v, ..before }),
        Message::ElementSelected(v) => after.element == v && after.element_value@.len() == 0
            && after == (RichRuleFormState { element: v, element_value: after.element_value, ..before }),
        Message::ElementValueChanged(v) => after == (RichRuleFormState { element_value: v, ..before }),
        Message::PortProtocolSelected(i) => after.port_protocol@ == protocol_for_index(i as int)
            && after == (RichRuleFormState { port_protocol: after.port_protocol, ..before }),
        Message::ActionSelected(v) => after == (RichRuleFormState { action: v, ..before }),
        Message::RejectTypeChanged(v) => after == (RichRuleFormState { reject_type: v, ..before }),
        Message::MarkChanged(v) => after == (RichRuleFormState { mark: v, ..before }),
    }
}

/// Applies one edit to the form; choosing another element clears the element's value.
pub fn update(state: &mut RichRuleFormState, message: Message)
    ensures
        updated(*old(state), *final(state), message),
{
    match message {
        Message::RawModeToggled(value) => state.raw_mode = value,
        Message::RawChanged(value) => state.raw_rule = value,
        Message::FamilySelected(value) => state.family = value,
        Message::SourceChanged(value) => state.source = value,
        Message::SourceInvertToggled(value) => state.source_invert = value,
        Message::DestinationChanged(value) => state.destination = value,
        Message::DestinationInvertToggled(value) => state.destination_invert = value,
        Message::ElementSelected(value) => {
            state.element = value;
            state.element_value = String::new();
        },
        Message::ElementValueChanged(value) => state.element_value = value,
        Message::PortProtocolSelected(value) => state.port_protocol = protocol_from_index(value),
        Message::ActionSelected(value) => state.action = value,
        Message::RejectTypeChanged(value) => state.reject_type = value,
        Message::MarkChanged(value) => state.mark = value,
    }
}

} // verus!

verus! {

/// The catalogue identifier of the message that explains a rich-rule error.
pub open spec fn rich_rule_error_id(e: RichRuleError) -> Seq<char> {
    match e {
        RichRuleError::MissingElement => "validation-rich-rule-element"@,
        RichRuleError::InvalidAddress => "validation-rich-rule-address"@,
        RichRuleError::InvalidPort => "validation-port"@,
        RichRuleError::InvalidPortProtocol => "validation-protocol"@,
        RichRuleError::InvalidProtocol => "validation-rich-rule-protocol"@,
        RichRuleError::InvalidIdentifier => "validation-rich-rule-identifier"@,
        RichRuleError::InvalidMark => "validation-rich-rule-mark"@,
    }
}

/// The message that explains a rich-rule error.
pub fn localized_rich_rule_error(error: RichRuleError) -> (r: String)
    ensures
        r@ == rich_rule_error_id(error),
{
    let id = match error {
        RichRuleError::MissingElement => "validation-rich-rule-element",
        RichRuleError::InvalidAddress => "validation-rich-rule-address",
        RichRuleError::InvalidPort => "validation-port",
        RichRuleError::InvalidPortProtocol => "validation-protocol",
        RichRuleError::InvalidProtocol => "validation-rich-rule-protocol",
        RichRuleError::InvalidIdentifier => "validation-rich-rule-identifier",
        RichRuleError::InvalidMark => "validation-rich-rule-mark",
    };
    crate::text::owned(id)
}

} // verus!
