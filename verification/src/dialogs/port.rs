//! The port form: destination, source and forwarded ports.
use vstd::prelude::*;

use crate::text::{chars_of, trim, trim_chars, string_of};
use crate::validation::{
    chars_eq_str, forward_address_result, is_port_protocol, port_spec_result,
    validate_forward_address, validate_port_protocol, validate_port_spec,
};

use super::Submission;

verus! {

/// Edits of the port form.
#[derive(Debug, Clone)]
pub enum Message {
    NumberChanged(String),
    ProtocolSelected(usize),
    ForwardDestIpChanged(String),
    ForwardDestPortChanged(String),
}

/// The transport protocols offered for port rules, in display order.
pub open spec fn port_protocols() -> Seq<Seq<char>> {
    seq!["tcp"@, "udp"@, "sctp"@, "dccp"@]
}

fn protocol_at(index: usize) -> (r: &'static str)
    requires
        index < 4,
    ensures
        r@ == port_protocols()[index as int],
{
    match index {
        0 => "tcp",
        1 => "udp",
        2 => "sctp",
        _ => "dccp",
    }
}

/// Semantic kind of permanent port rule being created.
#[derive(Debug, Clone, Copy, Eq, PartialEq, Structural)]
pub enum PortKind {
    /// A destination port accepted by the zone.
    Destination,
    /// A source port accepted by the zone.
    Source,
    /// A destination port forwarded to another address or port.
    Forward,
}

impl Default for PortKind {
    /// A destination port.
    fn default() -> (r: Self)
        ensures
            r == PortKind::Destination,
    {
        PortKind::Destination
    }
}

/// The fields of the port form.
#[derive(Debug, Clone)]
pub struct PortFormState {
    /// Port number or inclusive port range.
    pub port: String,
    /// Transport protocol for the port rule.
    pub protocol: String,
    /// Semantic kind of port rule being created.
    pub kind: PortKind,
    /// Optional forwarding destination address.
    pub dest_ip: String,
    /// Required forwarding destination port.
    pub dest_port: String,
    /// Whether the source port field has been edited.
    pub port_touched: bool,
    /// Whether the destination address field has been edited.
    pub dest_ip_touched: bool,
    /// Whether the destination port field has been edited.
    pub dest_port_touched: bool,
}

/// The freshly opened form of a given kind: empty fields, protocol `tcp`, nothing touched.
pub open spec fn is_fresh_port_form(s: PortFormState, kind: PortKind) -> bool {
    &&& s.port@.len() == 0
    &&& s.protocol@ == "tcp"@
    &&& s.kind == kind
    &&& s.dest_ip@.len() == 0
    &&& s.dest_port@.len() == 0
    &&& !s.port_touched
    &&& !s.dest_ip_touched
    &&& !s.dest_port_touched
}

impl PortFormState {
    /// The empty form for ports of `kind`.
    pub fn fresh(kind: PortKind) -> (r: Self)
        ensures
            is_fresh_port_form(r, kind),
    {
        PortFormState {
            port: String::new(),
            protocol: protocol_at(0).to_owned(),
            kind,
            dest_ip: String::new(),
            dest_port: String::new(),
            port_touched: false,
            dest_ip_touched: false,
            dest_port_touched: false,
        }
    }
}

impl Default for PortFormState {
    /// The empty destination-port form.
    fn default() -> (r: Self)
        ensures
            is_fresh_port_form(r, PortKind::Destination),
    {
        PortFormState::fresh(PortKind::Destination)
    }
}

/// Whether every field that the form's kind shows is valid: port and protocol always, the
/// destination port and address for forwarded ports only.
pub open spec fn port_form_valid(s: PortFormState) -> bool {
    &&& port_spec_result(s.port@) is Ok
    &&& is_port_protocol(s.protocol@)
    &&& (s.kind != PortKind::Forward || (port_spec_result(s.dest_port@) is Ok
        && forward_address_result(s.dest_ip@) is Ok))
}

impl PortFormState {
    /// Returns whether all currently visible port fields are valid.
    pub fn is_valid(&self) -> (r: bool)
        ensures
            r == port_form_valid(*self),
    {
        validate_port_spec(self.port.as_str()).is_ok() && validate_port_protocol(
            self.protocol.as_str(),
        ).is_ok() && (self.kind != PortKind::Forward || (validate_port_spec(
            self.dest_port.as_str(),
        ).is_ok() && validate_forward_address(self.dest_ip.as_str()).is_ok()))
    }
}

/// The protocol that a dropdown index selects; out-of-range indices select `tcp`.
pub open spec fn protocol_for_index(index: int) -> Seq<char> {
    if 0 <= index < 4 {
        port_protocols()[index]
    } else {
        "tcp"@
    }
}

/// The protocol that a dropdown index selects.
pub fn protocol_from_index(index: usize) -> (r: String)
    ensures
        r@ == protocol_for_index(index as int),
{
    if index < 4 {
        protocol_at(index).to_owned()
    } else {
        protocol_at(0).to_owned()
    }
}

/// Reading back the protocol that a dropdown index selects finds that
/// index; an out-of-range index selects `tcp`, found at index zero.
pub proof fn lemma_protocol_index_round_trip(index: int, found: int)
    requires
        0 <= found < 4,
        port_protocols()[found] == protocol_for_index(index),
    ensures
        found == if 0 <= index < 4 { index } else { 0 },
{
    reveal_strlit("tcp");
    reveal_strlit("udp");
    reveal_strlit("sctp");
    reveal_strlit("dccp");
    let expected = if 0 <= index < 4 { index } else { 0 };
    assert(port_protocols()[expected] == protocol_for_index(index));
    if found != expected {
        assert(port_protocols()[found].len() != port_protocols()[expected].len()
            || port_protocols()[found][0] != port_protocols()[expected][0]);
    }
}

/// The dropdown index of a protocol, if it is offered.
pub fn protocol_index(protocol: &str) -> (r: Option<usize>)
    ensures
        match r {
            Some(i) => i < 4 && port_protocols()[i as int] == protocol@,
            None => !port_protocols().contains(protocol@),
        },
{
    let v = chars_of(protocol);
    let mut i: usize = 0;
    while i < 4
        invariant
            i <= 4,
            v@ == protocol@,
            forall|j: int| 0 <= j < i ==> port_protocols()[j] != protocol@,
        decreases 4 - i,
    {
        if chars_eq_str(v.as_slice(), protocol_at(i)) {
            return Some(i);
        }
        i = i + 1;
    }
    assert(port_protocols().len() == 4);
    None
}

/// What a message does to the form.
pub open spec fn updated(before: PortFormState, after: PortFormState, message: Message) -> bool {
    match message {
        Message::NumberChanged(v) => after.port == v && after.port_touched
            && after.protocol == before.protocol && after.kind == before.kind
            && after.dest_ip == before.dest_ip && after.dest_port == before.dest_port
            && after.dest_ip_touched == before.dest_ip_touched
            && after.dest_port_touched == before.dest_port_touched,
        Message::ProtocolSelected(i) => after.protocol@ == protocol_for_index(i as int)
            && after.port == before.port && after.kind == before.kind
            && after.dest_ip == before.dest_ip && after.dest_port == before.dest_port
            && after.port_touched == before.port_touched
            && after.dest_ip_touched == before.dest_ip_touched
            && after.dest_port_touched == before.dest_port_touched,
        Message::ForwardDestIpChanged(v) => after.dest_ip == v && after.dest_ip_touched
            && after.port == before.port && after.protocol == before.protocol
            && after.kind == before.kind && after.dest_port == before.dest_port
            && after.port_touched == before.port_touched
            && after.dest_port_touched == before.dest_port_touched,
        Message::ForwardDestPortChanged(v) => after.dest_port == v
            && after.dest_port_touched && after.port == before.port
            && after.protocol == before.protocol && after.kind == before.kind
            && after.dest_ip == before.dest_ip
            && after.port_touched == before.port_touched
            && after.dest_ip_touched == before.dest_ip_touched,
    }
}

/// Applies one edit to the form.
pub fn update(state: &mut PortFormState, message: Message)
    ensures
        updated(*old(state), *final(state), message),
{
    match message {
        Message::NumberChanged(value) => {
            state.port = value;
            state.port_touched = true;
        },
        Message::ProtocolSelected(index) => state.protocol = protocol_from_index(index),
        Message::ForwardDestIpChanged(value) => {
            state.dest_ip = value;
            state.dest_ip_touched = true;
        },
        Message::ForwardDestPortChanged(value) => {
            state.dest_port = value;
            state.dest_port_touched = true;
        },
    }
}

/// Marks the fields that a submission shows errors for as touched.
pub fn touch_submission_fields(state: &mut PortFormState)
    ensures
        final(state).port_touched,
        final(state).dest_ip_touched == (old(state).dest_ip_touched || old(state).kind == PortKind::Forward),
        final(state).dest_port_touched == (old(state).dest_port_touched || old(state).kind == PortKind::Forward),
        final(state).port == old(state).port,
        final(state).protocol == old(state).protocol,
        final(state).kind == old(state).kind,
        final(state).dest_ip == old(state).dest_ip,
        final(state).dest_port == old(state).dest_port,
{
    state.port_touched = true;
    if state.kind == PortKind::Forward {
        state.dest_ip_touched = true;
        state.dest_port_touched = true;
    }
}

/// A trimmed copy of a string.
pub fn trimmed(value: &String) -> (r: String)
    ensures
        r@ == trim(value@),
{
    let v = chars_of(value.as_str());
    let t = trim_chars(v.as_slice());
    string_of(t.as_slice())
}

/// The submission of a port form for `zone`, with trimmed values.
pub open spec fn port_submission_matches(state: PortFormState, zone: String, r: Submission) -> bool {
    match state.kind {
        PortKind::Destination => r matches Submission::Port { zone: z, port, protocol }
            && z == zone && port@ == trim(state.port@) && protocol@ == trim(state.protocol@),
        PortKind::Source => r matches Submission::SourcePort { zone: z, port, protocol }
            && z == zone && port@ == trim(state.port@) && protocol@ == trim(state.protocol@),
        PortKind::Forward => r matches Submission::ForwardPort { zone: z, port, protocol, to_port, to_addr }
            && z == zone && port@ == trim(state.port@) && protocol@ == trim(state.protocol@)
            && to_port@ == trim(state.dest_port@) && to_addr@ == trim(state.dest_ip@),
    }
}

/// The submission that the form's kind produces for `zone`.
pub fn submission(state: &PortFormState, zone: String) -> (r: Submission)
    ensures
        port_submission_matches(*state, zone, r),
{
    let port = trimmed(&state.port);
    let protocol = trimmed(&state.protocol);
    match state.kind {
        PortKind::Destination => Submission::Port { zone, port, protocol },
        PortKind::Source => Submission::SourcePort { zone, port, protocol },
        PortKind::Forward => Submission::ForwardPort {
            zone,
            port,
            protocol,
            to_port: trimmed(&state.dest_port),
            to_addr: trimmed(&state.dest_ip),
        },
    }
}

} // verus!
