//! Structured firewalld rich rules: validation and XML generation.
use vstd::prelude::*;

use crate::text::{
    all_in_class, chars_in_class, chars_of, lemma_split_nonempty, push_char, push_str, split,
    split_chars, trim, trim_chars, CharClass,
};
use crate::validation::{
    port_protocol_chars, port_spec_chars, port_spec_result, is_port_protocol, source_chars,
    source_result, ValidationError,
};

verus! {

/// Address family constraint for a structured rich rule.
#[derive(Clone, Copy, Debug, PartialEq, Eq, Structural)]
pub enum RichRuleFamily {
    /// Match IPv4 traffic.
    Ipv4,
    /// Match IPv6 traffic.
    Ipv6,
}

/// The single match element of a structured rich rule.
#[derive(Clone, Debug, PartialEq, Eq)]
pub enum RichRuleElement {
    /// Match a configured service name.
    Service(String),
    /// Match a port or inclusive range and transport protocol.
    Port { port: String, protocol: String },
    /// Match an IP protocol name or number.
    Protocol(String),
}

/// Terminal action of a structured rich rule.
#[derive(Clone, Debug, PartialEq, Eq)]
pub enum RichRuleAction {
    /// Accept matching traffic.
    Accept,
    /// Reject matching traffic, optionally with a reject type.
    Reject(Option<String>),
    /// Silently drop matching traffic.
    Drop,
    /// Set a validated packet mark.
    Mark(String),
}

/// Typed input used to validate and generate one rich-rule XML string.
#[derive(Clone, Debug, PartialEq, Eq)]
pub struct RichRuleSpec {
    /// Optional address family.
    pub family: Option<RichRuleFamily>,
    /// Optional source address/network and inversion flag.
    pub source: Option<(String, bool)>,
    /// Optional destination address/network and inversion flag.
    pub destination: Option<(String, bool)>,
    /// Exactly one rule element.
    pub element: RichRuleElement,
    /// Exactly one terminal action.
    pub action: RichRuleAction,
}

/// A structured rich-rule validation failure.
#[derive(Clone, Copy, Debug, PartialEq, Eq, Structural)]
pub enum RichRuleError {
    /// A required element value is empty.
    MissingElement,
    /// An address or CIDR network is invalid.
    InvalidAddress,
    /// The port or range is invalid.
    InvalidPort,
    /// The selected port protocol is invalid.
    InvalidPortProtocol,
    /// A protocol name/number contains unsupported characters.
    InvalidProtocol,
    /// A service or reject type contains unsupported characters.
    InvalidIdentifier,
    /// A packet mark is neither decimal nor hexadecimal, optionally with a mask.
    InvalidMark,
}

/// The outcome of a rich-rule check.
pub type RuleCheck = Result<(), RichRuleError>;

/// An optional address must be a valid source address or network.
pub open spec fn address_check(a: Option<(String, bool)>) -> RuleCheck {
    match a {
        Some((addr, _)) => if source_result(addr@) is Ok {
            Ok(())
        } else {
            Err(RichRuleError::InvalidAddress)
        },
        None => Ok(()),
    }
}

/// Service names and reject types: ASCII letters, digits, `-`, `_` and `.`.
pub open spec fn identifier_check(v: Seq<char>) -> RuleCheck {
    if all_in_class(CharClass::Identifier, v) {
        Ok(())
    } else {
        Err(RichRuleError::InvalidIdentifier)
    }
}

/// The check of the rule's element.
pub open spec fn element_check(e: RichRuleElement) -> RuleCheck {
    match e {
        RichRuleElement::Service(name) => if trim(name@).len() == 0 {
            Err(RichRuleError::MissingElement)
        } else {
            identifier_check(name@)
        },
        RichRuleElement::Port { port, protocol } => match port_spec_result(port@) {
            Err(ValidationError::Required) => Err(RichRuleError::MissingElement),
            Err(_) => Err(RichRuleError::InvalidPort),
            Ok(()) => if is_port_protocol(protocol@) {
                Ok(())
            } else {
                Err(RichRuleError::InvalidPortProtocol)
            },
        },
        RichRuleElement::Protocol(value) => if trim(value@).len() == 0 {
            Err(RichRuleError::MissingElement)
        } else if all_in_class(CharClass::Protocol, value@) {
            Ok(())
        } else {
            Err(RichRuleError::InvalidProtocol)
        },
    }
}

/// One number of a mark: `0x` followed by hexadecimal digits, or decimal digits.
pub open spec fn is_mark_number(v: Seq<char>) -> bool {
    if v.len() >= 2 && v[0] == '0' && v[1] == 'x' {
        v.len() > 2 && all_in_class(CharClass::HexDigit, v.skip(2))
    } else {
        v.len() > 0 && all_in_class(CharClass::Digit, v)
    }
}

/// A packet mark, optionally followed by `/` and a mask.
pub open spec fn is_mark(v: Seq<char>) -> bool {
    let t = trim(v);
    let p = split(t, '/');
    &&& t.len() > 0
    &&& is_mark_number(p[0])
    &&& (p.len() == 1 || (p.len() == 2 && is_mark_number(p[1])))
}

/// The check of the rule's action.
pub open spec fn action_check(a: RichRuleAction) -> RuleCheck {
    match a {
        RichRuleAction::Reject(Some(kind)) => if trim(kind@).len() > 0 {
            identifier_check(kind@)
        } else {
            Ok(())
        },
        RichRuleAction::Mark(value) => if is_mark(value@) {
            Ok(())
        } else {
            Err(RichRuleError::InvalidMark)
        },
        _ => Ok(()),
    }
}

/// All checks of a rule, in the order source, destination, element, action.
pub open spec fn rule_check(s: RichRuleSpec) -> RuleCheck {
    match address_check(s.source) {
        Err(e) => Err(e),
        Ok(()) => match address_check(s.destination) {
            Err(e) => Err(e),
            Ok(()) => match element_check(s.element) {
                Err(e) => Err(e),
                Ok(()) => action_check(s.action),
            },
        },
    }
}

/// The XML attribute encoding of one character.
pub open spec fn escape_char(c: char) -> Seq<char> {
    if c == '&' {
        "&amp;"@
    } else if c == '"' {
        "&quot;"@
    } else if c == '<' {
        "&lt;"@
    } else if c == '>' {
        "&gt;"@
    } else {
        seq![c]
    }
}

/// The XML attribute encoding of a value.
pub open spec fn escape(v: Seq<char>) -> Seq<char>
    decreases v.len(),
{
    if v.len() == 0 {
        Seq::<char>::empty()
    } else {
        escape(v.drop_last()) + escape_char(v.last())
    }
}

/// The `family` attribute.
pub open spec fn family_xml(f: Option<RichRuleFamily>) -> Seq<char> {
    match f {
        None => Seq::<char>::empty(),
        Some(RichRuleFamily::Ipv4) => " family=\"ipv4\""@,
        Some(RichRuleFamily::Ipv6) => " family=\"ipv6\""@,
    }
}

/// A `source` or `destination` element.
pub open spec fn address_xml(name: Seq<char>, a: Option<(String, bool)>) -> Seq<char> {
    match a {
        None => Seq::<char>::empty(),
        Some((addr, invert)) => "<"@ + name + (if invert {
            " invert=\"true\""@
        } else {
            Seq::<char>::empty()
        }) + " address=\""@ + escape(addr@) + "\"/>"@,
    }
}

/// The element's XML.
pub open spec fn element_xml(e: RichRuleElement) -> Seq<char> {
    match e {
        RichRuleElement::Service(name) => "<service name=\""@ + escape(name@) + "\"/>"@,
        RichRuleElement::Port { port, protocol } => "<port port=\""@ + escape(port@)
            + "\" protocol=\""@ + escape(protocol@) + "\"/>"@,
        RichRuleElement::Protocol(value) => "<protocol value=\""@ + escape(value@) + "\"/>"@,
    }
}

/// The action's XML.
pub open spec fn action_xml(a: RichRuleAction) -> Seq<char> {
    match a {
        RichRuleAction::Accept => "<accept/>"@,
        RichRuleAction::Reject(None) => "<reject/>"@,
        RichRuleAction::Reject(Some(kind)) => "<reject type=\""@ + escape(kind@) + "\"/>"@,
        RichRuleAction::Drop => "<drop/>"@,
        RichRuleAction::Mark(mark) => "<mark set=\""@ + escape(mark@) + "\"/>"@,
    }
}

/// The firewalld rich-rule XML of a rule.
pub open spec fn rule_xml(s: RichRuleSpec) -> Seq<char> {
    "<rule"@ + family_xml(s.family) + ">"@ + address_xml("source"@, s.source) + address_xml(
        "destination"@,
        s.destination,
    ) + element_xml(s.element) + action_xml(s.action) + "</rule>"@
}

fn validate_optional_address(a: &Option<(String, bool)>) -> (r: RuleCheck)
    ensures
        r == address_check(*a),
{
    match a {
        Some((addr, _)) => {
            let v = chars_of(addr.as_str());
            match source_chars(v.as_slice()) {
                Ok(()) => Ok(()),
                Err(_) => Err(RichRuleError::InvalidAddress),
            }
        },
        None => Ok(()),
    }
}

fn validate_identifier(v: &[char]) -> (r: RuleCheck)
    ensures
        r == identifier_check(v@),
{
    if chars_in_class(CharClass::Identifier, v) {
        Ok(())
    } else {
        Err(RichRuleError::InvalidIdentifier)
    }
}

fn validate_element(e: &RichRuleElement) -> (r: RuleCheck)
    ensures
        r == element_check(*e),
{
    match e {
        RichRuleElement::Service(name) => {
            let v = chars_of(name.as_str());
            if trim_chars(v.as_slice()).len() == 0 {
                Err(RichRuleError::MissingElement)
            } else {
                validate_identifier(v.as_slice())
            }
        },
        RichRuleElement::Port { port, protocol } => {
            let pv = chars_of(port.as_str());
            match port_spec_chars(pv.as_slice()) {
                Err(ValidationError::Required) => return Err(RichRuleError::MissingElement),
                Err(_) => return Err(RichRuleError::InvalidPort),
                Ok(()) => {},
            }
            let qv = chars_of(protocol.as_str());
            match port_protocol_chars(qv.as_slice()) {
                Ok(()) => Ok(()),
                Err(_) => Err(RichRuleError::InvalidPortProtocol),
            }
        },
        RichRuleElement::Protocol(value) => {
            let v = chars_of(value.as_str());
            if trim_chars(v.as_slice()).len() == 0 {
                Err(RichRuleError::MissingElement)
            } else if chars_in_class(CharClass::Protocol, v.as_slice()) {
                Ok(())
            } else {
                Err(RichRuleError::InvalidProtocol)
            }
        },
    }
}

fn valid_mark_number(v: &[char]) -> (r: bool)
    ensures
        r == is_mark_number(v@),
{
    if v.len() >= 2 && v[0] == '0' && v[1] == 'x' {
        let mut hex: Vec<char> = Vec::new();
        let mut k: usize = 2;
        while k < v.len()
            invariant
                2 <= k <= v@.len(),
                hex@ == v@.subrange(2, k as int),
            decreases v@.len() - k,
        {
            hex.push(v[k]);
            k = k + 1;
            assert(hex@ =~= v@.subrange(2, k as int));
        }
        assert(hex@ =~= v@.skip(2));
        v.len() > 2 && chars_in_class(CharClass::HexDigit, hex.as_slice())
    } else {
        v.len() > 0 && chars_in_class(CharClass::Digit, v)
    }
}

fn valid_mark(v: &[char]) -> (r: bool)
    ensures
        r == is_mark(v@),
{
    let t = trim_chars(v);
    if t.len() == 0 {
        return false;
    }
    let p = split_chars(t.as_slice(), '/');
    proof { lemma_split_nonempty(t@, '/'); }
    assert(p@[0]@ == split(t@, '/')[0]);
    if !valid_mark_number(p[0].as_slice()) {
        return false;
    }
    if p.len() == 1 {
        return true;
    }
    if p.len() != 2 {
        return false;
    }
    assert(p@[1]@ == split(t@, '/')[1]);
    valid_mark_number(p[1].as_slice())
}

fn validate_action(a: &RichRuleAction) -> (r: RuleCheck)
    ensures
        r == action_check(*a),
{
    match a {
        RichRuleAction::Reject(Some(kind)) => {
            let v = chars_of(kind.as_str());
            if trim_chars(v.as_slice()).len() > 0 {
                validate_identifier(v.as_slice())
            } else {
                Ok(())
            }
        },
        RichRuleAction::Mark(value) => {
            let v = chars_of(value.as_str());
            if valid_mark(v.as_slice()) {
                Ok(())
            } else {
                Err(RichRuleError::InvalidMark)
            }
        },
        _ => Ok(()),
    }
}

/// Appends the XML attribute encoding of `value` to `out`.
fn push_escaped(out: &mut String, value: &str)
    ensures
        final(out)@ == old(out)@ + escape(value@),
{
    let v = chars_of(value);
    let mut i: usize = 0;
    while i < v.len()
        invariant
            i <= v@.len(),
            v@ == value@,
            out@ == old(out)@ + escape(v@.take(i as int)),
        decreases v@.len() - i,
    {
        let c = v[i];
        proof {
            assert(v@.take(i + 1).drop_last() =~= v@.take(i as int));
        }
        if c == '&' {
            push_str(out, "&amp;");
        } else if c == '"' {
            push_str(out, "&quot;");
        } else if c == '<' {
            push_str(out, "&lt;");
        } else if c == '>' {
            push_str(out, "&gt;");
        } else {
            push_char(out, c);
        }
        i = i + 1;
        assert(out@ =~= old(out)@ + escape(v@.take(i as int)));
    }
    assert(v@.take(v@.len() as int) =~= v@);
}

fn push_address(rule: &mut String, element: &str, address: &str, invert: bool)
    ensures
        final(rule)@ == old(rule)@ + "<"@ + element@ + (if invert {
            " invert=\"true\""@
        } else {
            Seq::<char>::empty()
        }) + " address=\""@ + escape(address@) + "\"/>"@,
{
    push_str(rule, "<");
    push_str(rule, element);
    if invert {
        push_str(rule, " invert=\"true\"");
    }
    push_str(rule, " address=\"");
    push_escaped(rule, address);
    push_str(rule, "\"/>");
    assert(rule@ =~= old(rule)@ + "<"@ + element@ + (if invert {
        " invert=\"true\""@
    } else {
        Seq::<char>::empty()
    }) + " address=\""@ + escape(address@) + "\"/>"@);
}

fn push_element(rule: &mut String, e: &RichRuleElement)
    ensures
        final(rule)@ == old(rule)@ + element_xml(*e),
{
    match e {
        RichRuleElement::Service(name) => {
            push_str(rule, "<service name=\"");
            push_escaped(rule, name.as_str());
            push_str(rule, "\"/>");
        },
        RichRuleElement::Port { port, protocol } => {
            push_str(rule, "<port port=\"");
            push_escaped(rule, port.as_str());
            push_str(rule, "\" protocol=\"");
            push_escaped(rule, protocol.as_str());
            push_str(rule, "\"/>");
        },
        RichRuleElement::Protocol(value) => {
            push_str(rule, "<protocol value=\"");
            push_escaped(rule, value.as_str());
            push_str(rule, "\"/>");
        },
    }
    assert(rule@ =~= old(rule)@ + element_xml(*e));
}

fn push_action(rule: &mut String, a: &RichRuleAction)
    ensures
        final(rule)@ == old(rule)@ + action_xml(*a),
{
    match a {
        RichRuleAction::Accept => push_str(rule, "<accept/>"),
        RichRuleAction::Reject(None) => push_str(rule, "<reject/>"),
        RichRuleAction::Reject(Some(kind)) => {
            push_str(rule, "<reject type=\"");
            push_escaped(rule, kind.as_str());
            push_str(rule, "\"/>");
        },
        RichRuleAction::Drop => push_str(rule, "<drop/>"),
        RichRuleAction::Mark(mark) => {
            push_str(rule, "<mark set=\"");
            push_escaped(rule, mark.as_str());
            push_str(rule, "\"/>");
        },
    }
    assert(rule@ =~= old(rule)@ + action_xml(*a));
}

fn push_optional_address(rule: &mut String, element: &str, a: &Option<(String, bool)>)
    ensures
        final(rule)@ == old(rule)@ + address_xml(element@, *a),
{
    match a {
        Some((address, invert)) => push_address(rule, element, address.as_str(), *invert),
        None => {},
    }
    assert(rule@ =~= old(rule)@ + address_xml(element@, *a));
}

fn rule_checked(s: &RichRuleSpec) -> (r: RuleCheck)
    ensures
        r == rule_check(*s),
{
    match validate_optional_address(&s.source) {
        Err(e) => return Err(e),
        Ok(()) => {},
    }
    match validate_optional_address(&s.destination) {
        Err(e) => return Err(e),
        Ok(()) => {},
    }
    match validate_element(&s.element) {
        Err(e) => return Err(e),
        Ok(()) => {},
    }
    validate_action(&s.action)
}

/// Whether `x` ends with `suffix`.
pub open spec fn ends_with(x: Seq<char>, suffix: Seq<char>) -> bool {
    x.len() >= suffix.len() && x.subrange(x.len() - suffix.len(), x.len() as int) == suffix
}

proof fn lemma_ends_with_append(a: Seq<char>, b: Seq<char>)
    ensures
        ends_with(a + b, b),
{
    assert((a + b).subrange(a.len() as int, (a + b).len() as int) =~= b);
}

/// The generated rule closes with the element of the chosen action: accept
/// gives `<accept/>`, drop gives `<drop/>`, reject gives `<reject/>` or,
/// with a type, `<reject type="…"/>`, and mark gives `<mark set="…"/>`, the
/// values escaped; so rules that differ only in a fixed action differ.
pub proof fn lemma_rule_names_its_action(s: RichRuleSpec)
    ensures
        s.action is Accept ==> ends_with(rule_xml(s), "<accept/></rule>"@),
        s.action is Drop ==> ends_with(rule_xml(s), "<drop/></rule>"@),
        s.action == RichRuleAction::Reject(None) ==> ends_with(rule_xml(s), "<reject/></rule>"@),
        s.action matches RichRuleAction::Reject(Some(k)) ==> ends_with(
            rule_xml(s),
            "<reject type=\""@ + escape(k@) + "\"/></rule>"@,
        ),
        s.action matches RichRuleAction::Mark(m) ==> ends_with(
            rule_xml(s),
            "<mark set=\""@ + escape(m@) + "\"/></rule>"@,
        ),
{
    let head = "<rule"@ + family_xml(s.family) + ">"@ + address_xml("source"@, s.source)
        + address_xml("destination"@, s.destination) + element_xml(s.element);
    let tail = action_xml(s.action) + "</rule>"@;
    assert(rule_xml(s) =~= head + tail);
    lemma_ends_with_append(head, tail);
    reveal_strlit("<accept/>");
    reveal_strlit("<drop/>");
    reveal_strlit("<reject/>");
    reveal_strlit("</rule>");
    reveal_strlit("<accept/></rule>");
    reveal_strlit("<drop/></rule>");
    reveal_strlit("<reject/></rule>");
    reveal_strlit("\"/>");
    reveal_strlit("\"/></rule>");
    match s.action {
        RichRuleAction::Accept => assert(tail =~= "<accept/></rule>"@),
        RichRuleAction::Drop => assert(tail =~= "<drop/></rule>"@),
        RichRuleAction::Reject(None) => assert(tail =~= "<reject/></rule>"@),
        RichRuleAction::Reject(Some(k)) => assert(tail =~= "<reject type=\""@ + escape(k@) + "\"/></rule>"@),
        RichRuleAction::Mark(m) => assert(tail =~= "<mark set=\""@ + escape(m@) + "\"/></rule>"@),
    }
}

impl RichRuleSpec {
    /// Validates the spec and returns firewalld rich-rule XML.
    pub fn to_xml(&self) -> (r: Result<String, RichRuleError>)
        ensures
            match r {
                Ok(xml) => rule_check(*self) is Ok && xml@ == rule_xml(*self),
                Err(e) => rule_check(*self) == Err::<(), RichRuleError>(e),
            },
    {
        match rule_checked(self) {
            Err(e) => return Err(e),
            Ok(()) => {},
        }
        let mut rule = String::new();
        push_str(&mut rule, "<rule");
        match self.family {
            Some(RichRuleFamily::Ipv4) => push_str(&mut rule, " family=\"ipv4\""),
            Some(RichRuleFamily::Ipv6) => push_str(&mut rule, " family=\"ipv6\""),
            None => {},
        }
        push_str(&mut rule, ">");
        assert(rule@ =~= "<rule"@ + family_xml(self.family) + ">"@);
        push_optional_address(&mut rule, "source", &self.source);
        push_optional_address(&mut rule, "destination", &self.destination);
        push_element(&mut rule, &self.element);
        push_action(&mut rule, &self.action);
        push_str(&mut rule, "</rule>");
        assert(rule@ =~= rule_xml(*self));
        Ok(rule)
    }
}

} // verus!
