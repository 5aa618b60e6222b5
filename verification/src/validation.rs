//! Client-side validation of the values that firewalld forms accept.
use vstd::prelude::*;

use crate::net::{is_ip_address, is_ip_address_chars, is_ipv4, is_ipv4_chars, is_ipv6};
use crate::text::{
    all_digits, all_in_class, chars_equal, chars_in_class, chars_of, decimal_value, is_whitespace,
    lemma_split_nonempty, lemma_split_pair, lemma_split_plain, parse_unsigned, trim_end, trim_start,
    parse_unsigned_chars, split, split_chars, trim, trim_chars, utf8_len, utf8_len_exceeds,
    CharClass,
};

verus! {

/// A client-side validation failure that can be localized by the UI.
#[derive(Clone, Copy, Debug, PartialEq, Eq, Structural)]
pub enum ValidationError {
    /// A required value is empty.
    Required,
    /// A port is not an integer in `1..=65535`.
    InvalidPort,
    /// A port range has its start after its end.
    ReversedPortRange,
    /// A protocol is not supported by firewalld's port rules.
    InvalidProtocol,
    /// A value is not an IPv4 or IPv6 address.
    InvalidIpAddress,
    /// An interface name is longer than Linux permits.
    InterfaceNameTooLong,
    /// An interface name contains unsupported characters.
    InvalidInterfaceName,
    /// A source is not an IP address or network.
    InvalidSource,
    /// A CIDR prefix is outside the address family's valid range.
    InvalidCidrPrefix,
    /// An IP-set name is longer than firewalld permits.
    IpSetNameTooLong,
    /// An IP-set name contains unsupported characters.
    InvalidIpSetName,
    /// An IP-set name starts with a dash.
    IpSetNameStartsWithDash,
    /// The requested IP-set type is unsupported.
    InvalidIpSetType,
    /// An IP-set entry has the wrong number or kind of components.
    InvalidIpSetEntry,
    /// A MAC-address component is invalid.
    InvalidMacAddress,
}

/// The outcome of a validation.
pub type Validation = Result<(), ValidationError>;

/// Runs `second` only when `first` succeeded, as `?` does.
pub open spec fn then_check(first: Validation, second: Validation) -> Validation {
    match first {
        Ok(()) => second,
        Err(e) => Err(e),
    }
}

/// Replaces any error by `e`.
pub open spec fn map_error(r: Validation, e: ValidationError) -> Validation {
    match r {
        Ok(()) => Ok(()),
        Err(_) => Err(e),
    }
}

/// The result of [`validate_ipset_name`] on the characters `v`.
pub open spec fn ipset_name_result(v: Seq<char>) -> Validation {
    let t = trim(v);
    if t.len() == 0 {
        Err(ValidationError::Required)
    } else if utf8_len(t) > 31 {
        Err(ValidationError::IpSetNameTooLong)
    } else if t[0] == '-' {
        Err(ValidationError::IpSetNameStartsWithDash)
    } else if !all_in_class(CharClass::IpSetName, t) {
        Err(ValidationError::InvalidIpSetName)
    } else {
        Ok(())
    }
}

/// Validates a firewalld IP-set name.
pub fn validate_ipset_name(value: &str) -> (r: Validation)
    ensures
        r == ipset_name_result(value@),
{
    ipset_name_chars(chars_of(value).as_slice())
}

fn ipset_name_chars(v: &[char]) -> (r: Validation)
    ensures
        r == ipset_name_result(v@),
{
    let t = trim_chars(v);
    if t.len() == 0 {
        return Err(ValidationError::Required);
    }
    if utf8_len_exceeds(t.as_slice(), 31) {
        return Err(ValidationError::IpSetNameTooLong);
    }
    if t[0] == '-' {
        return Err(ValidationError::IpSetNameStartsWithDash);
    }
    if !chars_in_class(CharClass::IpSetName, t.as_slice()) {
        return Err(ValidationError::InvalidIpSetName);
    }
    Ok(())
}


/// Whether two characters sequences are equal, one given as a string slice.
pub fn chars_eq_str(a: &[char], b: &str) -> (r: bool)
    ensures
        r == (a@ == b@),
{
    let bv = chars_of(b);
    chars_equal(a, bv.as_slice())
}

/// The result of [`validate_interface_name`] on the characters `v`.
pub open spec fn interface_name_result(v: Seq<char>) -> Validation {
    let t = trim(v);
    if t.len() == 0 {
        Err(ValidationError::Required)
    } else if utf8_len(t) > 15 {
        Err(ValidationError::InterfaceNameTooLong)
    } else if !all_in_class(CharClass::Interface, t) {
        Err(ValidationError::InvalidInterfaceName)
    } else {
        Ok(())
    }
}

/// Validates a Linux network-interface name.
pub fn validate_interface_name(interface: &str) -> (r: Validation)
    ensures
        r == interface_name_result(interface@),
{
    interface_name_chars(chars_of(interface).as_slice())
}

pub(crate) fn interface_name_chars(v: &[char]) -> (r: Validation)
    ensures
        r == interface_name_result(v@),
{
    let t = trim_chars(v);
    if t.len() == 0 {
        return Err(ValidationError::Required);
    }
    if utf8_len_exceeds(t.as_slice(), 15) {
        return Err(ValidationError::InterfaceNameTooLong);
    }
    if !chars_in_class(CharClass::Interface, t.as_slice()) {
        return Err(ValidationError::InvalidInterfaceName);
    }
    Ok(())
}

/// A port number in `1..=65535`, read as `u16`'s `FromStr` reads it.
pub open spec fn port_value(p: Seq<char>) -> Option<nat> {
    match parse_unsigned(p, 65535) {
        Some(n) => if n == 0 { None } else { Some(n) },
        None => None,
    }
}

/// The result of [`validate_port_spec`] on the characters `v`: one port, or an inclusive
/// `start-end` range.
pub open spec fn port_spec_result(v: Seq<char>) -> Validation {
    let t = trim(v);
    let parts = split(t, '-');
    if t.len() == 0 {
        Err(ValidationError::Required)
    } else {
        match port_value(parts[0]) {
            None => Err(ValidationError::InvalidPort),
            Some(start) => if parts.len() == 1 {
                Ok(())
            } else if parts.len() > 2 {
                Err(ValidationError::InvalidPort)
            } else {
                match port_value(parts[1]) {
                    None => Err(ValidationError::InvalidPort),
                    Some(end) => if start > end {
                        Err(ValidationError::ReversedPortRange)
                    } else {
                        Ok(())
                    },
                }
            },
        }
    }
}

fn parse_port(p: &[char]) -> (r: Option<u32>)
    ensures
        match r {
            Some(n) => port_value(p@) == Some(n as nat),
            None => port_value(p@) is None,
        },
{
    match parse_unsigned_chars(p, 65535) {
        Some(n) => if n == 0 { None } else { Some(n) },
        None => None,
    }
}

/// Validates a single port or inclusive `start-end` range.
pub fn validate_port_spec(value: &str) -> (r: Validation)
    ensures
        r == port_spec_result(value@),
{
    port_spec_chars(chars_of(value).as_slice())
}

pub(crate) fn port_spec_chars(v: &[char]) -> (r: Validation)
    ensures
        r == port_spec_result(v@),
{
    let t = trim_chars(v);
    if t.len() == 0 {
        return Err(ValidationError::Required);
    }
    let parts = split_chars(t.as_slice(), '-');
    proof { lemma_split_nonempty(t@, '-'); }
    assert(parts@[0]@ == split(t@, '-')[0]);
    let start = match parse_port(parts[0].as_slice()) {
        Some(n) => n,
        None => return Err(ValidationError::InvalidPort),
    };
    if parts.len() == 1 {
        return Ok(());
    }
    if parts.len() > 2 {
        return Err(ValidationError::InvalidPort);
    }
    assert(parts@[1]@ == split(t@, '-')[1]);
    let end = match parse_port(parts[1].as_slice()) {
        Some(n) => n,
        None => return Err(ValidationError::InvalidPort),
    };
    if start > end {
        return Err(ValidationError::ReversedPortRange);
    }
    Ok(())
}

/// Text that neither starts nor ends with whitespace is its own trim.
proof fn lemma_trim_unchanged(t: Seq<char>)
    requires
        t.len() > 0,
        !is_whitespace(t[0]),
        !is_whitespace(t.last()),
    ensures
        trim(t) == t,
{
    assert(trim_start(t) == t);
}

/// A digit string that has no sign and is a port in `1..=65535`.
proof fn lemma_port_digits(a: Seq<char>)
    requires
        a.len() > 0,
        all_digits(a),
        1 <= decimal_value(a) <= 65535,
    ensures
        port_value(a) == Some(decimal_value(a)),
        !a.contains('-'),
        !is_whitespace(a[0]),
        !is_whitespace(a.last()),
{
    assert(crate::text::is_digit(a[0]));
    assert(crate::text::is_digit(a[a.len() - 1]));
    assert forall|i: int| 0 <= i < a.len() implies a[i] != '-' by {
        assert(crate::text::is_digit(a[i]));
    }
}

/// A range of two ports is refused as reversed exactly when the first
/// port's number exceeds the second's, and is accepted otherwise; the
/// ports are compared by value, not as text.
pub proof fn lemma_port_range_compares_numbers(a: Seq<char>, b: Seq<char>)
    requires
        a.len() > 0,
        b.len() > 0,
        all_digits(a),
        all_digits(b),
        1 <= decimal_value(a) <= 65535,
        1 <= decimal_value(b) <= 65535,
    ensures
        port_spec_result(a.push('-') + b) == if decimal_value(a) > decimal_value(b) {
            Err::<(), ValidationError>(ValidationError::ReversedPortRange)
        } else {
            Ok(())
        },
{
    lemma_port_digits(a);
    lemma_port_digits(b);
    let t = a.push('-') + b;
    assert(t[0] == a[0]);
    assert(t.last() == b.last());
    lemma_trim_unchanged(t);
    lemma_split_pair(a, b, '-');
}

/// The protocols that firewalld port rules accept.
pub open spec fn is_port_protocol(v: Seq<char>) -> bool {
    v == "tcp"@ || v == "udp"@ || v == "sctp"@ || v == "dccp"@
}

/// Validates a protocol supported by firewalld port rules.
pub fn validate_port_protocol(value: &str) -> (r: Validation)
    ensures
        r == (if is_port_protocol(value@) {
            Ok(())
        } else {
            Err(ValidationError::InvalidProtocol)
        }),
{
    let v = chars_of(value);
    port_protocol_chars(v.as_slice())
}

pub(crate) fn port_protocol_chars(v: &[char]) -> (r: Validation)
    ensures
        r == (if is_port_protocol(v@) {
            Ok(())
        } else {
            Err(ValidationError::InvalidProtocol)
        }),
{
    if chars_eq_str(v, "tcp") || chars_eq_str(v, "udp") || chars_eq_str(v, "sctp")
        || chars_eq_str(v, "dccp") {
        Ok(())
    } else {
        Err(ValidationError::InvalidProtocol)
    }
}

/// The result of [`validate_source`] on the characters `v`: an IP address, or an address
/// with a `/prefix` no longer than the family's address.
pub open spec fn source_result(v: Seq<char>) -> Validation {
    let t = trim(v);
    let parts = split(t, '/');
    if t.len() == 0 {
        Err(ValidationError::Required)
    } else if parts.len() == 1 {
        if is_ip_address(t) {
            Ok(())
        } else {
            Err(ValidationError::InvalidSource)
        }
    } else if parts.len() > 2 || !is_ip_address(parts[0]) {
        Err(ValidationError::InvalidSource)
    } else {
        match parse_unsigned(parts[1], 255) {
            None => Err(ValidationError::InvalidCidrPrefix),
            Some(prefix) => if prefix > (if is_ipv4(parts[0]) { 32nat } else { 128nat }) {
                Err(ValidationError::InvalidCidrPrefix)
            } else {
                Ok(())
            },
        }
    }
}

/// Validates an IPv4/IPv6 source address or CIDR network.
pub fn validate_source(value: &str) -> (r: Validation)
    ensures
        r == source_result(value@),
{
    source_chars(chars_of(value).as_slice())
}

pub(crate) fn source_chars(v: &[char]) -> (r: Validation)
    ensures
        r == source_result(v@),
{
    let t = trim_chars(v);
    if t.len() == 0 {
        return Err(ValidationError::Required);
    }
    let parts = split_chars(t.as_slice(), '/');
    proof { lemma_split_nonempty(t@, '/'); }
    if parts.len() == 1 {
        return if is_ip_address_chars(t.as_slice()) {
            Ok(())
        } else {
            Err(ValidationError::InvalidSource)
        };
    }
    if parts.len() > 2 {
        return Err(ValidationError::InvalidSource);
    }
    assert(parts@[0]@ == split(t@, '/')[0]);
    assert(parts@[1]@ == split(t@, '/')[1]);
    if !is_ip_address_chars(parts[0].as_slice()) {
        return Err(ValidationError::InvalidSource);
    }
    let maximum: u32 = if is_ipv4_chars(parts[0].as_slice()) { 32 } else { 128 };
    match parse_unsigned_chars(parts[1].as_slice(), 255) {
        None => Err(ValidationError::InvalidCidrPrefix),
        Some(prefix) => if prefix > maximum {
            Err(ValidationError::InvalidCidrPrefix)
        } else {
            Ok(())
        },
    }
}

/// The result of [`validate_forward_address`] on the characters `v`.
pub open spec fn forward_address_result(v: Seq<char>) -> Validation {
    let t = trim(v);
    if t.len() == 0 || is_ip_address(t) {
        Ok(())
    } else {
        Err(ValidationError::InvalidIpAddress)
    }
}

/// Validates an optional forwarding address.
///
/// An empty address is deliberately accepted: firewalld uses it for a local
/// destination while still forwarding to the requested destination port.
pub fn validate_forward_address(value: &str) -> (r: Validation)
    ensures
        r == forward_address_result(value@),
{
    forward_address_chars(chars_of(value).as_slice())
}

pub(crate) fn forward_address_chars(v: &[char]) -> (r: Validation)
    ensures
        r == forward_address_result(v@),
{
    let t = trim_chars(v);
    if t.len() == 0 || is_ip_address_chars(t.as_slice()) {
        Ok(())
    } else {
        Err(ValidationError::InvalidIpAddress)
    }
}


/// The IP-set types that the creation and entry editors support, in display order.
pub open spec fn ipset_types() -> Seq<Seq<char>> {
    seq![
        "hash:ip"@,
        "hash:net"@,
        "hash:ip,port"@,
        "hash:net,port"@,
        "hash:ip,port,ip"@,
        "hash:ip,port,net"@,
        "hash:net,port,net"@,
        "hash:net,iface"@,
        "hash:mac"@,
        "bitmap:ip"@,
        "bitmap:ip,mac"@,
        "bitmap:port"@,
        "list:set"@,
    ]
}

/// The number of supported IP-set types.
pub const IPSET_TYPE_COUNT: usize = 13;

/// The supported IP-set type at `index` in display order.
pub fn ipset_type_at(index: usize) -> (r: &'static str)
    requires
        index < IPSET_TYPE_COUNT,
    ensures
        r@ == ipset_types()[index as int],
{
    match index {
        0 => "hash:ip",
        1 => "hash:net",
        2 => "hash:ip,port",
        3 => "hash:net,port",
        4 => "hash:ip,port,ip",
        5 => "hash:ip,port,net",
        6 => "hash:net,port,net",
        7 => "hash:net,iface",
        8 => "hash:mac",
        9 => "bitmap:ip",
        10 => "bitmap:ip,mac",
        11 => "bitmap:port",
        _ => "list:set",
    }
}

/// The display position of a supported IP-set type.
pub fn ipset_type_position(v: &[char]) -> (r: Option<usize>)
    ensures
        match r {
            Some(i) => i < IPSET_TYPE_COUNT && ipset_types()[i as int] == v@ && forall|j: int|
                0 <= j < i ==> ipset_types()[j] != v@,
            None => !ipset_types().contains(v@),
        },
{
    let mut i: usize = 0;
    while i < IPSET_TYPE_COUNT
        invariant
            i <= IPSET_TYPE_COUNT,
            ipset_types().len() == IPSET_TYPE_COUNT,
            forall|j: int| 0 <= j < i ==> ipset_types()[j] != v@,
        decreases IPSET_TYPE_COUNT - i,
    {
        if chars_eq_str(v, ipset_type_at(i)) {
            return Some(i);
        }
        i = i + 1;
    }
    None
}

/// The result of [`validate_ipset_type`]: the type must be one of [`ipset_types`] exactly.
pub open spec fn ipset_type_result(v: Seq<char>) -> Validation {
    if ipset_types().contains(v) {
        Ok(())
    } else {
        Err(ValidationError::InvalidIpSetType)
    }
}

/// Validates that an IP-set type is supported by the editor.
pub fn validate_ipset_type(value: &str) -> (r: Validation)
    ensures
        r == ipset_type_result(value@),
{
    ipset_type_chars(chars_of(value).as_slice())
}

fn ipset_type_chars(v: &[char]) -> (r: Validation)
    ensures
        r == ipset_type_result(v@),
{
    match ipset_type_position(v) {
        Some(_) => Ok(()),
        None => Err(ValidationError::InvalidIpSetType),
    }
}

/// Six colon-separated components of exactly two hexadecimal digits each.
pub open spec fn is_mac_address(v: Seq<char>) -> bool {
    let parts = split(v, ':');
    &&& parts.len() == 6
    &&& forall|i: int|
        0 <= i < 6 ==> (#[trigger] parts[i]).len() == 2 && all_in_class(CharClass::HexDigit, parts[i])
}

fn validate_mac(v: &[char]) -> (r: Validation)
    ensures
        r == (if is_mac_address(v@) {
            Ok(())
        } else {
            Err(ValidationError::InvalidMacAddress)
        }),
{
    let parts = split_chars(v, ':');
    if parts.len() != 6 {
        return Err(ValidationError::InvalidMacAddress);
    }
    let mut i: usize = 0;
    while i < 6
        invariant
            i <= 6,
            parts@.len() == 6,
            parts@.len() == split(v@, ':').len(),
            forall|k: int| 0 <= k < parts@.len() ==> #[trigger] parts@[k]@ == split(v@, ':')[k],
            forall|k: int|
                0 <= k < i ==> (#[trigger] split(v@, ':')[k]).len() == 2 && all_in_class(
                    CharClass::HexDigit,
                    split(v@, ':')[k],
                ),
        decreases 6 - i,
    {
        assert(parts@[i as int]@ == split(v@, ':')[i as int]);
        if parts[i].len() != 2 || !chars_in_class(CharClass::HexDigit, parts[i].as_slice()) {
            return Err(ValidationError::InvalidMacAddress);
        }
        i = i + 1;
    }
    Ok(())
}

/// The trimmed comma-separated components of an IP-set entry.
pub open spec fn entry_parts(t: Seq<char>) -> Seq<Seq<char>> {
    split(t, ',').map_values(|p: Seq<char>| trim(p))
}

/// An address component of an entry.
pub open spec fn entry_ip(v: Seq<char>) -> Validation {
    if is_ip_address(v) {
        Ok(())
    } else {
        Err(ValidationError::InvalidIpSetEntry)
    }
}

/// A network component of an entry.
pub open spec fn entry_net(v: Seq<char>) -> Validation {
    map_error(source_result(v), ValidationError::InvalidIpSetEntry)
}

/// A port component of an entry.
pub open spec fn entry_port(v: Seq<char>) -> Validation {
    map_error(port_spec_result(v), ValidationError::InvalidIpSetEntry)
}

/// An interface component of an entry.
pub open spec fn entry_iface(v: Seq<char>) -> Validation {
    map_error(interface_name_result(v), ValidationError::InvalidIpSetEntry)
}

/// A MAC-address component of an entry.
pub open spec fn entry_mac(v: Seq<char>) -> Validation {
    if is_mac_address(v) {
        Ok(())
    } else {
        Err(ValidationError::InvalidMacAddress)
    }
}

/// The components that each IP-set type expects, checked in order.
pub open spec fn entry_shape_result(kind: Seq<char>, p: Seq<Seq<char>>) -> Validation {
    if kind == "hash:ip"@ || kind == "bitmap:ip"@ {
        if p.len() == 1 { entry_ip(p[0]) } else { Err(ValidationError::InvalidIpSetEntry) }
    } else if kind == "hash:net"@ {
        if p.len() == 1 { entry_net(p[0]) } else { Err(ValidationError::InvalidIpSetEntry) }
    } else if kind == "hash:ip,port"@ {
        if p.len() == 2 {
            then_check(entry_ip(p[0]), entry_port(p[1]))
        } else {
            Err(ValidationError::InvalidIpSetEntry)
        }
    } else if kind == "hash:net,port"@ {
        if p.len() == 2 {
            then_check(entry_net(p[0]), entry_port(p[1]))
        } else {
            Err(ValidationError::InvalidIpSetEntry)
        }
    } else if kind == "hash:ip,port,ip"@ {
        if p.len() == 3 {
            then_check(entry_ip(p[0]), then_check(entry_port(p[1]), entry_ip(p[2])))
        } else {
            Err(ValidationError::InvalidIpSetEntry)
        }
    } else if kind == "hash:ip,port,net"@ {
        if p.len() == 3 {
            then_check(entry_ip(p[0]), then_check(entry_port(p[1]), entry_net(p[2])))
        } else {
            Err(ValidationError::InvalidIpSetEntry)
        }
    } else if kind == "hash:net,port,net"@ {
        if p.len() == 3 {
            then_check(entry_net(p[0]), then_check(entry_port(p[1]), entry_net(p[2])))
        } else {
            Err(ValidationError::InvalidIpSetEntry)
        }
    } else if kind == "hash:net,iface"@ {
        if p.len() == 2 {
            then_check(entry_net(p[0]), entry_iface(p[1]))
        } else {
            Err(ValidationError::InvalidIpSetEntry)
        }
    } else if kind == "hash:mac"@ {
        if p.len() == 1 { entry_mac(p[0]) } else { Err(ValidationError::InvalidIpSetEntry) }
    } else if kind == "bitmap:ip,mac"@ {
        if p.len() == 2 {
            then_check(entry_ip(p[0]), entry_mac(p[1]))
        } else {
            Err(ValidationError::InvalidIpSetEntry)
        }
    } else if kind == "bitmap:port"@ {
        if p.len() == 1 { entry_port(p[0]) } else { Err(ValidationError::InvalidIpSetEntry) }
    } else if kind == "list:set"@ {
        if p.len() == 1 { ipset_name_result(p[0]) } else { Err(ValidationError::InvalidIpSetEntry) }
    } else {
        Err(ValidationError::InvalidIpSetEntry)
    }
}

/// The result of [`validate_ipset_entry`]: the type is checked first, then the trimmed entry
/// must be non-empty and have the components that the type expects.
pub open spec fn ipset_entry_result(entry: Seq<char>, kind: Seq<char>) -> Validation {
    let t = trim(entry);
    match ipset_type_result(kind) {
        Err(e) => Err(e),
        Ok(()) => if t.len() == 0 {
            Err(ValidationError::Required)
        } else {
            entry_shape_result(kind, entry_parts(t))
        },
    }
}

/// An address entry of an IP set is accepted exactly when it is an IPv4 or
/// an IPv6 address, the same addresses that a source without a prefix
/// length accepts.
pub proof fn lemma_ip_entry_accepts_addresses(v: Seq<char>)
    requires
        v.len() > 0,
        trim(v) == v,
        !v.contains(','),
        !v.contains('/'),
    ensures
        (ipset_entry_result(v, "hash:ip"@) is Ok) <==> (is_ipv4(v) || is_ipv6(v)),
        (ipset_entry_result(v, "hash:ip"@) is Ok) <==> (source_result(v) is Ok),
{
    reveal_strlit("hash:ip");
    assert(ipset_types()[0] == "hash:ip"@);
    lemma_split_plain(v, ',');
    lemma_split_plain(v, '/');
    assert(entry_parts(v) =~= seq![v]);
}

fn entry_ip_chars(v: &[char]) -> (r: Validation)
    ensures
        r == entry_ip(v@),
{
    if is_ip_address_chars(v) {
        Ok(())
    } else {
        Err(ValidationError::InvalidIpSetEntry)
    }
}

fn entry_net_chars(v: &[char]) -> (r: Validation)
    ensures
        r == entry_net(v@),
{
    match source_chars(v) {
        Ok(()) => Ok(()),
        Err(_) => Err(ValidationError::InvalidIpSetEntry),
    }
}

fn entry_port_chars(v: &[char]) -> (r: Validation)
    ensures
        r == entry_port(v@),
{
    match port_spec_chars(v) {
        Ok(()) => Ok(()),
        Err(_) => Err(ValidationError::InvalidIpSetEntry),
    }
}

fn entry_iface_chars(v: &[char]) -> (r: Validation)
    ensures
        r == entry_iface(v@),
{
    match interface_name_chars(v) {
        Ok(()) => Ok(()),
        Err(_) => Err(ValidationError::InvalidIpSetEntry),
    }
}

fn entry_parts_chars(t: &[char]) -> (r: Vec<Vec<char>>)
    ensures
        r@.len() == entry_parts(t@).len(),
        forall|k: int| 0 <= k < r@.len() ==> #[trigger] r@[k]@ == entry_parts(t@)[k],
{
    let pieces = split_chars(t, ',');
    let mut r: Vec<Vec<char>> = Vec::new();
    let mut i: usize = 0;
    while i < pieces.len()
        invariant
            i <= pieces@.len(),
            pieces@.len() == split(t@, ',').len(),
            forall|k: int| 0 <= k < pieces@.len() ==> #[trigger] pieces@[k]@ == split(t@, ',')[k],
            r@.len() == i,
            forall|k: int| 0 <= k < i ==> #[trigger] r@[k]@ == trim(split(t@, ',')[k]),
        decreases pieces@.len() - i,
    {
        assert(pieces@[i as int]@ == split(t@, ',')[i as int]);
        r.push(trim_chars(pieces[i].as_slice()));
        i = i + 1;
    }
    r
}

fn entry_shape_chars(kind: &[char], p: &Vec<Vec<char>>, Ghost(q): Ghost<Seq<Seq<char>>>) -> (r: Validation)
    requires
        p@.len() == q.len(),
        forall|k: int| 0 <= k < p@.len() ==> #[trigger] p@[k]@ == q[k],
    ensures
        r == entry_shape_result(kind@, q),
{
    let n = p.len();
    if n >= 1 {
        assert(p@[0]@ == q[0]);
    }
    if n >= 2 {
        assert(p@[1]@ == q[1]);
    }
    if n >= 3 {
        assert(p@[2]@ == q[2]);
    }
    if chars_eq_str(kind, "hash:ip") || chars_eq_str(kind, "bitmap:ip") {
        if n == 1 { entry_ip_chars(p[0].as_slice()) } else { Err(ValidationError::InvalidIpSetEntry) }
    } else if chars_eq_str(kind, "hash:net") {
        if n == 1 { entry_net_chars(p[0].as_slice()) } else { Err(ValidationError::InvalidIpSetEntry) }
    } else if chars_eq_str(kind, "hash:ip,port") {
        if n == 2 {
            match entry_ip_chars(p[0].as_slice()) {
                Err(e) => Err(e),
                Ok(()) => entry_port_chars(p[1].as_slice()),
            }
        } else {
            Err(ValidationError::InvalidIpSetEntry)
        }
    } else if chars_eq_str(kind, "hash:net,port") {
        if n == 2 {
            match entry_net_chars(p[0].as_slice()) {
                Err(e) => Err(e),
                Ok(()) => entry_port_chars(p[1].as_slice()),
            }
        } else {
            Err(ValidationError::InvalidIpSetEntry)
        }
    } else if chars_eq_str(kind, "hash:ip,port,ip") {
        if n == 3 {
            match entry_ip_chars(p[0].as_slice()) {
                Err(e) => Err(e),
                Ok(()) => match entry_port_chars(p[1].as_slice()) {
                    Err(e) => Err(e),
                    Ok(()) => entry_ip_chars(p[2].as_slice()),
                },
            }
        } else {
            Err(ValidationError::InvalidIpSetEntry)
        }
    } else if chars_eq_str(kind, "hash:ip,port,net") {
        if n == 3 {
            match entry_ip_chars(p[0].as_slice()) {
                Err(e) => Err(e),
                Ok(()) => match entry_port_chars(p[1].as_slice()) {
                    Err(e) => Err(e),
                    Ok(()) => entry_net_chars(p[2].as_slice()),
                },
            }
        } else {
            Err(ValidationError::InvalidIpSetEntry)
        }
    } else if chars_eq_str(kind, "hash:net,port,net") {
        if n == 3 {
            match entry_net_chars(p[0].as_slice()) {
                Err(e) => Err(e),
                Ok(()) => match entry_port_chars(p[1].as_slice()) {
                    Err(e) => Err(e),
                    Ok(()) => entry_net_chars(p[2].as_slice()),
                },
            }
        } else {
            Err(ValidationError::InvalidIpSetEntry)
        }
    } else if chars_eq_str(kind, "hash:net,iface") {
        if n == 2 {
            match entry_net_chars(p[0].as_slice()) {
                Err(e) => Err(e),
                Ok(()) => entry_iface_chars(p[1].as_slice()),
            }
        } else {
            Err(ValidationError::InvalidIpSetEntry)
        }
    } else if chars_eq_str(kind, "hash:mac") {
        if n == 1 { validate_mac(p[0].as_slice()) } else { Err(ValidationError::InvalidIpSetEntry) }
    } else if chars_eq_str(kind, "bitmap:ip,mac") {
        if n == 2 {
            match entry_ip_chars(p[0].as_slice()) {
                Err(e) => Err(e),
                Ok(()) => validate_mac(p[1].as_slice()),
            }
        } else {
            Err(ValidationError::InvalidIpSetEntry)
        }
    } else if chars_eq_str(kind, "bitmap:port") {
        if n == 1 { entry_port_chars(p[0].as_slice()) } else { Err(ValidationError::InvalidIpSetEntry) }
    } else if chars_eq_str(kind, "list:set") {
        if n == 1 { ipset_name_chars(p[0].as_slice()) } else { Err(ValidationError::InvalidIpSetEntry) }
    } else {
        Err(ValidationError::InvalidIpSetEntry)
    }
}

/// Validates an entry according to its selected IP-set type.
pub fn validate_ipset_entry(entry: &str, ipset_type: &str) -> (r: Validation)
    ensures
        r == ipset_entry_result(entry@, ipset_type@),
{
    let e = chars_of(entry);
    let k = chars_of(ipset_type);
    ipset_entry_chars(e.as_slice(), k.as_slice())
}

pub(crate) fn ipset_entry_chars(entry: &[char], kind: &[char]) -> (r: Validation)
    ensures
        r == ipset_entry_result(entry@, kind@),
{
    match ipset_type_chars(kind) {
        Err(e) => return Err(e),
        Ok(()) => {},
    }
    let t = trim_chars(entry);
    if t.len() == 0 {
        return Err(ValidationError::Required);
    }
    let parts = entry_parts_chars(t.as_slice());
    entry_shape_chars(kind, &parts, Ghost(entry_parts(t@)))
}

} // verus!
