use cosmic_gfwd::validation::{
    validate_forward_address, validate_interface_name, validate_ipset_entry, validate_ipset_name,
    validate_ipset_type, validate_port_protocol, validate_port_spec, validate_source,
    ValidationError,
};

#[test]
fn accepts_ports_and_inclusive_ranges() {
    for value in ["1", "443", "65535", "1000-2000", "53-53"] {
        assert_eq!(validate_port_spec(value), Ok(()), "{value}");
    }
}

#[test]
fn rejects_invalid_ports_and_reversed_ranges() {
    assert_eq!(validate_port_spec("0"), Err(ValidationError::InvalidPort));
    assert_eq!(
        validate_port_spec("65536"),
        Err(ValidationError::InvalidPort)
    );
    assert_eq!(
        validate_port_spec("2000-1000"),
        Err(ValidationError::ReversedPortRange)
    );
    assert_eq!(
        validate_port_spec("1-2-3"),
        Err(ValidationError::InvalidPort)
    );
}

#[test]
fn limits_port_protocols() {
    for value in ["tcp", "udp", "sctp", "dccp"] {
        assert_eq!(validate_port_protocol(value), Ok(()));
    }
    assert_eq!(
        validate_port_protocol("icmp"),
        Err(ValidationError::InvalidProtocol)
    );
}

#[test]
fn accepts_empty_or_literal_forwarding_addresses() {
    for value in ["", "192.0.2.1", "2001:db8::1"] {
        assert_eq!(validate_forward_address(value), Ok(()), "{value}");
    }
    assert_eq!(
        validate_forward_address("example.test"),
        Err(ValidationError::InvalidIpAddress)
    );
}

#[test]
fn validates_interface_names() {
    for value in ["eth0", "wlan0", "enp0s31f6.100"] {
        assert_eq!(validate_interface_name(value), Ok(()), "{value}");
    }
    assert_eq!(validate_interface_name(""), Err(ValidationError::Required));
    assert_eq!(
        validate_interface_name("interface-name-too-long"),
        Err(ValidationError::InterfaceNameTooLong)
    );
    assert_eq!(
        validate_interface_name("eth 0"),
        Err(ValidationError::InvalidInterfaceName)
    );
}

#[test]
fn accepts_ipv4_ipv6_and_cidr_sources() {
    for value in ["192.0.2.1", "192.0.2.0/24", "2001:db8::1", "2001:db8::/32"] {
        assert_eq!(validate_source(value), Ok(()), "{value}");
    }
}

#[test]
fn rejects_invalid_sources_and_prefixes() {
    assert_eq!(
        validate_source("example.test"),
        Err(ValidationError::InvalidSource)
    );
    assert_eq!(
        validate_source("192.0.2.0/33"),
        Err(ValidationError::InvalidCidrPrefix)
    );
    assert_eq!(
        validate_source("2001:db8::/129"),
        Err(ValidationError::InvalidCidrPrefix)
    );
}

#[test]
fn validates_all_supported_ipset_entry_shapes() {
    let cases = [
        ("hash:ip", "192.0.2.1"),
        ("hash:net", "192.0.2.0/24"),
        ("hash:ip,port", "192.0.2.1,443"),
        ("hash:net,port", "192.0.2.0/24,443"),
        ("hash:ip,port,ip", "192.0.2.1,443,198.51.100.2"),
        ("hash:ip,port,net", "192.0.2.1,443,198.51.100.0/24"),
        ("hash:net,port,net", "192.0.2.0/24,443,198.51.100.0/24"),
        ("hash:net,iface", "192.0.2.0/24,eth0"),
        ("hash:mac", "02:00:5e:10:00:00"),
        ("bitmap:ip", "192.0.2.1"),
        ("bitmap:ip,mac", "192.0.2.1,02:00:5e:10:00:00"),
        ("bitmap:port", "1000-2000"),
        ("list:set", "trusted_networks"),
    ];
    for (kind, entry) in cases {
        assert_eq!(validate_ipset_entry(entry, kind), Ok(()), "{kind}: {entry}");
    }
}

#[test]
fn rejects_wrong_ipset_entry_shapes() {
    assert_eq!(
        validate_ipset_entry("192.0.2.1", "hash:ip,port"),
        Err(ValidationError::InvalidIpSetEntry)
    );
    assert_eq!(
        validate_ipset_entry("not-a-mac", "hash:mac"),
        Err(ValidationError::InvalidMacAddress)
    );
    assert_eq!(
        validate_ipset_entry("65536", "bitmap:port"),
        Err(ValidationError::InvalidIpSetEntry)
    );
}

#[test]
fn ipset_names_follow_firewalld_rules() {
    assert_eq!(validate_ipset_name("  blocked_hosts-1 "), Ok(()));
    assert_eq!(validate_ipset_name("   "), Err(ValidationError::Required));
    assert_eq!(
        validate_ipset_name("-blocked"),
        Err(ValidationError::IpSetNameStartsWithDash)
    );
    assert_eq!(
        validate_ipset_name("blocked hosts"),
        Err(ValidationError::InvalidIpSetName)
    );
    assert_eq!(
        validate_ipset_name(&"a".repeat(32)),
        Err(ValidationError::IpSetNameTooLong)
    );
    assert_eq!(validate_ipset_name(&"a".repeat(31)), Ok(()));
    // The length limit counts UTF-8 bytes: sixteen two-byte characters exceed it.
    assert_eq!(
        validate_ipset_name(&"é".repeat(16)),
        Err(ValidationError::IpSetNameTooLong)
    );
    assert_eq!(
        validate_ipset_name(&"é".repeat(15)),
        Err(ValidationError::InvalidIpSetName)
    );
}

#[test]
fn ipset_types_are_matched_exactly() {
    assert_eq!(validate_ipset_type("hash:net,iface"), Ok(()));
    assert_eq!(
        validate_ipset_type(" hash:ip"),
        Err(ValidationError::InvalidIpSetType)
    );
    assert_eq!(
        validate_ipset_entry("192.0.2.1", "hash:nope"),
        Err(ValidationError::InvalidIpSetType)
    );
    assert_eq!(
        validate_ipset_entry("   ", "hash:ip"),
        Err(ValidationError::Required)
    );
    assert_eq!(
        validate_ipset_entry("bad name", "list:set"),
        Err(ValidationError::InvalidIpSetName)
    );
    assert_eq!(
        validate_ipset_entry(" 192.0.2.1 , 443 ", "hash:ip,port"),
        Ok(())
    );
}

#[test]
fn port_parsing_follows_unsigned_from_str() {
    assert_eq!(validate_port_spec(" +443 "), Ok(()));
    assert_eq!(validate_port_spec("0080"), Ok(()));
    assert_eq!(validate_port_spec("+"), Err(ValidationError::InvalidPort));
    assert_eq!(validate_port_spec("-5"), Err(ValidationError::InvalidPort));
    assert_eq!(validate_port_spec("5-"), Err(ValidationError::InvalidPort));
    assert_eq!(validate_port_spec(""), Err(ValidationError::Required));
    assert_eq!(validate_port_spec("99999999999"), Err(ValidationError::InvalidPort));
}

#[test]
fn cidr_prefix_bounds_follow_the_family() {
    assert_eq!(validate_source("192.0.2.0/32"), Ok(()));
    assert_eq!(validate_source("2001:db8::/128"), Ok(()));
    assert_eq!(validate_source("192.0.2.0/+8"), Ok(()));
    assert_eq!(
        validate_source("192.0.2.0/256"),
        Err(ValidationError::InvalidCidrPrefix)
    );
    assert_eq!(
        validate_source("192.0.2.0/"),
        Err(ValidationError::InvalidCidrPrefix)
    );
    assert_eq!(
        validate_source("192.0.2.0/8/8"),
        Err(ValidationError::InvalidSource)
    );
    assert_eq!(
        validate_source("300.0.2.0/8"),
        Err(ValidationError::InvalidSource)
    );
}

#[test]
fn address_grammar_matches_the_standard_parser() {
    let cases = [
        ("0.0.0.0", true),
        ("255.255.255.255", true),
        ("256.1.1.1", false),
        ("1.2.3", false),
        ("1.2.3.4.5", false),
        ("01.2.3.4", false),
        ("0.2.3.4", true),
        ("1..3.4", false),
        ("+1.2.3.4", false),
        ("1.2.3.0004", false),
        ("::", true),
        ("::1", true),
        ("1::", true),
        (":::", false),
        ("1:::2", false),
        ("1::2::3", false),
        ("1:2:3:4:5:6:7:8", true),
        ("1:2:3:4:5:6:7:8:9", false),
        ("1:2:3:4:5:6:7", false),
        ("1:2:3:4:5:6:7::", true),
        ("::2:3:4:5:6:7:8", true),
        ("1:2:3:4:5:6:7::8", false),
        ("1:2:3:4:5:6:1.2.3.4", true),
        ("1:2:3:4:5:1.2.3.4", false),
        ("::1.2.3.4", true),
        ("::ffff:192.0.2.1", true),
        ("1.2.3.4::", false),
        ("1:2:3:4:5:6::1.2.3.4", false),
        ("1:2:3:4:5::1.2.3.4", true),
        ("12345::", false),
        ("abcd:EF01::", true),
        ("g::", false),
        ("2001:db8::1", true),
        ("2001:DB8:0:0:8:800:200C:417A", true),
        ("fe80::1%eth0", false),
        ("[::1]", false),
        ("::1.2.3", false),
        ("::1.2.3.256", false),
        ("1:2:3:4:5:6:7:1.2.3.4", false),
        (":", false),
        ("1:", false),
        (":1", false),
        ("1.2.3.4:80", false),
    ];
    for (value, expected) in cases {
        let got = validate_source(value).is_ok();
        assert_eq!(got, expected, "{value:?}");
    }
}
