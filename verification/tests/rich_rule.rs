use cosmic_gfwd::rich_rule::{
    RichRuleAction, RichRuleElement, RichRuleError, RichRuleFamily, RichRuleSpec,
};

#[test]
fn generates_service_rule_with_addresses() {
    let spec = RichRuleSpec {
        family: Some(RichRuleFamily::Ipv4),
        source: Some(("192.0.2.0/24".to_string(), true)),
        destination: Some(("198.51.100.2".to_string(), false)),
        element: RichRuleElement::Service("https".to_string()),
        action: RichRuleAction::Accept,
    };
    assert_eq!(
        spec.to_xml().unwrap(),
        "<rule family=\"ipv4\"><source invert=\"true\" address=\"192.0.2.0/24\"/><destination address=\"198.51.100.2\"/><service name=\"https\"/><accept/></rule>"
    );
}

#[test]
fn generates_port_reject_and_mark_rules() {
    let port = RichRuleSpec {
        family: None,
        source: None,
        destination: None,
        element: RichRuleElement::Port {
            port: "1000-2000".to_string(),
            protocol: "tcp".to_string(),
        },
        action: RichRuleAction::Reject(Some("icmp-port-unreachable".to_string())),
    };
    assert!(
        port.to_xml()
            .unwrap()
            .contains("<reject type=\"icmp-port-unreachable\"/>")
    );

    let mark = RichRuleSpec {
        action: RichRuleAction::Mark("0x1/0xff".to_string()),
        ..port
    };
    assert!(mark.to_xml().unwrap().contains("<mark set=\"0x1/0xff\"/>"));
}

#[test]
fn rejects_invalid_cross_field_values() {
    let missing = RichRuleSpec {
        family: None,
        source: None,
        destination: None,
        element: RichRuleElement::Service(String::new()),
        action: RichRuleAction::Accept,
    };
    assert_eq!(missing.to_xml(), Err(RichRuleError::MissingElement));

    let invalid_mark = RichRuleSpec {
        element: RichRuleElement::Protocol("icmp".to_string()),
        action: RichRuleAction::Mark("xyz".to_string()),
        ..missing
    };
    assert_eq!(invalid_mark.to_xml(), Err(RichRuleError::InvalidMark));
}

fn rule(element: RichRuleElement, action: RichRuleAction) -> RichRuleSpec {
    RichRuleSpec {
        family: None,
        source: None,
        destination: None,
        element,
        action,
    }
}

#[test]
fn each_error_has_an_input_that_produces_it() {
    let bad_source = RichRuleSpec {
        source: Some(("not an address".into(), false)),
        ..rule(RichRuleElement::Service("ssh".into()), RichRuleAction::Accept)
    };
    assert_eq!(bad_source.to_xml(), Err(RichRuleError::InvalidAddress));
    assert_eq!(
        rule(
            RichRuleElement::Port { port: "70000".into(), protocol: "tcp".into() },
            RichRuleAction::Drop
        )
        .to_xml(),
        Err(RichRuleError::InvalidPort)
    );
    assert_eq!(
        rule(
            RichRuleElement::Port { port: " ".into(), protocol: "tcp".into() },
            RichRuleAction::Drop
        )
        .to_xml(),
        Err(RichRuleError::MissingElement)
    );
    assert_eq!(
        rule(
            RichRuleElement::Port { port: "22".into(), protocol: "icmp".into() },
            RichRuleAction::Drop
        )
        .to_xml(),
        Err(RichRuleError::InvalidPortProtocol)
    );
    assert_eq!(
        rule(RichRuleElement::Protocol("g re".into()), RichRuleAction::Drop).to_xml(),
        Err(RichRuleError::InvalidProtocol)
    );
    assert_eq!(
        rule(RichRuleElement::Service("ss h".into()), RichRuleAction::Drop).to_xml(),
        Err(RichRuleError::InvalidIdentifier)
    );
    assert_eq!(
        rule(
            RichRuleElement::Service("ssh".into()),
            RichRuleAction::Reject(Some("bad type".into()))
        )
        .to_xml(),
        Err(RichRuleError::InvalidIdentifier)
    );
}

#[test]
fn attribute_values_are_escaped_and_marks_are_checked() {
    // A raw identifier cannot carry markup, but the escaping applies to every attribute.
    let xml = rule(RichRuleElement::Protocol("gre".into()), RichRuleAction::Reject(None))
        .to_xml()
        .unwrap();
    assert_eq!(xml, "<rule><protocol value=\"gre\"/><reject/></rule>");
    let v6 = RichRuleSpec {
        family: Some(RichRuleFamily::Ipv6),
        destination: Some(("2001:db8::/32".into(), true)),
        ..rule(RichRuleElement::Service("dns".into()), RichRuleAction::Mark(" 7 ".into()))
    };
    assert_eq!(
        v6.to_xml().unwrap(),
        "<rule family=\"ipv6\"><destination invert=\"true\" address=\"2001:db8::/32\"/><service name=\"dns\"/><mark set=\" 7 \"/></rule>"
    );
    for bad in ["0x", "1/2/3", "", "0xg", "1/"] {
        assert_eq!(
            rule(RichRuleElement::Service("dns".into()), RichRuleAction::Mark(bad.into())).to_xml(),
            Err(RichRuleError::InvalidMark),
            "{bad:?}"
        );
    }
    assert!(
        rule(RichRuleElement::Service("dns".into()), RichRuleAction::Reject(Some("  ".into())))
            .to_xml()
            .is_ok()
    );
}
