//! Zone, IP-set and ICMP-type records as firewalld reports them.
use vstd::prelude::*;

use crate::sorting::{sort_by_key, stable_sort_of};
use crate::text::chars_of;
use crate::validation::chars_eq_str;

verus! {

/// A configured firewalld ICMP type shown in the picker.
#[derive(Clone, Debug, PartialEq, Eq)]
pub struct IcmpTypeInfo {
    /// Firewalld's stable ICMP type name.
    pub name: String,
    /// Human-readable description from the permanent configuration.
    pub description: String,
}

/// An IP set, its type, its entries and its options.
#[derive(Clone, Debug, Default, PartialEq, Eq)]
pub struct IpSetDetails {
    pub name: String,
    pub ipset_type: String,
    pub entries: Vec<String>,
    /// Option names and values.
    pub options: Vec<(String, String)>,
}

/// The permanent configuration of one zone.
#[derive(Clone, Debug, PartialEq, Eq)]
pub struct ZoneDetails {
    pub name: String,
    pub description: String,
    pub target: ZoneTarget,
    pub masquerade: bool,
    pub icmp_block_inversion: bool,
    pub services: Vec<String>,
    pub ports: Vec<(String, String)>,
    pub forward_ports: Vec<(String, String, String, String)>,
    pub interfaces: Vec<String>,
    pub sources: Vec<String>,
    pub icmp_blocks: Vec<String>,
    pub rich_rules: Vec<String>,
    pub protocols: Vec<String>,
    pub source_ports: Vec<(String, String)>,
}

/// The packet target of a zone.
#[derive(Clone, Debug, PartialEq, Eq)]
pub enum ZoneTarget {
    Default,
    Accept,
    Drop,
    Reject,
    Other(String),
}

/// The mathematical content of a [`ZoneTarget`].
pub enum TargetView {
    Default,
    Accept,
    Drop,
    Reject,
    Other(Seq<char>),
}

impl View for ZoneTarget {
    type V = TargetView;

    open spec fn view(&self) -> TargetView {
        match self {
            ZoneTarget::Default => TargetView::Default,
            ZoneTarget::Accept => TargetView::Accept,
            ZoneTarget::Drop => TargetView::Drop,
            ZoneTarget::Reject => TargetView::Reject,
            ZoneTarget::Other(v) => TargetView::Other(v@),
        }
    }
}

/// The target that a raw firewalld target string names: the empty string, `default` and
/// `DEFAULT` name the default target.
pub open spec fn target_from_text(v: Seq<char>) -> TargetView {
    if v == ""@ || v == "default"@ || v == "DEFAULT"@ {
        TargetView::Default
    } else if v == "ACCEPT"@ {
        TargetView::Accept
    } else if v == "DROP"@ {
        TargetView::Drop
    } else if v == "REJECT"@ {
        TargetView::Reject
    } else {
        TargetView::Other(v)
    }
}

/// The firewalld spelling of a target.
pub open spec fn target_text(t: TargetView) -> Seq<char> {
    match t {
        TargetView::Default => "default"@,
        TargetView::Accept => "ACCEPT"@,
        TargetView::Drop => "DROP"@,
        TargetView::Reject => "REJECT"@,
        TargetView::Other(v) => v,
    }
}

impl ZoneTarget {
    /// Interprets a raw firewalld target string.
    pub fn from_raw(value: String) -> (r: Self)
        ensures
            r@ == target_from_text(value@),
    {
        let v = chars_of(value.as_str());
        if chars_eq_str(v.as_slice(), "") || chars_eq_str(v.as_slice(), "default")
            || chars_eq_str(v.as_slice(), "DEFAULT") {
            ZoneTarget::Default
        } else if chars_eq_str(v.as_slice(), "ACCEPT") {
            ZoneTarget::Accept
        } else if chars_eq_str(v.as_slice(), "DROP") {
            ZoneTarget::Drop
        } else if chars_eq_str(v.as_slice(), "REJECT") {
            ZoneTarget::Reject
        } else {
            ZoneTarget::Other(value)
        }
    }

    /// A copy of the target.
    pub fn copied(&self) -> (r: Self)
        ensures
            r@ == self@,
    {
        match self {
            ZoneTarget::Default => ZoneTarget::Default,
            ZoneTarget::Accept => ZoneTarget::Accept,
            ZoneTarget::Drop => ZoneTarget::Drop,
            ZoneTarget::Reject => ZoneTarget::Reject,
            ZoneTarget::Other(value) => ZoneTarget::Other(value.clone()),
        }
    }

    /// The firewalld spelling of the target.
    pub fn as_str(&self) -> (r: &str)
        ensures
            r@ == target_text(self@),
    {
        match self {
            ZoneTarget::Default => "default",
            ZoneTarget::Accept => "ACCEPT",
            ZoneTarget::Drop => "DROP",
            ZoneTarget::Reject => "REJECT",
            ZoneTarget::Other(value) => value.as_str(),
        }
    }

    /// The firewalld spelling of the target, as an owned string (its text form).
    pub fn to_text(&self) -> (r: String)
        ensures
            r@ == target_text(self@),
    {
        self.as_str().to_owned()
    }
}

/// Reading back the spelling of a target gives the target again, unless it is an `Other`
/// target whose text is one of the reserved spellings.
pub proof fn lemma_target_text_round_trip(t: TargetView)
    requires
        !(t matches TargetView::Other(v) && (v == ""@ || v == "default"@ || v == "DEFAULT"@
            || v == "ACCEPT"@ || v == "DROP"@ || v == "REJECT"@)),
    ensures
        target_from_text(target_text(t)) == t,
{
    reveal_strlit("");
    reveal_strlit("default");
    reveal_strlit("DEFAULT");
    reveal_strlit("ACCEPT");
    reveal_strlit("DROP");
    reveal_strlit("REJECT");
    assert(""@.len() == 0);
    assert("default"@.len() == 7 && "DEFAULT"@.len() == 7);
    assert("ACCEPT"@.len() == 6 && "REJECT"@.len() == 6 && "DROP"@.len() == 4);
    assert("default"@[0] != "DEFAULT"@[0]);
    assert("ACCEPT"@[0] != "REJECT"@[0]);
    assert("default"@ != "DEFAULT"@);
    assert("ACCEPT"@ != "REJECT"@);
}

/// Spelling an interpreted target gives the raw text back, except that the empty string and
/// `DEFAULT` are spelled `default`.
pub proof fn lemma_target_from_text_round_trip(v: Seq<char>)
    ensures
        target_text(target_from_text(v)) == (if v == ""@ || v == "DEFAULT"@ {
            "default"@
        } else {
            v
        }),
{
}

} // verus!

verus! {

/// A zone's permanent settings as the bus returns them, lists in any order.
#[derive(Clone, Debug, PartialEq, Eq)]
pub struct ZoneConfig {
    pub description: String,
    /// The target as firewalld spells it.
    pub target: String,
    pub masquerade: bool,
    pub icmp_block_inversion: bool,
    pub services: Vec<String>,
    pub ports: Vec<(String, String)>,
    pub forward_ports: Vec<(String, String, String, String)>,
    pub interfaces: Vec<String>,
    pub sources: Vec<String>,
    pub icmp_blocks: Vec<String>,
    pub rich_rules: Vec<String>,
    pub protocols: Vec<String>,
    pub source_ports: Vec<(String, String)>,
}

impl ZoneDetails {
    /// The details of zone `name`: its settings with every list sorted and
    /// the target classified.
    pub fn from_config(name: &str, config: ZoneConfig) -> (r: Self)
        ensures
            r.name@ == name@,
            r.description == config.description,
            r.target@ == target_from_text(config.target@),
            r.masquerade == config.masquerade,
            r.icmp_block_inversion == config.icmp_block_inversion,
            stable_sort_of(r.services@, config.services@),
            stable_sort_of(r.ports@, config.ports@),
            stable_sort_of(r.forward_ports@, config.forward_ports@),
            stable_sort_of(r.interfaces@, config.interfaces@),
            stable_sort_of(r.sources@, config.sources@),
            stable_sort_of(r.icmp_blocks@, config.icmp_blocks@),
            stable_sort_of(r.rich_rules@, config.rich_rules@),
            stable_sort_of(r.protocols@, config.protocols@),
            stable_sort_of(r.source_ports@, config.source_ports@),
    {
        ZoneDetails {
            name: crate::text::owned(name),
            description: config.description,
            target: ZoneTarget::from_raw(config.target),
            masquerade: config.masquerade,
            icmp_block_inversion: config.icmp_block_inversion,
            services: sort_by_key(config.services),
            ports: sort_by_key(config.ports),
            forward_ports: sort_by_key(config.forward_ports),
            interfaces: sort_by_key(config.interfaces),
            sources: sort_by_key(config.sources),
            icmp_blocks: sort_by_key(config.icmp_blocks),
            rich_rules: sort_by_key(config.rich_rules),
            protocols: sort_by_key(config.protocols),
            source_ports: sort_by_key(config.source_ports),
        }
    }
}

impl IpSetDetails {
    /// The details of an IP set from its settings, entries sorted.
    pub fn from_settings(name: String, ipset_type: String, options: Vec<(String, String)>, entries: Vec<String>) -> (r: Self)
        ensures
            r.name == name,
            r.ipset_type == ipset_type,
            r.options == options,
            stable_sort_of(r.entries@, entries@),
    {
        IpSetDetails { name, ipset_type, entries: sort_by_key(entries), options }
    }
}

} // verus!
