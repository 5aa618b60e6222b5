//! What the zone detail page shows: the rows of each list section with the
//! actions that remove them, and the actions that add to a section.
use vstd::prelude::*;

use crate::dialogs::port::PortKind;
use crate::models::ZoneDetails;
use crate::sorting::{sort_by_key, stable_sort_of, Keyed};
use crate::presentation::ReconciliationPresentationStatus;
use crate::review::{phrase_view, Phrase};
use crate::text::{decimal, decimal_string, owned, push_str, trim};
use crate::dialogs::port::trimmed;
use crate::zones::ZoneViewAction;

verus! {

/// The add action shared by the three port sections.
pub fn port_add_action(kind: PortKind) -> (r: ZoneViewAction)
    ensures
        r == (ZoneViewAction::AddPort { kind }),
{
    ZoneViewAction::AddPort { kind }
}

/// The label of a port and its protocol: `port/protocol`.
pub open spec fn port_label(port: Seq<char>, protocol: Seq<char>) -> Seq<char> {
    port + "/"@ + protocol
}

/// The label of a forward port: `port/protocol -> to_port`, followed by
/// ` (to_addr)` when a destination address is set.
pub open spec fn forward_label(port: Seq<char>, protocol: Seq<char>, to_port: Seq<char>, to_addr: Seq<char>) -> Seq<char> {
    let head = port_label(port, protocol) + " -> "@ + to_port;
    if to_addr.len() == 0 {
        head
    } else {
        head + " ("@ + to_addr + ")"@
    }
}

fn pair_label(port: &String, protocol: &String) -> (r: String)
    ensures
        r@ == port_label(port@, protocol@),
{
    let mut s = port.clone();
    push_str(&mut s, "/");
    push_str(&mut s, protocol.as_str());
    s
}

fn forward_port_label(port: &String, protocol: &String, to_port: &String, to_addr: &String) -> (r:
    String)
    ensures
        r@ == forward_label(port@, protocol@, to_port@, to_addr@),
{
    let mut s = pair_label(port, protocol);
    push_str(&mut s, " -> ");
    push_str(&mut s, to_port.as_str());
    if !to_addr.as_str().is_empty() {
        push_str(&mut s, " (");
        push_str(&mut s, to_addr.as_str());
        push_str(&mut s, ")");
    }
    s
}

/// A row of a list section: its label and the action that removes it.
pub type Row = (String, ZoneViewAction);

impl Keyed for (String, ZoneViewAction) {
    open spec fn key(&self) -> Seq<Seq<char>> {
        seq![self.0@]
    }

    proof fn lemma_key_len(a: &Self, b: &Self) {
    }

    fn key_fields<'a>(&'a self) -> (r: Vec<&'a String>) {
        let mut r: Vec<&'a String> = Vec::new();
        r.push(&self.0);
        r
    }
}

/// The rows of the source-port section, one per source port, in order.
pub fn source_port_rows(source_ports: &[(String, String)]) -> (r: Vec<(String, ZoneViewAction)>)
    ensures
        r@.len() == source_ports@.len(),
        forall|i: int|
            0 <= i < r@.len() ==> {
                let (port, protocol) = #[trigger] source_ports@[i];
                &&& r@[i].0@ == port_label(port@, protocol@)
                &&& r@[i].1 matches ZoneViewAction::RemoveSourcePort { port: p, protocol: q }
                    && p@ == port@ && q@ == protocol@
            },
{
    let mut r: Vec<(String, ZoneViewAction)> = Vec::new();
    let mut i: usize = 0;
    while i < source_ports.len()
        invariant
            i <= source_ports@.len(),
            r@.len() == i,
            forall|k: int|
                0 <= k < i ==> {
                    let (port, protocol) = #[trigger] source_ports@[k];
                    &&& r@[k].0@ == port_label(port@, protocol@)
                    &&& r@[k].1 matches ZoneViewAction::RemoveSourcePort { port: p, protocol: q }
                        && p@ == port@ && q@ == protocol@
                },
        decreases source_ports@.len() - i,
    {
        let (port, protocol) = &source_ports[i];
        let label = pair_label(port, protocol);
        r.push(
            (label, ZoneViewAction::RemoveSourcePort { port: port.clone(), protocol: protocol.clone() }),
        );
        i = i + 1;
    }
    r
}

/// The rows of the port section.
pub fn port_rows(ports: &[(String, String)]) -> (r: Vec<(String, ZoneViewAction)>)
    ensures
        r@.len() == ports@.len(),
        forall|i: int|
            0 <= i < r@.len() ==> {
                let (port, protocol) = #[trigger] ports@[i];
                &&& r@[i].0@ == port_label(port@, protocol@)
                &&& r@[i].1 matches ZoneViewAction::RemovePort { port: p, protocol: q } && p@
                    == port@ && q@ == protocol@
            },
{
    let mut r: Vec<(String, ZoneViewAction)> = Vec::new();
    let mut i: usize = 0;
    while i < ports.len()
        invariant
            i <= ports@.len(),
            r@.len() == i,
            forall|k: int|
                0 <= k < i ==> {
                    let (port, protocol) = #[trigger] ports@[k];
                    &&& r@[k].0@ == port_label(port@, protocol@)
                    &&& r@[k].1 matches ZoneViewAction::RemovePort { port: p, protocol: q } && p@
                        == port@ && q@ == protocol@
                },
        decreases ports@.len() - i,
    {
        let (port, protocol) = &ports[i];
        let label = pair_label(port, protocol);
        r.push((label, ZoneViewAction::RemovePort { port: port.clone(), protocol: protocol.clone() }));
        i = i + 1;
    }
    r
}

/// The rows of the forward-port section.
pub fn forward_port_rows(forward_ports: &[(String, String, String, String)]) -> (r: Vec<
    (String, ZoneViewAction),
>)
    ensures
        r@.len() == forward_ports@.len(),
        forall|i: int|
            0 <= i < r@.len() ==> {
                let (port, protocol, to_port, to_addr) = #[trigger] forward_ports@[i];
                &&& r@[i].0@ == forward_label(port@, protocol@, to_port@, to_addr@)
                &&& r@[i].1 matches ZoneViewAction::RemoveForwardPort {
                    port: p,
                    protocol: q,
                    to_port: t,
                    to_addr: a,
                } && p@ == port@ && q@ == protocol@ && t@ == to_port@ && a@ == to_addr@
            },
{
    let mut r: Vec<(String, ZoneViewAction)> = Vec::new();
    let mut i: usize = 0;
    while i < forward_ports.len()
        invariant
            i <= forward_ports@.len(),
            r@.len() == i,
            forall|k: int|
                0 <= k < i ==> {
                    let (port, protocol, to_port, to_addr) = #[trigger] forward_ports@[k];
                    &&& r@[k].0@ == forward_label(port@, protocol@, to_port@, to_addr@)
                    &&& r@[k].1 matches ZoneViewAction::RemoveForwardPort {
                        port: p,
                        protocol: q,
                        to_port: t,
                        to_addr: a,
                    } && p@ == port@ && q@ == protocol@ && t@ == to_port@ && a@ == to_addr@
                },
        decreases forward_ports@.len() - i,
    {
        let (port, protocol, to_port, to_addr) = &forward_ports[i];
        let label = forward_port_label(port, protocol, to_port, to_addr);
        r.push(
            (
                label,
                ZoneViewAction::RemoveForwardPort {
                    port: port.clone(),
                    protocol: protocol.clone(),
                    to_port: to_port.clone(),
                    to_addr: to_addr.clone(),
                },
            ),
        );
        i = i + 1;
    }
    r
}

/// The kinds of single-text items that a zone lists.
#[derive(Clone, Copy, Debug, PartialEq, Eq, Structural)]
pub enum TextSection {
    Services,
    Interfaces,
    Sources,
    IcmpBlocks,
    RichRules,
}

/// Whether `action` removes an item whose text is `text` from `section`.
pub open spec fn removes_text(section: TextSection, action: ZoneViewAction, text: Seq<char>) -> bool {
    match (section, action) {
        (TextSection::Services, ZoneViewAction::RemoveService(s)) => s@ == text,
        (TextSection::Interfaces, ZoneViewAction::RemoveInterface(s)) => s@ == text,
        (TextSection::Sources, ZoneViewAction::RemoveSource(s)) => s@ == text,
        (TextSection::IcmpBlocks, ZoneViewAction::RemoveIcmpBlock(s)) => s@ == text,
        (TextSection::RichRules, ZoneViewAction::RemoveRichRule(s)) => s@ == text,
        _ => false,
    }
}

/// The rows of a text section: each item labelled by itself.
pub fn text_rows(section: TextSection, items: &[String]) -> (r: Vec<(String, ZoneViewAction)>)
    ensures
        r@.len() == items@.len(),
        forall|i: int|
            0 <= i < r@.len() ==> #[trigger] r@[i].0@ == items@[i]@ && removes_text(
                section,
                r@[i].1,
                items@[i]@,
            ),
{
    let mut r: Vec<(String, ZoneViewAction)> = Vec::new();
    let mut i: usize = 0;
    while i < items.len()
        invariant
            i <= items@.len(),
            r@.len() == i,
            forall|k: int|
                0 <= k < i ==> #[trigger] r@[k].0@ == items@[k]@ && removes_text(
                    section,
                    r@[k].1,
                    items@[k]@,
                ),
        decreases items@.len() - i,
    {
        let item = items[i].clone();
        let action = match section {
            TextSection::Services => ZoneViewAction::RemoveService(item.clone()),
            TextSection::Interfaces => ZoneViewAction::RemoveInterface(item.clone()),
            TextSection::Sources => ZoneViewAction::RemoveSource(item.clone()),
            TextSection::IcmpBlocks => ZoneViewAction::RemoveIcmpBlock(item.clone()),
            TextSection::RichRules => ZoneViewAction::RemoveRichRule(item.clone()),
        };
        r.push((item, action));
        i = i + 1;
    }
    r
}

/// A list section of the zone page.
#[derive(Debug)]
pub struct ListSection {
    /// The number of items that the section lists.
    pub count: usize,
    /// The rows, sorted by label; rows with equal labels keep their order.
    pub rows: Vec<(String, ZoneViewAction)>,
    /// The action of the section's add button.
    pub add_action: ZoneViewAction,
}

/// The list sections of a zone's page, in display order.
#[derive(Debug)]
pub struct ZoneSections {
    pub interfaces: ListSection,
    pub sources: ListSection,
    pub services: ListSection,
    pub ports: ListSection,
    pub forward_ports: ListSection,
    pub source_ports: ListSection,
    pub icmp_blocks: ListSection,
    pub rich_rules: ListSection,
}

/// Whether `section` shows `rows` sorted, counts `count` items and adds with `add`.
pub open spec fn section_of(section: ListSection, rows: Seq<(String, ZoneViewAction)>, add: ZoneViewAction) -> bool {
    &&& section.count == rows.len()
    &&& stable_sort_of(section.rows@, rows)
    &&& section.add_action == add
}

fn list_section(rows: Vec<(String, ZoneViewAction)>, add_action: ZoneViewAction) -> (r: ListSection)
    ensures
        section_of(r, rows@, add_action),
{
    let count = rows.len();
    ListSection { count, rows: sort_by_key(rows), add_action }
}

/// The list sections of a zone: each lists its items as rows sorted by label
/// with the action that removes them, and offers the form that adds to it.
pub fn zone_sections(details: &ZoneDetails) -> (r: ZoneSections)
    ensures
        exists|rows: Seq<(String, ZoneViewAction)>| section_of(r.services, rows, ZoneViewAction::AddService)
            && rows.len() == details.services@.len() && forall|i: int| 0 <= i < rows.len()
            ==> #[trigger] rows[i].0@ == details.services@[i]@ && removes_text(
            TextSection::Services,
            rows[i].1,
            details.services@[i]@,
        ),
        exists|rows: Seq<(String, ZoneViewAction)>| section_of(r.interfaces, rows, ZoneViewAction::AddInterface)
            && rows.len() == details.interfaces@.len() && forall|i: int| 0 <= i < rows.len()
            ==> #[trigger] rows[i].0@ == details.interfaces@[i]@ && removes_text(
            TextSection::Interfaces,
            rows[i].1,
            details.interfaces@[i]@,
        ),
        exists|rows: Seq<(String, ZoneViewAction)>| section_of(r.sources, rows, ZoneViewAction::AddSource)
            && rows.len() == details.sources@.len() && forall|i: int| 0 <= i < rows.len()
            ==> #[trigger] rows[i].0@ == details.sources@[i]@ && removes_text(
            TextSection::Sources,
            rows[i].1,
            details.sources@[i]@,
        ),
        exists|rows: Seq<(String, ZoneViewAction)>| section_of(r.icmp_blocks, rows, ZoneViewAction::AddIcmpBlock)
            && rows.len() == details.icmp_blocks@.len() && forall|i: int| 0 <= i < rows.len()
            ==> #[trigger] rows[i].0@ == details.icmp_blocks@[i]@ && removes_text(
            TextSection::IcmpBlocks,
            rows[i].1,
            details.icmp_blocks@[i]@,
        ),
        exists|rows: Seq<(String, ZoneViewAction)>| section_of(r.rich_rules, rows, ZoneViewAction::AddRichRule)
            && rows.len() == details.rich_rules@.len() && forall|i: int| 0 <= i < rows.len()
            ==> #[trigger] rows[i].0@ == details.rich_rules@[i]@ && removes_text(
            TextSection::RichRules,
            rows[i].1,
            details.rich_rules@[i]@,
        ),
        exists|rows: Seq<(String, ZoneViewAction)>|
            section_of(r.ports, rows, ZoneViewAction::AddPort { kind: PortKind::Destination })
                && rows.len() == details.ports@.len() && forall|i: int| 0 <= i < rows.len() ==> {
                let (port, protocol) = #[trigger] details.ports@[i];
                &&& rows[i].0@ == port_label(port@, protocol@)
                &&& rows[i].1 matches ZoneViewAction::RemovePort { port: p, protocol: q } && p@
                    == port@ && q@ == protocol@
            },
        exists|rows: Seq<(String, ZoneViewAction)>|
            section_of(r.source_ports, rows, ZoneViewAction::AddPort { kind: PortKind::Source })
                && rows.len() == details.source_ports@.len() && forall|i: int| 0 <= i < rows.len() ==> {
                let (port, protocol) = #[trigger] details.source_ports@[i];
                &&& rows[i].0@ == port_label(port@, protocol@)
                &&& rows[i].1 matches ZoneViewAction::RemoveSourcePort { port: p, protocol: q } && p@
                    == port@ && q@ == protocol@
            },
        exists|rows: Seq<(String, ZoneViewAction)>|
            section_of(r.forward_ports, rows, ZoneViewAction::AddPort { kind: PortKind::Forward })
                && rows.len() == details.forward_ports@.len() && forall|i: int| 0 <= i < rows.len() ==> {
                let (port, protocol, to_port, to_addr) = #[trigger] details.forward_ports@[i];
                &&& rows[i].0@ == forward_label(port@, protocol@, to_port@, to_addr@)
                &&& rows[i].1 matches ZoneViewAction::RemoveForwardPort {
                    port: p,
                    protocol: q,
                    to_port: t,
                    to_addr: a,
                } && p@ == port@ && q@ == protocol@ && t@ == to_port@ && a@ == to_addr@
            },
{
    let services = text_rows(TextSection::Services, details.services.as_slice());
    let interfaces = text_rows(TextSection::Interfaces, details.interfaces.as_slice());
    let sources = text_rows(TextSection::Sources, details.sources.as_slice());
    let icmp_blocks = text_rows(TextSection::IcmpBlocks, details.icmp_blocks.as_slice());
    let rich_rules = text_rows(TextSection::RichRules, details.rich_rules.as_slice());
    let ports = port_rows(details.ports.as_slice());
    let source_ports = source_port_rows(details.source_ports.as_slice());
    let forward_ports = forward_port_rows(details.forward_ports.as_slice());
    let ghost (s, n, c, ib, rr, p, sp, fp) = (
        services@,
        interfaces@,
        sources@,
        icmp_blocks@,
        rich_rules@,
        ports@,
        source_ports@,
        forward_ports@,
    );
    let r = ZoneSections {
        interfaces: list_section(interfaces, ZoneViewAction::AddInterface),
        sources: list_section(sources, ZoneViewAction::AddSource),
        services: list_section(services, ZoneViewAction::AddService),
        ports: list_section(ports, port_add_action(PortKind::Destination)),
        forward_ports: list_section(forward_ports, port_add_action(PortKind::Forward)),
        source_ports: list_section(source_ports, port_add_action(PortKind::Source)),
        icmp_blocks: list_section(icmp_blocks, ZoneViewAction::AddIcmpBlock),
        rich_rules: list_section(rich_rules, ZoneViewAction::AddRichRule),
    };
    proof {
        assert(section_of(r.services, s, ZoneViewAction::AddService));
        assert(section_of(r.interfaces, n, ZoneViewAction::AddInterface));
        assert(section_of(r.sources, c, ZoneViewAction::AddSource));
        assert(section_of(r.icmp_blocks, ib, ZoneViewAction::AddIcmpBlock));
        assert(section_of(r.rich_rules, rr, ZoneViewAction::AddRichRule));
        assert(section_of(r.ports, p, ZoneViewAction::AddPort { kind: PortKind::Destination }));
        assert(section_of(r.source_ports, sp, ZoneViewAction::AddPort { kind: PortKind::Source }));
        assert(section_of(r.forward_ports, fp, ZoneViewAction::AddPort { kind: PortKind::Forward }));
    }
    r
}

/// The text of a list shown on one line: the items joined by `, `, or
/// `empty_label` when there is none.
pub open spec fn joined(items: Seq<Seq<char>>, sep: Seq<char>) -> Seq<char>
    decreases items.len(),
{
    if items.len() == 0 {
        Seq::empty()
    } else if items.len() == 1 {
        items[0]
    } else {
        joined(items.drop_last(), sep) + sep + items.last()
    }
}

/// The items of `items` joined by `sep`.
pub fn join_strings(items: &[String], sep: &str) -> (r: String)
    ensures
        r@ == joined(items@.map_values(|s: String| s@), sep@),
{
    let ghost views = items@.map_values(|s: String| s@);
    let mut r = String::new();
    let mut i: usize = 0;
    while i < items.len()
        invariant
            i <= items@.len(),
            views == items@.map_values(|s: String| s@),
            r@ == joined(views.take(i as int), sep@),
        decreases items@.len() - i,
    {
        proof {
            assert(views.take(i + 1).drop_last() =~= views.take(i as int));
            assert(views.take(i + 1).last() == items@[i as int]@);
        }
        if i > 0 {
            push_str(&mut r, sep);
        } else {
            assert(views.take(1) =~= seq![items@[0]@]);
        }
        push_str(&mut r, items[i].as_str());
        i = i + 1;
    }
    assert(views.take(items@.len() as int) =~= views);
    r
}

/// The items joined by `, `, or `empty_label` when there is none.
pub fn list_or_none(items: &[String], empty_label: &str) -> (r: String)
    ensures
        r@ == if items@.len() == 0 {
            empty_label@
        } else {
            joined(items@.map_values(|s: String| s@), ", "@)
        },
{
    if items.len() == 0 {
        crate::text::owned(empty_label)
    } else {
        join_strings(items, ", ")
    }
}

} // verus!

verus! {

/// A section heading followed by its item count in parentheses.
pub fn section_title(title: String, count: usize) -> (r: String)
    ensures
        r@ == title@ + " ("@ + decimal(count as nat) + ")"@,
{
    let mut s = title;
    push_str(&mut s, " (");
    let digits = decimal_string(count as u64);
    push_str(&mut s, digits.as_str());
    push_str(&mut s, ")");
    s
}

/// The status line of the reconciliation banner on the zone page: its
/// catalogue identifier and, for differences, their count.
pub open spec fn banner_status(status: ReconciliationPresentationStatus) -> (Seq<char>, Option<(Seq<char>, Seq<char>)>) {
    match status {
        ReconciliationPresentationStatus::Loading => ("reconciliation-status-loading"@, None),
        ReconciliationPresentationStatus::InSync => ("reconciliation-status-in-sync"@, None),
        ReconciliationPresentationStatus::Different { count } => (
            "reconciliation-status-different"@,
            Some(("count"@, decimal(count as nat))),
        ),
        ReconciliationPresentationStatus::Incomplete { known_difference_count } => (
            "reconciliation-status-incomplete"@,
            Some(("count"@, decimal(known_difference_count as nat))),
        ),
        ReconciliationPresentationStatus::Unavailable => ("reconciliation-status-unavailable"@, None),
        ReconciliationPresentationStatus::Error => ("reconciliation-status-error-short"@, None),
    }
}

/// The status line of the reconciliation banner.
pub fn reconciliation_status(status: ReconciliationPresentationStatus) -> (r: Phrase)
    ensures
        phrase_view(r) == banner_status(status),
{
    let (id, count): (&str, Option<usize>) = match status {
        ReconciliationPresentationStatus::Loading => ("reconciliation-status-loading", None),
        ReconciliationPresentationStatus::InSync => ("reconciliation-status-in-sync", None),
        ReconciliationPresentationStatus::Different { count } => ("reconciliation-status-different", Some(count)),
        ReconciliationPresentationStatus::Incomplete { known_difference_count } => (
            "reconciliation-status-incomplete",
            Some(known_difference_count),
        ),
        ReconciliationPresentationStatus::Unavailable => ("reconciliation-status-unavailable", None),
        ReconciliationPresentationStatus::Error => ("reconciliation-status-error-short", None),
    };
    let argument = match count {
        Some(n) => Some((owned("count"), decimal_string(n as u64))),
        None => None,
    };
    Phrase { id: owned(id), argument }
}

/// The description line of a zone: its description, or the fallback phrase
/// when the description is blank.
pub fn zone_description(details: &ZoneDetails) -> (r: String)
    ensures
        r@ == if trim(details.description@).len() == 0 {
            "zone-description-fallback"@
        } else {
            details.description@
        },
{
    let t = trimmed(&details.description);
    if t.as_str().is_empty() {
        owned("zone-description-fallback")
    } else {
        details.description.clone()
    }
}

} // verus!
