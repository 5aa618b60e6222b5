//! Texts of the reconciliation review: the label of each setting, the
//! rendering of compared values, and the status line with its arguments.
//!
//! Localized phrases are named by their catalogue identifiers; the shell
//! resolves them, with their arguments, in the user's language.
use vstd::prelude::*;

use crate::presentation::ReconciliationPresentationStatus;
use crate::reconciliation::{
    CollectionValue, DifferenceView, MemberView, ScalarValue, ScalarView, ZoneReconciliationState,
    ZoneSetting, ZoneSettingDifference,
};
use crate::text::{decimal, decimal_string, owned, push_str, signed_decimal, signed_decimal_string};
use crate::zone_view::{join_strings, joined};

verus! {

/// A phrase of the message catalogue with at most one named argument.
#[derive(Clone, Debug, PartialEq, Eq)]
pub struct Phrase {
    /// Catalogue identifier.
    pub id: String,
    /// Argument name and its value, when the phrase takes one.
    pub argument: Option<(String, String)>,
}

/// The catalogue identifier of a setting's label.
pub open spec fn setting_label_id(setting: ZoneSetting) -> Seq<char> {
    match setting {
        ZoneSetting::ShortName => "reconciliation-setting-short-name"@,
        ZoneSetting::Description => "reconciliation-setting-description"@,
        ZoneSetting::Target => "reconciliation-setting-target"@,
        ZoneSetting::Services => "reconciliation-setting-services"@,
        ZoneSetting::Ports => "reconciliation-setting-ports"@,
        ZoneSetting::Protocols => "reconciliation-setting-protocols"@,
        ZoneSetting::SourcePorts => "reconciliation-setting-source-ports"@,
        ZoneSetting::IcmpBlocks => "reconciliation-setting-icmp-blocks"@,
        ZoneSetting::IcmpBlockInversion => "reconciliation-setting-icmp-inversion"@,
        ZoneSetting::Masquerade => "reconciliation-setting-masquerade"@,
        ZoneSetting::ForwardPorts => "reconciliation-setting-forward-ports"@,
        ZoneSetting::Interfaces => "reconciliation-setting-interfaces"@,
        ZoneSetting::Sources => "reconciliation-setting-sources"@,
        ZoneSetting::RichRules => "reconciliation-setting-rich-rules"@,
        ZoneSetting::Forward => "reconciliation-setting-forward"@,
        ZoneSetting::IngressPriority => "reconciliation-setting-ingress-priority"@,
        ZoneSetting::EgressPriority => "reconciliation-setting-egress-priority"@,
    }
}

/// The label of a compared setting.
pub fn setting_label(setting: ZoneSetting) -> (r: String)
    ensures
        r@ == setting_label_id(setting),
{
    let id = match setting {
        ZoneSetting::ShortName => "reconciliation-setting-short-name",
        ZoneSetting::Description => "reconciliation-setting-description",
        ZoneSetting::Target => "reconciliation-setting-target",
        ZoneSetting::Services => "reconciliation-setting-services",
        ZoneSetting::Ports => "reconciliation-setting-ports",
        ZoneSetting::Protocols => "reconciliation-setting-protocols",
        ZoneSetting::SourcePorts => "reconciliation-setting-source-ports",
        ZoneSetting::IcmpBlocks => "reconciliation-setting-icmp-blocks",
        ZoneSetting::IcmpBlockInversion => "reconciliation-setting-icmp-inversion",
        ZoneSetting::Masquerade => "reconciliation-setting-masquerade",
        ZoneSetting::ForwardPorts => "reconciliation-setting-forward-ports",
        ZoneSetting::Interfaces => "reconciliation-setting-interfaces",
        ZoneSetting::Sources => "reconciliation-setting-sources",
        ZoneSetting::RichRules => "reconciliation-setting-rich-rules",
        ZoneSetting::Forward => "reconciliation-setting-forward",
        ZoneSetting::IngressPriority => "reconciliation-setting-ingress-priority",
        ZoneSetting::EgressPriority => "reconciliation-setting-egress-priority",
    };
    owned(id)
}

/// How a scalar value reads: empty text and booleans by catalogue
/// identifier, other text as it is, integers in decimal.
pub open spec fn scalar_text(v: ScalarView) -> Seq<char> {
    match v {
        ScalarView::Text(t) => if t.len() == 0 {
            "reconciliation-empty-value"@
        } else {
            t
        },
        ScalarView::Boolean(b) => if b {
            "reconciliation-yes"@
        } else {
            "reconciliation-no"@
        },
        ScalarView::Integer(i) => signed_decimal(i as int),
    }
}

/// The rendering of one compared scalar value.
pub fn scalar_value(value: &ScalarValue) -> (r: String)
    ensures
        r@ == scalar_text(value@),
{
    match value {
        ScalarValue::Text(t) => {
            if t.as_str().is_empty() {
                owned("reconciliation-empty-value")
            } else {
                t.clone()
            }
        },
        ScalarValue::Boolean(b) => {
            if *b {
                owned("reconciliation-yes")
            } else {
                owned("reconciliation-no")
            }
        },
        ScalarValue::Integer(i) => signed_decimal_string(*i),
    }
}

/// The line of one collection member: text as it is, a pair as
/// `first/second`, a forward port as `port/protocol -> to_port (to_address)`.
pub open spec fn member_line(m: MemberView) -> Seq<char> {
    match m {
        MemberView::Text(a) => a,
        MemberView::Pair(a, b) => a + "/"@ + b,
        MemberView::ForwardPort(a, b, c, d) => a + "/"@ + b + " -> "@ + c + " ("@ + d + ")"@,
    }
}

/// How a list of collection members reads: the absent-value phrase when it
/// is empty, otherwise one member per line.
pub open spec fn collection_text(values: Seq<MemberView>) -> Seq<char> {
    if values.len() == 0 {
        "reconciliation-absent-value"@
    } else {
        joined(values.map_values(|m: MemberView| member_line(m)), "\n"@)
    }
}

fn member_text(value: &CollectionValue) -> (r: String)
    ensures
        r@ == member_line(value@),
{
    match value {
        CollectionValue::Text(a) => a.clone(),
        CollectionValue::Pair(a, b) => {
            let mut s = a.clone();
            push_str(&mut s, "/");
            push_str(&mut s, b.as_str());
            s
        },
        CollectionValue::ForwardPort(a, b, c, d) => {
            let mut s = a.clone();
            push_str(&mut s, "/");
            push_str(&mut s, b.as_str());
            push_str(&mut s, " -> ");
            push_str(&mut s, c.as_str());
            push_str(&mut s, " (");
            push_str(&mut s, d.as_str());
            push_str(&mut s, ")");
            s
        },
    }
}

/// The rendering of the members found on one side only.
pub fn collection_values(values: &[CollectionValue]) -> (r: String)
    ensures
        r@ == collection_text(values@.map_values(|v: CollectionValue| v@)),
{
    if values.len() == 0 {
        return owned("reconciliation-absent-value");
    }
    let ghost members = values@.map_values(|v: CollectionValue| v@);
    let mut lines: Vec<String> = Vec::new();
    let mut i: usize = 0;
    while i < values.len()
        invariant
            i <= values@.len(),
            members == values@.map_values(|v: CollectionValue| v@),
            lines@.len() == i,
            forall|j: int| 0 <= j < i ==> #[trigger] lines@[j]@ == member_line(members[j]),
        decreases values@.len() - i,
    {
        let line = member_text(&values[i]);
        lines.push(line);
        i = i + 1;
    }
    let r = join_strings(lines.as_slice(), "\n");
    assert(lines@.map_values(|s: String| s@) =~= members.map_values(|m: MemberView| member_line(m)));
    r
}

/// How a list of unknown keys reads: the none phrase when it is empty,
/// otherwise one key per line.
pub open spec fn list_text(values: Seq<Seq<char>>) -> Seq<char> {
    if values.len() == 0 {
        "reconciliation-none"@
    } else {
        joined(values, "\n"@)
    }
}

/// The rendering of the unknown keys of one side.
pub fn list_values(values: &[String]) -> (r: String)
    ensures
        r@ == list_text(values@.map_values(|s: String| s@)),
{
    if values.len() == 0 {
        owned("reconciliation-none")
    } else {
        join_strings(values, "\n")
    }
}

/// The setting of a difference with the renderings of its permanent and
/// runtime sides.
pub open spec fn difference_text(d: DifferenceView) -> (ZoneSetting, Seq<char>, Seq<char>) {
    match d {
        DifferenceView::Scalar { setting, permanent, runtime } => (
            setting,
            scalar_text(permanent),
            scalar_text(runtime),
        ),
        DifferenceView::Collection { setting, permanent_only, runtime_only } => (
            setting,
            collection_text(permanent_only),
            collection_text(runtime_only),
        ),
    }
}

/// The setting of a difference and the renderings of both of its sides.
pub fn difference_values(difference: &ZoneSettingDifference) -> (r: (ZoneSetting, String, String))
    ensures
        (r.0, r.1@, r.2@) == difference_text(difference@),
{
    match difference {
        ZoneSettingDifference::Scalar { setting, permanent, runtime } => {
            (*setting, scalar_value(permanent), scalar_value(runtime))
        },
        ZoneSettingDifference::Collection { setting, permanent_only, runtime_only } => {
            let p = collection_values(permanent_only.as_slice());
            let q = collection_values(runtime_only.as_slice());
            proof {
                assert(permanent_only@.map_values(|v: CollectionValue| v@) == difference@->Collection_permanent_only);
                assert(runtime_only@.map_values(|v: CollectionValue| v@) == difference@->Collection_runtime_only);
            }
            (*setting, p, q)
        },
    }
}

/// The status line of the review drawer: its catalogue identifier and, for
/// an error, the message, for differences, their count.
pub open spec fn review_status(
    status: ReconciliationPresentationStatus,
    state: ZoneReconciliationState,
) -> (Seq<char>, Option<(Seq<char>, Seq<char>)>) {
    match status {
        ReconciliationPresentationStatus::Loading => ("reconciliation-status-loading"@, None),
        ReconciliationPresentationStatus::Unavailable => ("reconciliation-status-unavailable"@, None),
        ReconciliationPresentationStatus::Error => (
            "reconciliation-status-error"@,
            Some(
                (
                    "error"@,
                    match state {
                        ZoneReconciliationState::Error { message, .. } => message@,
                        _ => Seq::empty(),
                    },
                ),
            ),
        ),
        ReconciliationPresentationStatus::InSync => ("reconciliation-status-in-sync"@, None),
        ReconciliationPresentationStatus::Different { count } => (
            "reconciliation-status-different"@,
            Some(("count"@, decimal(count as nat))),
        ),
        ReconciliationPresentationStatus::Incomplete { known_difference_count } => (
            "reconciliation-status-incomplete"@,
            Some(("count"@, decimal(known_difference_count as nat))),
        ),
    }
}

/// The view of a phrase: its identifier and its argument.
pub open spec fn phrase_view(p: Phrase) -> (Seq<char>, Option<(Seq<char>, Seq<char>)>) {
    (
        p.id@,
        match p.argument {
            Some((name, value)) => Some((name@, value@)),
            None => None,
        },
    )
}

fn phrase(id: &str) -> (r: Phrase)
    ensures
        phrase_view(r) == (id@, None::<(Seq<char>, Seq<char>)>),
{
    Phrase { id: owned(id), argument: None }
}

fn phrase_with(id: &str, name: &str, value: String) -> (r: Phrase)
    ensures
        phrase_view(r) == (id@, Some((name@, value@))),
{
    Phrase { id: owned(id), argument: Some((owned(name), value)) }
}

/// The status line shown at the top of the review drawer.
pub fn reconciliation_status(
    status: ReconciliationPresentationStatus,
    state: &ZoneReconciliationState,
) -> (r: Phrase)
    ensures
        phrase_view(r) == review_status(status, *state),
{
    match status {
        ReconciliationPresentationStatus::Loading => phrase("reconciliation-status-loading"),
        ReconciliationPresentationStatus::Unavailable => phrase("reconciliation-status-unavailable"),
        ReconciliationPresentationStatus::Error => {
            let message = match state {
                ZoneReconciliationState::Error { message, .. } => message.clone(),
                _ => String::new(),
            };
            phrase_with("reconciliation-status-error", "error", message)
        },
        ReconciliationPresentationStatus::InSync => phrase("reconciliation-status-in-sync"),
        ReconciliationPresentationStatus::Different { count } => {
            phrase_with("reconciliation-status-different", "count", decimal_string(count as u64))
        },
        ReconciliationPresentationStatus::Incomplete { known_difference_count } => {
            phrase_with(
                "reconciliation-status-incomplete",
                "count",
                decimal_string(known_difference_count as u64),
            )
        },
    }
}

} // verus!
