//! Typed zone settings and the order-insensitive comparison of permanent and runtime
//! configuration.
use vstd::prelude::*;
use crate::sorting::{lemma_filter_append, lemma_filter_push};
use crate::text::owned;

use crate::order::{
    fields_lt, fields_lt_exec, lemma_fields_lt_irreflexive, lemma_fields_lt_total,
    lemma_fields_lt_transitive, lemma_sorted_listing,
    same_members, sorted_difference, sorted_listing, views, Ordered,
};

verus! {

/// A complete typed view of the zone settings understood by this application.
#[derive(Clone, Debug, PartialEq, Eq)]
pub struct ZoneSettingsSnapshot {
    /// User-facing short name.
    pub short_name: String,
    /// User-facing description.
    pub description: String,
    /// Packet target, such as `default`, `ACCEPT`, `REJECT`, or `DROP`.
    pub target: String,
    /// Enabled service names.
    pub services: Vec<String>,
    /// Destination port and protocol pairs.
    pub ports: Vec<(String, String)>,
    /// Enabled IP protocols.
    pub protocols: Vec<String>,
    /// Source port and protocol pairs.
    pub source_ports: Vec<(String, String)>,
    /// Blocked ICMP type names.
    pub icmp_blocks: Vec<String>,
    /// Whether ICMP block semantics are inverted.
    pub icmp_block_inversion: bool,
    /// Whether address masquerading is enabled.
    pub masquerade: bool,
    /// Port, protocol, destination port, and destination address tuples.
    pub forward_ports: Vec<(String, String, String, String)>,
    /// Bound network interfaces.
    pub interfaces: Vec<String>,
    /// Bound source addresses or networks.
    pub sources: Vec<String>,
    /// Rich rules in their exact textual representation.
    pub rich_rules: Vec<String>,
    /// Whether forwarding through the zone is enabled.
    pub forward: bool,
    /// Zone ingress priority.
    pub ingress_priority: i32,
    /// Zone egress priority.
    pub egress_priority: i32,
    /// Dictionary keys not understood by this application; `from_settings`
    /// lists them sorted and without duplicates.
    pub unknown_keys: Vec<String>,
}

/// A setting represented in a reconciliation difference.
#[derive(Clone, Copy, Debug, PartialEq, Eq, Structural)]
pub enum ZoneSetting {
    /// User-facing short name.
    ShortName,
    /// User-facing description.
    Description,
    /// Packet target.
    Target,
    /// Enabled services.
    Services,
    /// Destination ports.
    Ports,
    /// Enabled protocols.
    Protocols,
    /// Source ports.
    SourcePorts,
    /// Blocked ICMP types.
    IcmpBlocks,
    /// ICMP block inversion.
    IcmpBlockInversion,
    /// Address masquerading.
    Masquerade,
    /// Forwarded ports.
    ForwardPorts,
    /// Bound interfaces.
    Interfaces,
    /// Bound sources.
    Sources,
    /// Rich rules.
    RichRules,
    /// Zone forwarding.
    Forward,
    /// Ingress priority.
    IngressPriority,
    /// Egress priority.
    EgressPriority,
}

/// A scalar value retained on both sides of a difference.
#[derive(Clone, Debug, PartialEq, Eq)]
pub enum ScalarValue {
    /// Text setting.
    Text(String),
    /// Boolean setting.
    Boolean(bool),
    /// Signed integer setting.
    Integer(i32),
}

/// The mathematical content of a [`ScalarValue`].
pub enum ScalarView {
    Text(Seq<char>),
    Boolean(bool),
    Integer(i32),
}

impl View for ScalarValue {
    type V = ScalarView;

    open spec fn view(&self) -> ScalarView {
        match self {
            ScalarValue::Text(s) => ScalarView::Text(s@),
            ScalarValue::Boolean(b) => ScalarView::Boolean(*b),
            ScalarValue::Integer(i) => ScalarView::Integer(*i),
        }
    }
}

/// An exact member of a collection-valued zone setting.
#[derive(Clone, Debug, PartialEq, Eq, PartialOrd, Ord)]
pub enum CollectionValue {
    /// A single string entry.
    Text(String),
    /// A port and protocol pair.
    Pair(String, String),
    /// A port, protocol, destination port, and destination address tuple.
    ForwardPort(String, String, String, String),
}

/// The mathematical content of a [`CollectionValue`].
pub enum MemberView {
    Text(Seq<char>),
    Pair(Seq<char>, Seq<char>),
    ForwardPort(Seq<char>, Seq<char>, Seq<char>, Seq<char>),
}

impl View for CollectionValue {
    type V = MemberView;

    open spec fn view(&self) -> MemberView {
        match self {
            CollectionValue::Text(a) => MemberView::Text(a@),
            CollectionValue::Pair(a, b) => MemberView::Pair(a@, b@),
            CollectionValue::ForwardPort(a, b, c, d) => MemberView::ForwardPort(a@, b@, c@, d@),
        }
    }
}

/// The fields of a member, in declaration order.
pub open spec fn member_fields(m: MemberView) -> Seq<Seq<char>> {
    match m {
        MemberView::Text(a) => seq![a],
        MemberView::Pair(a, b) => seq![a, b],
        MemberView::ForwardPort(a, b, c, d) => seq![a, b, c, d],
    }
}

/// The position of a member's variant in the declaration.
pub open spec fn member_rank(m: MemberView) -> int {
    match m {
        MemberView::Text(..) => 0,
        MemberView::Pair(..) => 1,
        MemberView::ForwardPort(..) => 2,
    }
}

/// The order of the derived `Ord`: by variant, then field by field.
pub open spec fn member_lt(a: MemberView, b: MemberView) -> bool {
    if member_rank(a) != member_rank(b) {
        member_rank(a) < member_rank(b)
    } else {
        fields_lt(member_fields(a), member_fields(b))
    }
}

impl CollectionValue {
    fn rank(&self) -> (r: u8)
        ensures
            r as int == member_rank(self@),
    {
        match self {
            CollectionValue::Text(..) => 0,
            CollectionValue::Pair(..) => 1,
            CollectionValue::ForwardPort(..) => 2,
        }
    }

    fn fields(&self) -> (r: Vec<&String>)
        ensures
            r@.len() == member_fields(self@).len(),
            forall|k: int| 0 <= k < r@.len() ==> (#[trigger] r@[k])@ == member_fields(self@)[k],
    {
        let mut r: Vec<&String> = Vec::new();
        match self {
            CollectionValue::Text(a) => {
                r.push(a);
            },
            CollectionValue::Pair(a, b) => {
                r.push(a);
                r.push(b);
            },
            CollectionValue::ForwardPort(a, b, c, d) => {
                r.push(a);
                r.push(b);
                r.push(c);
                r.push(d);
            },
        }
        r
    }
}

impl Ordered for CollectionValue {
    open spec fn view_lt(a: MemberView, b: MemberView) -> bool {
        member_lt(a, b)
    }

    proof fn lemma_irreflexive(a: MemberView) {
        lemma_fields_lt_irreflexive(member_fields(a));
    }

    proof fn lemma_transitive(a: MemberView, b: MemberView, c: MemberView) {
        if member_rank(a) == member_rank(b) && member_rank(b) == member_rank(c) {
            lemma_fields_lt_transitive(member_fields(a), member_fields(b), member_fields(c));
        }
    }

    proof fn lemma_total(a: MemberView, b: MemberView) {
        if member_rank(a) == member_rank(b) {
            lemma_fields_lt_total(member_fields(a), member_fields(b));
            if member_fields(a) == member_fields(b) {
                match a {
                    MemberView::Text(x) => {
                        assert(member_fields(a)[0] == member_fields(b)[0]);
                    },
                    MemberView::Pair(x, y) => {
                        assert(member_fields(a)[0] == member_fields(b)[0]);
                        assert(member_fields(a)[1] == member_fields(b)[1]);
                    },
                    MemberView::ForwardPort(x, y, z, w) => {
                        assert(member_fields(a)[0] == member_fields(b)[0]);
                        assert(member_fields(a)[1] == member_fields(b)[1]);
                        assert(member_fields(a)[2] == member_fields(b)[2]);
                        assert(member_fields(a)[3] == member_fields(b)[3]);
                    },
                }
            }
        }
    }

    fn less_than(&self, other: &Self) -> (r: bool) {
        let ra = self.rank();
        let rb = other.rank();
        if ra != rb {
            return ra < rb;
        }
        let fa = self.fields();
        let fb = other.fields();
        fields_lt_exec(fa.as_slice(), fb.as_slice(), Ghost(member_fields(self@)), Ghost(member_fields(other@)))
    }

    fn same_as(&self, other: &Self) -> (r: bool) {
        match (self, other) {
            (CollectionValue::Text(a), CollectionValue::Text(x)) => a.eq(x),
            (CollectionValue::Pair(a, b), CollectionValue::Pair(x, y)) => a.eq(x) && b.eq(y),
            (CollectionValue::ForwardPort(a, b, c, d), CollectionValue::ForwardPort(x, y, z, w)) => {
                a.eq(x) && b.eq(y) && c.eq(z) && d.eq(w)
            },
            _ => false,
        }
    }

    fn duplicate(&self) -> (r: Self) {
        match self {
            CollectionValue::Text(a) => CollectionValue::Text(a.clone()),
            CollectionValue::Pair(a, b) => CollectionValue::Pair(a.clone(), b.clone()),
            CollectionValue::ForwardPort(a, b, c, d) => CollectionValue::ForwardPort(
                a.clone(),
                b.clone(),
                c.clone(),
                d.clone(),
            ),
        }
    }
}


/// One typed difference between permanent and runtime zone settings.
#[derive(Clone, Debug, PartialEq, Eq)]
pub enum ZoneSettingDifference {
    /// A scalar whose permanent and runtime values differ.
    Scalar {
        /// Setting being compared.
        setting: ZoneSetting,
        /// Permanent value.
        permanent: ScalarValue,
        /// Runtime value.
        runtime: ScalarValue,
    },
    /// An order-insensitive collection whose membership differs.
    Collection {
        /// Setting being compared.
        setting: ZoneSetting,
        /// Entries present only in permanent configuration.
        permanent_only: Vec<CollectionValue>,
        /// Entries present only in runtime configuration.
        runtime_only: Vec<CollectionValue>,
    },
}

/// The mathematical content of a [`ZoneSettingDifference`].
pub enum DifferenceView {
    Scalar { setting: ZoneSetting, permanent: ScalarView, runtime: ScalarView },
    Collection {
        setting: ZoneSetting,
        permanent_only: Seq<MemberView>,
        runtime_only: Seq<MemberView>,
    },
}

impl View for ZoneSettingDifference {
    type V = DifferenceView;

    open spec fn view(&self) -> DifferenceView {
        match self {
            ZoneSettingDifference::Scalar { setting, permanent, runtime } => DifferenceView::Scalar {
                setting: *setting,
                permanent: permanent@,
                runtime: runtime@,
            },
            ZoneSettingDifference::Collection { setting, permanent_only, runtime_only } =>
                DifferenceView::Collection {
                setting: *setting,
                permanent_only: views(permanent_only@),
                runtime_only: views(runtime_only@),
            },
        }
    }
}

/// The members of a text-valued collection.
pub open spec fn text_members(v: Seq<String>) -> Set<MemberView> {
    v.map_values(|x: String| MemberView::Text(x@)).to_set()
}

/// The members of a pair-valued collection.
pub open spec fn pair_members(v: Seq<(String, String)>) -> Set<MemberView> {
    v.map_values(|x: (String, String)| MemberView::Pair(x.0@, x.1@)).to_set()
}

/// The members of the forwarded-port collection.
pub open spec fn forward_members(v: Seq<(String, String, String, String)>) -> Set<MemberView> {
    v.map_values(
        |x: (String, String, String, String)| MemberView::ForwardPort(x.0@, x.1@, x.2@, x.3@),
    ).to_set()
}

/// A scalar difference, present only when the two values differ.
pub open spec fn scalar_difference(setting: ZoneSetting, p: ScalarView, r: ScalarView) -> Seq<
    DifferenceView,
> {
    if p != r {
        seq![DifferenceView::Scalar { setting, permanent: p, runtime: r }]
    } else {
        seq![]
    }
}

/// A collection difference, present only when the two member sets differ; each side lists
/// the members missing from the other side, sorted and without duplicates.
pub open spec fn collection_difference(setting: ZoneSetting, p: Set<MemberView>, r: Set<MemberView>) -> Seq<DifferenceView> {
    if p != r {
        seq![
            DifferenceView::Collection {
                setting,
                permanent_only: sorted_listing::<CollectionValue>(p.difference(r)),
                runtime_only: sorted_listing::<CollectionValue>(r.difference(p)),
            },
        ]
    } else {
        seq![]
    }
}

/// Every known-setting difference between `p` and `r`, in the fixed order of the settings.
pub open spec fn setting_differences(p: ZoneSettingsSnapshot, r: ZoneSettingsSnapshot) -> Seq<DifferenceView> {
    scalar_difference(ZoneSetting::ShortName, ScalarView::Text(p.short_name@), ScalarView::Text(r.short_name@))
        + scalar_difference(ZoneSetting::Description, ScalarView::Text(p.description@), ScalarView::Text(r.description@))
        + scalar_difference(ZoneSetting::Target, ScalarView::Text(p.target@), ScalarView::Text(r.target@))
        + collection_difference(ZoneSetting::Services, text_members(p.services@), text_members(r.services@))
        + collection_difference(ZoneSetting::Ports, pair_members(p.ports@), pair_members(r.ports@))
        + collection_difference(ZoneSetting::Protocols, text_members(p.protocols@), text_members(r.protocols@))
        + collection_difference(ZoneSetting::SourcePorts, pair_members(p.source_ports@), pair_members(r.source_ports@))
        + collection_difference(ZoneSetting::IcmpBlocks, text_members(p.icmp_blocks@), text_members(r.icmp_blocks@))
        + scalar_difference(ZoneSetting::IcmpBlockInversion, ScalarView::Boolean(p.icmp_block_inversion), ScalarView::Boolean(r.icmp_block_inversion))
        + scalar_difference(ZoneSetting::Masquerade, ScalarView::Boolean(p.masquerade), ScalarView::Boolean(r.masquerade))
        + collection_difference(ZoneSetting::ForwardPorts, forward_members(p.forward_ports@), forward_members(r.forward_ports@))
        + collection_difference(ZoneSetting::Interfaces, text_members(p.interfaces@), text_members(r.interfaces@))
        + collection_difference(ZoneSetting::Sources, text_members(p.sources@), text_members(r.sources@))
        + collection_difference(ZoneSetting::RichRules, text_members(p.rich_rules@), text_members(r.rich_rules@))
        + scalar_difference(ZoneSetting::Forward, ScalarView::Boolean(p.forward), ScalarView::Boolean(r.forward))
        + scalar_difference(ZoneSetting::IngressPriority, ScalarView::Integer(p.ingress_priority), ScalarView::Integer(r.ingress_priority))
        + scalar_difference(ZoneSetting::EgressPriority, ScalarView::Integer(p.egress_priority), ScalarView::Integer(r.egress_priority))
}

fn scalar(diffs: &mut Vec<ZoneSettingDifference>, setting: ZoneSetting, p: &String, r: &String)
    ensures
        views(final(diffs)@) == views(old(diffs)@) + scalar_difference(setting, ScalarView::Text(p@), ScalarView::Text(r@)),
{
    if !p.eq(r) {
        diffs.push(ZoneSettingDifference::Scalar {
            setting,
            permanent: ScalarValue::Text(p.clone()),
            runtime: ScalarValue::Text(r.clone()),
        });
        assert(views(diffs@) =~= views(old(diffs)@) + scalar_difference(setting, ScalarView::Text(p@), ScalarView::Text(r@)));
    } else {
        assert(views(diffs@) =~= views(old(diffs)@) + scalar_difference(setting, ScalarView::Text(p@), ScalarView::Text(r@)));
    }
}

fn push_bool(diffs: &mut Vec<ZoneSettingDifference>, setting: ZoneSetting, p: bool, r: bool)
    ensures
        views(final(diffs)@) == views(old(diffs)@) + scalar_difference(setting, ScalarView::Boolean(p), ScalarView::Boolean(r)),
{
    if p != r {
        diffs.push(ZoneSettingDifference::Scalar {
            setting,
            permanent: ScalarValue::Boolean(p),
            runtime: ScalarValue::Boolean(r),
        });
    }
    assert(views(diffs@) =~= views(old(diffs)@) + scalar_difference(setting, ScalarView::Boolean(p), ScalarView::Boolean(r)));
}

fn push_int(diffs: &mut Vec<ZoneSettingDifference>, setting: ZoneSetting, p: i32, r: i32)
    ensures
        views(final(diffs)@) == views(old(diffs)@) + scalar_difference(setting, ScalarView::Integer(p), ScalarView::Integer(r)),
{
    if p != r {
        diffs.push(ZoneSettingDifference::Scalar {
            setting,
            permanent: ScalarValue::Integer(p),
            runtime: ScalarValue::Integer(r),
        });
    }
    assert(views(diffs@) =~= views(old(diffs)@) + scalar_difference(setting, ScalarView::Integer(p), ScalarView::Integer(r)));
}

fn collection(diffs: &mut Vec<ZoneSettingDifference>, setting: ZoneSetting, p: Vec<CollectionValue>, r: Vec<CollectionValue>)
    ensures
        views(final(diffs)@) == views(old(diffs)@) + collection_difference(setting, views(p@).to_set(), views(r@).to_set()),
{
    let ghost ps = views(p@).to_set();
    let ghost rs = views(r@).to_set();
    if !same_members(&p, &r) {
        let permanent_only = sorted_difference(&p, &r);
        let runtime_only = sorted_difference(&r, &p);
        proof {
            lemma_sorted_listing::<CollectionValue>(views(permanent_only@));
            lemma_sorted_listing::<CollectionValue>(views(runtime_only@));
        }
        diffs.push(ZoneSettingDifference::Collection { setting, permanent_only, runtime_only });
    }
    assert(views(diffs@) =~= views(old(diffs)@) + collection_difference(setting, ps, rs));
}

fn text_values(v: &Vec<String>) -> (r: Vec<CollectionValue>)
    ensures
        views(r@).to_set() == text_members(v@),
{
    let mut r: Vec<CollectionValue> = Vec::new();
    let mut i: usize = 0;
    while i < v.len()
        invariant
            i <= v@.len(),
            r@.len() == i,
            forall|k: int| 0 <= k < i ==> (#[trigger] r@[k])@ == MemberView::Text(v@[k]@),
        decreases v@.len() - i,
    {
        r.push(CollectionValue::Text(v[i].clone()));
        i = i + 1;
    }
    let ghost m = v@.map_values(|x: String| MemberView::Text(x@));
    assert forall|y: MemberView| views(r@).contains(y) <==> m.contains(y) by {
        if views(r@).contains(y) {
            let k = choose|k: int| 0 <= k < views(r@).len() && #[trigger] views(r@)[k] == y;
            assert(m[k] == y);
        }
        if m.contains(y) {
            let k = choose|k: int| 0 <= k < m.len() && #[trigger] m[k] == y;
            assert(views(r@)[k] == r@[k]@);
        }
    }
    assert(views(r@).to_set() =~= m.to_set());
    r
}

fn pair_values(v: &Vec<(String, String)>) -> (r: Vec<CollectionValue>)
    ensures
        views(r@).to_set() == pair_members(v@),
{
    let mut r: Vec<CollectionValue> = Vec::new();
    let mut i: usize = 0;
    while i < v.len()
        invariant
            i <= v@.len(),
            r@.len() == i,
            forall|k: int| 0 <= k < i ==> (#[trigger] r@[k])@ == MemberView::Pair(v@[k].0@, v@[k].1@),
        decreases v@.len() - i,
    {
        r.push(CollectionValue::Pair(v[i].0.clone(), v[i].1.clone()));
        i = i + 1;
    }
    let ghost m = v@.map_values(|x: (String, String)| MemberView::Pair(x.0@, x.1@));
    assert forall|y: MemberView| views(r@).contains(y) <==> m.contains(y) by {
        if views(r@).contains(y) {
            let k = choose|k: int| 0 <= k < views(r@).len() && #[trigger] views(r@)[k] == y;
            assert(m[k] == y);
        }
        if m.contains(y) {
            let k = choose|k: int| 0 <= k < m.len() && #[trigger] m[k] == y;
            assert(views(r@)[k] == r@[k]@);
        }
    }
    assert(views(r@).to_set() =~= m.to_set());
    r
}

fn forward_values(v: &Vec<(String, String, String, String)>) -> (r: Vec<CollectionValue>)
    ensures
        views(r@).to_set() == forward_members(v@),
{
    let mut r: Vec<CollectionValue> = Vec::new();
    let mut i: usize = 0;
    while i < v.len()
        invariant
            i <= v@.len(),
            r@.len() == i,
            forall|k: int|
                0 <= k < i ==> (#[trigger] r@[k])@ == MemberView::ForwardPort(
                    v@[k].0@,
                    v@[k].1@,
                    v@[k].2@,
                    v@[k].3@,
                ),
        decreases v@.len() - i,
    {
        let item = &v[i];
        r.push(CollectionValue::ForwardPort(item.0.clone(), item.1.clone(), item.2.clone(), item.3.clone()));
        i = i + 1;
    }
    let ghost m = v@.map_values(
        |x: (String, String, String, String)| MemberView::ForwardPort(x.0@, x.1@, x.2@, x.3@),
    );
    assert forall|y: MemberView| views(r@).contains(y) <==> m.contains(y) by {
        if views(r@).contains(y) {
            let k = choose|k: int| 0 <= k < views(r@).len() && #[trigger] views(r@)[k] == y;
            assert(m[k] == y);
        }
        if m.contains(y) {
            let k = choose|k: int| 0 <= k < m.len() && #[trigger] m[k] == y;
            assert(views(r@)[k] == r@[k]@);
        }
    }
    assert(views(r@).to_set() =~= m.to_set());
    r
}

fn collection_text(diffs: &mut Vec<ZoneSettingDifference>, setting: ZoneSetting, p: &Vec<String>, r: &Vec<String>)
    ensures
        views(final(diffs)@) == views(old(diffs)@) + collection_difference(setting, text_members(p@), text_members(r@)),
{
    collection(diffs, setting, text_values(p), text_values(r));
}

fn collection_pairs(
    diffs: &mut Vec<ZoneSettingDifference>,
    setting: ZoneSetting,
    p: &Vec<(String, String)>,
    r: &Vec<(String, String)>,
)
    ensures
        views(final(diffs)@) == views(old(diffs)@) + collection_difference(setting, pair_members(p@), pair_members(r@)),
{
    collection(diffs, setting, pair_values(p), pair_values(r));
}

fn collection_forward_ports(
    diffs: &mut Vec<ZoneSettingDifference>,
    p: &Vec<(String, String, String, String)>,
    r: &Vec<(String, String, String, String)>,
)
    ensures
        views(final(diffs)@) == views(old(diffs)@) + collection_difference(
            ZoneSetting::ForwardPorts,
            forward_members(p@),
            forward_members(r@),
        ),
{
    collection(diffs, ZoneSetting::ForwardPorts, forward_values(p), forward_values(r));
}

/// Whether the comparison covered every dictionary key returned by firewalld.
#[derive(Clone, Debug, PartialEq, Eq)]
pub enum ComparisonCompleteness {
    /// Every returned key was understood.
    Complete,
    /// One or both dictionaries contained future or unsupported keys.
    Incomplete {
        /// Unknown permanent dictionary keys, as the permanent snapshot lists them.
        permanent_unknown: Vec<String>,
        /// Unknown runtime dictionary keys, as the runtime snapshot lists them.
        runtime_unknown: Vec<String>,
    },
}

/// The pure comparison of permanent and runtime settings for one zone.
#[derive(Clone, Debug, PartialEq, Eq)]
pub struct ZoneReconciliation {
    /// Typed known-setting differences.
    pub differences: Vec<ZoneSettingDifference>,
    /// Whether all settings returned by firewalld were understood.
    pub completeness: ComparisonCompleteness,
}

/// The completeness that a comparison of `p` and `r` reports: incomplete, carrying both
/// snapshots' unknown keys, as soon as either snapshot has one.
pub open spec fn completeness_of(p: ZoneSettingsSnapshot, r: ZoneSettingsSnapshot, c: ComparisonCompleteness) -> bool {
    if p.unknown_keys@.len() == 0 && r.unknown_keys@.len() == 0 {
        c is Complete
    } else {
        c matches ComparisonCompleteness::Incomplete { permanent_unknown, runtime_unknown }
            && views(permanent_unknown@) == views(p.unknown_keys@)
            && views(runtime_unknown@) == views(r.unknown_keys@)
    }
}

fn clone_strings(v: &Vec<String>) -> (r: Vec<String>)
    ensures
        views(r@) == views(v@),
{
    let mut r: Vec<String> = Vec::new();
    let mut i: usize = 0;
    while i < v.len()
        invariant
            i <= v@.len(),
            r@.len() == i,
            forall|k: int| 0 <= k < i ==> (#[trigger] r@[k])@ == v@[k]@,
        decreases v@.len() - i,
    {
        r.push(v[i].clone());
        i = i + 1;
    }
    assert(views(r@) =~= views(v@));
    r
}

impl ZoneReconciliation {
    /// Compare two snapshots without depending on collection ordering.
    pub fn compare(permanent: &ZoneSettingsSnapshot, runtime: &ZoneSettingsSnapshot) -> (r: Self)
        ensures
            views(r.differences@) == setting_differences(*permanent, *runtime),
            completeness_of(*permanent, *runtime, r.completeness),
    {
        let p = permanent;
        let r = runtime;
        let mut d: Vec<ZoneSettingDifference> = Vec::new();
        scalar(&mut d, ZoneSetting::ShortName, &p.short_name, &r.short_name);
        scalar(&mut d, ZoneSetting::Description, &p.description, &r.description);
        scalar(&mut d, ZoneSetting::Target, &p.target, &r.target);
        collection_text(&mut d, ZoneSetting::Services, &p.services, &r.services);
        collection_pairs(&mut d, ZoneSetting::Ports, &p.ports, &r.ports);
        collection_text(&mut d, ZoneSetting::Protocols, &p.protocols, &r.protocols);
        collection_pairs(&mut d, ZoneSetting::SourcePorts, &p.source_ports, &r.source_ports);
        collection_text(&mut d, ZoneSetting::IcmpBlocks, &p.icmp_blocks, &r.icmp_blocks);
        push_bool(&mut d, ZoneSetting::IcmpBlockInversion, p.icmp_block_inversion, r.icmp_block_inversion);
        push_bool(&mut d, ZoneSetting::Masquerade, p.masquerade, r.masquerade);
        collection_forward_ports(&mut d, &p.forward_ports, &r.forward_ports);
        collection_text(&mut d, ZoneSetting::Interfaces, &p.interfaces, &r.interfaces);
        collection_text(&mut d, ZoneSetting::Sources, &p.sources, &r.sources);
        collection_text(&mut d, ZoneSetting::RichRules, &p.rich_rules, &r.rich_rules);
        push_bool(&mut d, ZoneSetting::Forward, p.forward, r.forward);
        push_int(&mut d, ZoneSetting::IngressPriority, p.ingress_priority, r.ingress_priority);
        push_int(&mut d, ZoneSetting::EgressPriority, p.egress_priority, r.egress_priority);
        assert(views(d@) =~= setting_differences(*permanent, *runtime));
        let completeness = if p.unknown_keys.len() == 0 && r.unknown_keys.len() == 0 {
            ComparisonCompleteness::Complete
        } else {
            ComparisonCompleteness::Incomplete {
                permanent_unknown: clone_strings(&p.unknown_keys),
                runtime_unknown: clone_strings(&r.unknown_keys),
            }
        };
        ZoneReconciliation { differences: d, completeness }
    }
}


/// A difference seen from the other side: permanent and runtime swap places.
pub open spec fn swapped(d: DifferenceView) -> DifferenceView {
    match d {
        DifferenceView::Scalar { setting, permanent, runtime } => DifferenceView::Scalar {
            setting,
            permanent: runtime,
            runtime: permanent,
        },
        DifferenceView::Collection { setting, permanent_only, runtime_only } => DifferenceView::Collection {
            setting,
            permanent_only: runtime_only,
            runtime_only: permanent_only,
        },
    }
}

proof fn lemma_map_values_add(a: Seq<DifferenceView>, b: Seq<DifferenceView>, f: spec_fn(DifferenceView) -> DifferenceView)
    ensures
        (a + b).map_values(f) == a.map_values(f) + b.map_values(f),
{
    assert((a + b).map_values(f) =~= a.map_values(f) + b.map_values(f));
}

/// Comparing a snapshot with itself finds no difference, so such a
/// comparison is in sync exactly when the snapshot has no unknown key.
pub proof fn lemma_compare_reflexive(p: ZoneSettingsSnapshot, c: ComparisonCompleteness)
    requires
        completeness_of(p, p, c),
    ensures
        setting_differences(p, p).len() == 0,
        c is Complete <==> p.unknown_keys@.len() == 0,
{
    assert(setting_differences(p, p) =~= Seq::<DifferenceView>::empty());
}

/// Comparing runtime against permanent finds the same differences, in the
/// same order, as comparing permanent against runtime, each with its two
/// sides swapped.
pub proof fn lemma_compare_symmetric(p: ZoneSettingsSnapshot, r: ZoneSettingsSnapshot)
    ensures
        setting_differences(r, p) == setting_differences(p, r).map_values(|d: DifferenceView| swapped(d)),
{
    let f = |d: DifferenceView| swapped(d);
    let d0 = scalar_difference(ZoneSetting::ShortName, ScalarView::Text(p.short_name@), ScalarView::Text(r.short_name@));
    let e0 = scalar_difference(ZoneSetting::ShortName, ScalarView::Text(r.short_name@), ScalarView::Text(p.short_name@));
    assert(e0 =~= d0.map_values(f));
    let d1 = scalar_difference(ZoneSetting::Description, ScalarView::Text(p.description@), ScalarView::Text(r.description@));
    let e1 = scalar_difference(ZoneSetting::Description, ScalarView::Text(r.description@), ScalarView::Text(p.description@));
    assert(e1 =~= d1.map_values(f));
    let d2 = scalar_difference(ZoneSetting::Target, ScalarView::Text(p.target@), ScalarView::Text(r.target@));
    let e2 = scalar_difference(ZoneSetting::Target, ScalarView::Text(r.target@), ScalarView::Text(p.target@));
    assert(e2 =~= d2.map_values(f));
    let d3 = collection_difference(ZoneSetting::Services, text_members(p.services@), text_members(r.services@));
    let e3 = collection_difference(ZoneSetting::Services, text_members(r.services@), text_members(p.services@));
    assert(e3 =~= d3.map_values(f));
    let d4 = collection_difference(ZoneSetting::Ports, pair_members(p.ports@), pair_members(r.ports@));
    let e4 = collection_difference(ZoneSetting::Ports, pair_members(r.ports@), pair_members(p.ports@));
    assert(e4 =~= d4.map_values(f));
    let d5 = collection_difference(ZoneSetting::Protocols, text_members(p.protocols@), text_members(r.protocols@));
    let e5 = collection_difference(ZoneSetting::Protocols, text_members(r.protocols@), text_members(p.protocols@));
    assert(e5 =~= d5.map_values(f));
    let d6 = collection_difference(ZoneSetting::SourcePorts, pair_members(p.source_ports@), pair_members(r.source_ports@));
    let e6 = collection_difference(ZoneSetting::SourcePorts, pair_members(r.source_ports@), pair_members(p.source_ports@));
    assert(e6 =~= d6.map_values(f));
    let d7 = collection_difference(ZoneSetting::IcmpBlocks, text_members(p.icmp_blocks@), text_members(r.icmp_blocks@));
    let e7 = collection_difference(ZoneSetting::IcmpBlocks, text_members(r.icmp_blocks@), text_members(p.icmp_blocks@));
    assert(e7 =~= d7.map_values(f));
    let d8 = scalar_difference(ZoneSetting::IcmpBlockInversion, ScalarView::Boolean(p.icmp_block_inversion), ScalarView::Boolean(r.icmp_block_inversion));
    let e8 = scalar_difference(ZoneSetting::IcmpBlockInversion, ScalarView::Boolean(r.icmp_block_inversion), ScalarView::Boolean(p.icmp_block_inversion));
    assert(e8 =~= d8.map_values(f));
    let d9 = scalar_difference(ZoneSetting::Masquerade, ScalarView::Boolean(p.masquerade), ScalarView::Boolean(r.masquerade));
    let e9 = scalar_difference(ZoneSetting::Masquerade, ScalarView::Boolean(r.masquerade), ScalarView::Boolean(p.masquerade));
    assert(e9 =~= d9.map_values(f));
    let d10 = collection_difference(ZoneSetting::ForwardPorts, forward_members(p.forward_ports@), forward_members(r.forward_ports@));
    let e10 = collection_difference(ZoneSetting::ForwardPorts, forward_members(r.forward_ports@), forward_members(p.forward_ports@));
    assert(e10 =~= d10.map_values(f));
    let d11 = collection_difference(ZoneSetting::Interfaces, text_members(p.interfaces@), text_members(r.interfaces@));
    let e11 = collection_difference(ZoneSetting::Interfaces, text_members(r.interfaces@), text_members(p.interfaces@));
    assert(e11 =~= d11.map_values(f));
    let d12 = collection_difference(ZoneSetting::Sources, text_members(p.sources@), text_members(r.sources@));
    let e12 = collection_difference(ZoneSetting::Sources, text_members(r.sources@), text_members(p.sources@));
    assert(e12 =~= d12.map_values(f));
    let d13 = collection_difference(ZoneSetting::RichRules, text_members(p.rich_rules@), text_members(r.rich_rules@));
    let e13 = collection_difference(ZoneSetting::RichRules, text_members(r.rich_rules@), text_members(p.rich_rules@));
    assert(e13 =~= d13.map_values(f));
    let d14 = scalar_difference(ZoneSetting::Forward, ScalarView::Boolean(p.forward), ScalarView::Boolean(r.forward));
    let e14 = scalar_difference(ZoneSetting::Forward, ScalarView::Boolean(r.forward), ScalarView::Boolean(p.forward));
    assert(e14 =~= d14.map_values(f));
    let d15 = scalar_difference(ZoneSetting::IngressPriority, ScalarView::Integer(p.ingress_priority), ScalarView::Integer(r.ingress_priority));
    let e15 = scalar_difference(ZoneSetting::IngressPriority, ScalarView::Integer(r.ingress_priority), ScalarView::Integer(p.ingress_priority));
    assert(e15 =~= d15.map_values(f));
    let d16 = scalar_difference(ZoneSetting::EgressPriority, ScalarView::Integer(p.egress_priority), ScalarView::Integer(r.egress_priority));
    let e16 = scalar_difference(ZoneSetting::EgressPriority, ScalarView::Integer(r.egress_priority), ScalarView::Integer(p.egress_priority));
    assert(e16 =~= d16.map_values(f));
    let dd0 = d0;
    let ee0 = e0;
    let dd1 = dd0 + d1;
    let ee1 = ee0 + e1;
    lemma_map_values_add(dd0, d1, f);
    assert(ee1 =~= dd1.map_values(f));
    let dd2 = dd1 + d2;
    let ee2 = ee1 + e2;
    lemma_map_values_add(dd1, d2, f);
    assert(ee2 =~= dd2.map_values(f));
    let dd3 = dd2 + d3;
    let ee3 = ee2 + e3;
    lemma_map_values_add(dd2, d3, f);
    assert(ee3 =~= dd3.map_values(f));
    let dd4 = dd3 + d4;
    let ee4 = ee3 + e4;
    lemma_map_values_add(dd3, d4, f);
    assert(ee4 =~= dd4.map_values(f));
    let dd5 = dd4 + d5;
    let ee5 = ee4 + e5;
    lemma_map_values_add(dd4, d5, f);
    assert(ee5 =~= dd5.map_values(f));
    let dd6 = dd5 + d6;
    let ee6 = ee5 + e6;
    lemma_map_values_add(dd5, d6, f);
    assert(ee6 =~= dd6.map_values(f));
    let dd7 = dd6 + d7;
    let ee7 = ee6 + e7;
    lemma_map_values_add(dd6, d7, f);
    assert(ee7 =~= dd7.map_values(f));
    let dd8 = dd7 + d8;
    let ee8 = ee7 + e8;
    lemma_map_values_add(dd7, d8, f);
    assert(ee8 =~= dd8.map_values(f));
    let dd9 = dd8 + d9;
    let ee9 = ee8 + e9;
    lemma_map_values_add(dd8, d9, f);
    assert(ee9 =~= dd9.map_values(f));
    let dd10 = dd9 + d10;
    let ee10 = ee9 + e10;
    lemma_map_values_add(dd9, d10, f);
    assert(ee10 =~= dd10.map_values(f));
    let dd11 = dd10 + d11;
    let ee11 = ee10 + e11;
    lemma_map_values_add(dd10, d11, f);
    assert(ee11 =~= dd11.map_values(f));
    let dd12 = dd11 + d12;
    let ee12 = ee11 + e12;
    lemma_map_values_add(dd11, d12, f);
    assert(ee12 =~= dd12.map_values(f));
    let dd13 = dd12 + d13;
    let ee13 = ee12 + e13;
    lemma_map_values_add(dd12, d13, f);
    assert(ee13 =~= dd13.map_values(f));
    let dd14 = dd13 + d14;
    let ee14 = ee13 + e14;
    lemma_map_values_add(dd13, d14, f);
    assert(ee14 =~= dd14.map_values(f));
    let dd15 = dd14 + d15;
    let ee15 = ee14 + e15;
    lemma_map_values_add(dd14, d15, f);
    assert(ee15 =~= dd15.map_values(f));
    let dd16 = dd15 + d16;
    let ee16 = ee15 + e16;
    lemma_map_values_add(dd15, d16, f);
    assert(ee16 =~= dd16.map_values(f));
    assert(setting_differences(p, r) == dd16);
    assert(setting_differences(r, p) == ee16);
}

/// Whether two snapshots hold the same values, each collection holding the
/// same members in whatever order and multiplicity.
pub open spec fn same_content(p: ZoneSettingsSnapshot, q: ZoneSettingsSnapshot) -> bool {
    &&& p.short_name@ == q.short_name@
    &&& p.description@ == q.description@
    &&& p.target@ == q.target@
    &&& text_members(p.services@) == text_members(q.services@)
    &&& pair_members(p.ports@) == pair_members(q.ports@)
    &&& text_members(p.protocols@) == text_members(q.protocols@)
    &&& pair_members(p.source_ports@) == pair_members(q.source_ports@)
    &&& text_members(p.icmp_blocks@) == text_members(q.icmp_blocks@)
    &&& p.icmp_block_inversion == q.icmp_block_inversion
    &&& p.masquerade == q.masquerade
    &&& forward_members(p.forward_ports@) == forward_members(q.forward_ports@)
    &&& text_members(p.interfaces@) == text_members(q.interfaces@)
    &&& text_members(p.sources@) == text_members(q.sources@)
    &&& text_members(p.rich_rules@) == text_members(q.rich_rules@)
    &&& p.forward == q.forward
    &&& p.ingress_priority == q.ingress_priority
    &&& p.egress_priority == q.egress_priority
}

/// Reordering or repeating the members of any collection changes nothing
/// that a comparison reports, on either side.
pub proof fn lemma_compare_ignores_collection_order(
    p: ZoneSettingsSnapshot,
    q: ZoneSettingsSnapshot,
    r: ZoneSettingsSnapshot,
)
    requires
        same_content(p, q),
    ensures
        setting_differences(p, r) == setting_differences(q, r),
        setting_differences(r, p) == setting_differences(r, q),
{
}

/// The setting that a difference is about.
pub open spec fn difference_setting(d: DifferenceView) -> ZoneSetting {
    match d {
        DifferenceView::Scalar { setting, .. } => setting,
        DifferenceView::Collection { setting, .. } => setting,
    }
}

/// The predicate "is about setting `s`".
pub open spec fn about(s: ZoneSetting) -> spec_fn(DifferenceView) -> bool {
    |d: DifferenceView| difference_setting(d) == s
}

/// The value of a scalar setting in a snapshot, read from the field of that
/// name; `None` for a collection setting.
pub open spec fn scalar_field(p: ZoneSettingsSnapshot, s: ZoneSetting) -> Option<ScalarView> {
    match s {
        ZoneSetting::ShortName => Some(ScalarView::Text(p.short_name@)),
        ZoneSetting::Description => Some(ScalarView::Text(p.description@)),
        ZoneSetting::Target => Some(ScalarView::Text(p.target@)),
        ZoneSetting::IcmpBlockInversion => Some(ScalarView::Boolean(p.icmp_block_inversion)),
        ZoneSetting::Masquerade => Some(ScalarView::Boolean(p.masquerade)),
        ZoneSetting::Forward => Some(ScalarView::Boolean(p.forward)),
        ZoneSetting::IngressPriority => Some(ScalarView::Integer(p.ingress_priority)),
        ZoneSetting::EgressPriority => Some(ScalarView::Integer(p.egress_priority)),
        _ => None,
    }
}

/// The members of a collection setting in a snapshot, read from the field of
/// that name; empty for a scalar setting.
pub open spec fn member_field(p: ZoneSettingsSnapshot, s: ZoneSetting) -> Set<MemberView> {
    match s {
        ZoneSetting::Services => text_members(p.services@),
        ZoneSetting::Ports => pair_members(p.ports@),
        ZoneSetting::Protocols => text_members(p.protocols@),
        ZoneSetting::SourcePorts => pair_members(p.source_ports@),
        ZoneSetting::IcmpBlocks => text_members(p.icmp_blocks@),
        ZoneSetting::ForwardPorts => forward_members(p.forward_ports@),
        ZoneSetting::Interfaces => text_members(p.interfaces@),
        ZoneSetting::Sources => text_members(p.sources@),
        ZoneSetting::RichRules => text_members(p.rich_rules@),
        _ => Set::empty(),
    }
}

/// What a comparison reports about setting `s`: nothing when both snapshots
/// hold the same content for it; otherwise one difference carrying both
/// values of a scalar, or, for a collection, the members only permanent has
/// and the members only runtime has, each listed in order.
pub open spec fn reported_for(p: ZoneSettingsSnapshot, r: ZoneSettingsSnapshot, s: ZoneSetting) -> Seq<DifferenceView> {
    match (scalar_field(p, s), scalar_field(r, s)) {
        (Some(a), Some(b)) => if a != b {
            seq![DifferenceView::Scalar { setting: s, permanent: a, runtime: b }]
        } else {
            Seq::empty()
        },
        _ => if member_field(p, s) != member_field(r, s) {
            seq![DifferenceView::Collection {
                setting: s,
                permanent_only: sorted_listing::<CollectionValue>(member_field(p, s).difference(member_field(r, s))),
                runtime_only: sorted_listing::<CollectionValue>(member_field(r, s).difference(member_field(p, s))),
            }]
        } else {
            Seq::empty()
        },
    }
}

proof fn lemma_scalar_piece_filter(t: ZoneSetting, a: ScalarView, b: ScalarView, s: ZoneSetting)
    ensures
        scalar_difference(t, a, b).filter(about(s)) == if t == s {
            scalar_difference(t, a, b)
        } else {
            Seq::<DifferenceView>::empty()
        },
{
    reveal(Seq::filter);
    let x = scalar_difference(t, a, b);
    if a != b {
        assert(x =~= Seq::<DifferenceView>::empty().push(x[0]));
        lemma_filter_push(Seq::<DifferenceView>::empty(), x[0], about(s));
    }
}

proof fn lemma_collection_piece_filter(t: ZoneSetting, a: Set<MemberView>, b: Set<MemberView>, s: ZoneSetting)
    ensures
        collection_difference(t, a, b).filter(about(s)) == if t == s {
            collection_difference(t, a, b)
        } else {
            Seq::<DifferenceView>::empty()
        },
{
    reveal(Seq::filter);
    let x = collection_difference(t, a, b);
    if a != b {
        assert(x =~= Seq::<DifferenceView>::empty().push(x[0]));
        lemma_filter_push(Seq::<DifferenceView>::empty(), x[0], about(s));
    }
}

proof fn lemma_filter_differences(p: ZoneSettingsSnapshot, r: ZoneSettingsSnapshot, s: ZoneSetting)
    ensures
        setting_differences(p, r).filter(about(s)) == scalar_difference(ZoneSetting::ShortName, ScalarView::Text(p.short_name@), ScalarView::Text(r.short_name@)).filter(about(s)) + scalar_difference(ZoneSetting::Description, ScalarView::Text(p.description@), ScalarView::Text(r.description@)).filter(about(s)) + scalar_difference(ZoneSetting::Target, ScalarView::Text(p.target@), ScalarView::Text(r.target@)).filter(about(s)) + collection_difference(ZoneSetting::Services, text_members(p.services@), text_members(r.services@)).filter(about(s)) + collection_difference(ZoneSetting::Ports, pair_members(p.ports@), pair_members(r.ports@)).filter(about(s)) + collection_difference(ZoneSetting::Protocols, text_members(p.protocols@), text_members(r.protocols@)).filter(about(s)) + collection_difference(ZoneSetting::SourcePorts, pair_members(p.source_ports@), pair_members(r.source_ports@)).filter(about(s)) + collection_difference(ZoneSetting::IcmpBlocks, text_members(p.icmp_blocks@), text_members(r.icmp_blocks@)).filter(about(s)) + scalar_difference(ZoneSetting::IcmpBlockInversion, ScalarView::Boolean(p.icmp_block_inversion), ScalarView::Boolean(r.icmp_block_inversion)).filter(about(s)) + scalar_difference(ZoneSetting::Masquerade, ScalarView::Boolean(p.masquerade), ScalarView::Boolean(r.masquerade)).filter(about(s)) + collection_difference(ZoneSetting::ForwardPorts, forward_members(p.forward_ports@), forward_members(r.forward_ports@)).filter(about(s)) + collection_difference(ZoneSetting::Interfaces, text_members(p.interfaces@), text_members(r.interfaces@)).filter(about(s)) + collection_difference(ZoneSetting::Sources, text_members(p.sources@), text_members(r.sources@)).filter(about(s)) + collection_difference(ZoneSetting::RichRules, text_members(p.rich_rules@), text_members(r.rich_rules@)).filter(about(s)) + scalar_difference(ZoneSetting::Forward, ScalarView::Boolean(p.forward), ScalarView::Boolean(r.forward)).filter(about(s)) + scalar_difference(ZoneSetting::IngressPriority, ScalarView::Integer(p.ingress_priority), ScalarView::Integer(r.ingress_priority)).filter(about(s)) + scalar_difference(ZoneSetting::EgressPriority, ScalarView::Integer(p.egress_priority), ScalarView::Integer(r.egress_priority)).filter(about(s)),
{
    let h = about(s);
    let d0 = scalar_difference(ZoneSetting::ShortName, ScalarView::Text(p.short_name@), ScalarView::Text(r.short_name@));
    let d1 = scalar_difference(ZoneSetting::Description, ScalarView::Text(p.description@), ScalarView::Text(r.description@));
    let d2 = scalar_difference(ZoneSetting::Target, ScalarView::Text(p.target@), ScalarView::Text(r.target@));
    let d3 = collection_difference(ZoneSetting::Services, text_members(p.services@), text_members(r.services@));
    let d4 = collection_difference(ZoneSetting::Ports, pair_members(p.ports@), pair_members(r.ports@));
    let d5 = collection_difference(ZoneSetting::Protocols, text_members(p.protocols@), text_members(r.protocols@));
    let d6 = collection_difference(ZoneSetting::SourcePorts, pair_members(p.source_ports@), pair_members(r.source_ports@));
    let d7 = collection_difference(ZoneSetting::IcmpBlocks, text_members(p.icmp_blocks@), text_members(r.icmp_blocks@));
    let d8 = scalar_difference(ZoneSetting::IcmpBlockInversion, ScalarView::Boolean(p.icmp_block_inversion), ScalarView::Boolean(r.icmp_block_inversion));
    let d9 = scalar_difference(ZoneSetting::Masquerade, ScalarView::Boolean(p.masquerade), ScalarView::Boolean(r.masquerade));
    let d10 = collection_difference(ZoneSetting::ForwardPorts, forward_members(p.forward_ports@), forward_members(r.forward_ports@));
    let d11 = collection_difference(ZoneSetting::Interfaces, text_members(p.interfaces@), text_members(r.interfaces@));
    let d12 = collection_difference(ZoneSetting::Sources, text_members(p.sources@), text_members(r.sources@));
    let d13 = collection_difference(ZoneSetting::RichRules, text_members(p.rich_rules@), text_members(r.rich_rules@));
    let d14 = scalar_difference(ZoneSetting::Forward, ScalarView::Boolean(p.forward), ScalarView::Boolean(r.forward));
    let d15 = scalar_difference(ZoneSetting::IngressPriority, ScalarView::Integer(p.ingress_priority), ScalarView::Integer(r.ingress_priority));
    let d16 = scalar_difference(ZoneSetting::EgressPriority, ScalarView::Integer(p.egress_priority), ScalarView::Integer(r.egress_priority));
    let dd0 = d0;
    let dd1 = dd0 + d1;
    lemma_filter_append(dd0, d1, h);
    let dd2 = dd1 + d2;
    lemma_filter_append(dd1, d2, h);
    let dd3 = dd2 + d3;
    lemma_filter_append(dd2, d3, h);
    let dd4 = dd3 + d4;
    lemma_filter_append(dd3, d4, h);
    let dd5 = dd4 + d5;
    lemma_filter_append(dd4, d5, h);
    let dd6 = dd5 + d6;
    lemma_filter_append(dd5, d6, h);
    let dd7 = dd6 + d7;
    lemma_filter_append(dd6, d7, h);
    let dd8 = dd7 + d8;
    lemma_filter_append(dd7, d8, h);
    let dd9 = dd8 + d9;
    lemma_filter_append(dd8, d9, h);
    let dd10 = dd9 + d10;
    lemma_filter_append(dd9, d10, h);
    let dd11 = dd10 + d11;
    lemma_filter_append(dd10, d11, h);
    let dd12 = dd11 + d12;
    lemma_filter_append(dd11, d12, h);
    let dd13 = dd12 + d13;
    lemma_filter_append(dd12, d13, h);
    let dd14 = dd13 + d14;
    lemma_filter_append(dd13, d14, h);
    let dd15 = dd14 + d15;
    lemma_filter_append(dd14, d15, h);
    let dd16 = dd15 + d16;
    lemma_filter_append(dd15, d16, h);
    assert(setting_differences(p, r) == dd16);
}

proof fn lemma_reports_short_name(p: ZoneSettingsSnapshot, r: ZoneSettingsSnapshot)
    ensures
        setting_differences(p, r).filter(about(ZoneSetting::ShortName)) == reported_for(p, r, ZoneSetting::ShortName),
{
    lemma_filter_differences(p, r, ZoneSetting::ShortName);
    lemma_scalar_piece_filter(ZoneSetting::ShortName, ScalarView::Text(p.short_name@), ScalarView::Text(r.short_name@), ZoneSetting::ShortName);
    lemma_scalar_piece_filter(ZoneSetting::Description, ScalarView::Text(p.description@), ScalarView::Text(r.description@), ZoneSetting::ShortName);
    lemma_scalar_piece_filter(ZoneSetting::Target, ScalarView::Text(p.target@), ScalarView::Text(r.target@), ZoneSetting::ShortName);
    lemma_collection_piece_filter(ZoneSetting::Services, text_members(p.services@), text_members(r.services@), ZoneSetting::ShortName);
    lemma_collection_piece_filter(ZoneSetting::Ports, pair_members(p.ports@), pair_members(r.ports@), ZoneSetting::ShortName);
    lemma_collection_piece_filter(ZoneSetting::Protocols, text_members(p.protocols@), text_members(r.protocols@), ZoneSetting::ShortName);
    lemma_collection_piece_filter(ZoneSetting::SourcePorts, pair_members(p.source_ports@), pair_members(r.source_ports@), ZoneSetting::ShortName);
    lemma_collection_piece_filter(ZoneSetting::IcmpBlocks, text_members(p.icmp_blocks@), text_members(r.icmp_blocks@), ZoneSetting::ShortName);
    lemma_scalar_piece_filter(ZoneSetting::IcmpBlockInversion, ScalarView::Boolean(p.icmp_block_inversion), ScalarView::Boolean(r.icmp_block_inversion), ZoneSetting::ShortName);
    lemma_scalar_piece_filter(ZoneSetting::Masquerade, ScalarView::Boolean(p.masquerade), ScalarView::Boolean(r.masquerade), ZoneSetting::ShortName);
    lemma_collection_piece_filter(ZoneSetting::ForwardPorts, forward_members(p.forward_ports@), forward_members(r.forward_ports@), ZoneSetting::ShortName);
    lemma_collection_piece_filter(ZoneSetting::Interfaces, text_members(p.interfaces@), text_members(r.interfaces@), ZoneSetting::ShortName);
    lemma_collection_piece_filter(ZoneSetting::Sources, text_members(p.sources@), text_members(r.sources@), ZoneSetting::ShortName);
    lemma_collection_piece_filter(ZoneSetting::RichRules, text_members(p.rich_rules@), text_members(r.rich_rules@), ZoneSetting::ShortName);
    lemma_scalar_piece_filter(ZoneSetting::Forward, ScalarView::Boolean(p.forward), ScalarView::Boolean(r.forward), ZoneSetting::ShortName);
    lemma_scalar_piece_filter(ZoneSetting::IngressPriority, ScalarView::Integer(p.ingress_priority), ScalarView::Integer(r.ingress_priority), ZoneSetting::ShortName);
    lemma_scalar_piece_filter(ZoneSetting::EgressPriority, ScalarView::Integer(p.egress_priority), ScalarView::Integer(r.egress_priority), ZoneSetting::ShortName);
    assert(setting_differences(p, r).filter(about(ZoneSetting::ShortName)) =~= reported_for(p, r, ZoneSetting::ShortName));
}

proof fn lemma_reports_description(p: ZoneSettingsSnapshot, r: ZoneSettingsSnapshot)
    ensures
        setting_differences(p, r).filter(about(ZoneSetting::Description)) == reported_for(p, r, ZoneSetting::Description),
{
    lemma_filter_differences(p, r, ZoneSetting::Description);
    lemma_scalar_piece_filter(ZoneSetting::ShortName, ScalarView::Text(p.short_name@), ScalarView::Text(r.short_name@), ZoneSetting::Description);
    lemma_scalar_piece_filter(ZoneSetting::Description, ScalarView::Text(p.description@), ScalarView::Text(r.description@), ZoneSetting::Description);
    lemma_scalar_piece_filter(ZoneSetting::Target, ScalarView::Text(p.target@), ScalarView::Text(r.target@), ZoneSetting::Description);
    lemma_collection_piece_filter(ZoneSetting::Services, text_members(p.services@), text_members(r.services@), ZoneSetting::Description);
    lemma_collection_piece_filter(ZoneSetting::Ports, pair_members(p.ports@), pair_members(r.ports@), ZoneSetting::Description);
    lemma_collection_piece_filter(ZoneSetting::Protocols, text_members(p.protocols@), text_members(r.protocols@), ZoneSetting::Description);
    lemma_collection_piece_filter(ZoneSetting::SourcePorts, pair_members(p.source_ports@), pair_members(r.source_ports@), ZoneSetting::Description);
    lemma_collection_piece_filter(ZoneSetting::IcmpBlocks, text_members(p.icmp_blocks@), text_members(r.icmp_blocks@), ZoneSetting::Description);
    lemma_scalar_piece_filter(ZoneSetting::IcmpBlockInversion, ScalarView::Boolean(p.icmp_block_inversion), ScalarView::Boolean(r.icmp_block_inversion), ZoneSetting::Description);
    lemma_scalar_piece_filter(ZoneSetting::Masquerade, ScalarView::Boolean(p.masquerade), ScalarView::Boolean(r.masquerade), ZoneSetting::Description);
    lemma_collection_piece_filter(ZoneSetting::ForwardPorts, forward_members(p.forward_ports@), forward_members(r.forward_ports@), ZoneSetting::Description);
    lemma_collection_piece_filter(ZoneSetting::Interfaces, text_members(p.interfaces@), text_members(r.interfaces@), ZoneSetting::Description);
    lemma_collection_piece_filter(ZoneSetting::Sources, text_members(p.sources@), text_members(r.sources@), ZoneSetting::Description);
    lemma_collection_piece_filter(ZoneSetting::RichRules, text_members(p.rich_rules@), text_members(r.rich_rules@), ZoneSetting::Description);
    lemma_scalar_piece_filter(ZoneSetting::Forward, ScalarView::Boolean(p.forward), ScalarView::Boolean(r.forward), ZoneSetting::Description);
    lemma_scalar_piece_filter(ZoneSetting::IngressPriority, ScalarView::Integer(p.ingress_priority), ScalarView::Integer(r.ingress_priority), ZoneSetting::Description);
    lemma_scalar_piece_filter(ZoneSetting::EgressPriority, ScalarView::Integer(p.egress_priority), ScalarView::Integer(r.egress_priority), ZoneSetting::Description);
    assert(setting_differences(p, r).filter(about(ZoneSetting::Description)) =~= reported_for(p, r, ZoneSetting::Description));
}

proof fn lemma_reports_target(p: ZoneSettingsSnapshot, r: ZoneSettingsSnapshot)
    ensures
        setting_differences(p, r).filter(about(ZoneSetting::Target)) == reported_for(p, r, ZoneSetting::Target),
{
    lemma_filter_differences(p, r, ZoneSetting::Target);
    lemma_scalar_piece_filter(ZoneSetting::ShortName, ScalarView::Text(p.short_name@), ScalarView::Text(r.short_name@), ZoneSetting::Target);
    lemma_scalar_piece_filter(ZoneSetting::Description, ScalarView::Text(p.description@), ScalarView::Text(r.description@), ZoneSetting::Target);
    lemma_scalar_piece_filter(ZoneSetting::Target, ScalarView::Text(p.target@), ScalarView::Text(r.target@), ZoneSetting::Target);
    lemma_collection_piece_filter(ZoneSetting::Services, text_members(p.services@), text_members(r.services@), ZoneSetting::Target);
    lemma_collection_piece_filter(ZoneSetting::Ports, pair_members(p.ports@), pair_members(r.ports@), ZoneSetting::Target);
    lemma_collection_piece_filter(ZoneSetting::Protocols, text_members(p.protocols@), text_members(r.protocols@), ZoneSetting::Target);
    lemma_collection_piece_filter(ZoneSetting::SourcePorts, pair_members(p.source_ports@), pair_members(r.source_ports@), ZoneSetting::Target);
    lemma_collection_piece_filter(ZoneSetting::IcmpBlocks, text_members(p.icmp_blocks@), text_members(r.icmp_blocks@), ZoneSetting::Target);
    lemma_scalar_piece_filter(ZoneSetting::IcmpBlockInversion, ScalarView::Boolean(p.icmp_block_inversion), ScalarView::Boolean(r.icmp_block_inversion), ZoneSetting::Target);
    lemma_scalar_piece_filter(ZoneSetting::Masquerade, ScalarView::Boolean(p.masquerade), ScalarView::Boolean(r.masquerade), ZoneSetting::Target);
    lemma_collection_piece_filter(ZoneSetting::ForwardPorts, forward_members(p.forward_ports@), forward_members(r.forward_ports@), ZoneSetting::Target);
    lemma_collection_piece_filter(ZoneSetting::Interfaces, text_members(p.interfaces@), text_members(r.interfaces@), ZoneSetting::Target);
    lemma_collection_piece_filter(ZoneSetting::Sources, text_members(p.sources@), text_members(r.sources@), ZoneSetting::Target);
    lemma_collection_piece_filter(ZoneSetting::RichRules, text_members(p.rich_rules@), text_members(r.rich_rules@), ZoneSetting::Target);
    lemma_scalar_piece_filter(ZoneSetting::Forward, ScalarView::Boolean(p.forward), ScalarView::Boolean(r.forward), ZoneSetting::Target);
    lemma_scalar_piece_filter(ZoneSetting::IngressPriority, ScalarView::Integer(p.ingress_priority), ScalarView::Integer(r.ingress_priority), ZoneSetting::Target);
    lemma_scalar_piece_filter(ZoneSetting::EgressPriority, ScalarView::Integer(p.egress_priority), ScalarView::Integer(r.egress_priority), ZoneSetting::Target);
    assert(setting_differences(p, r).filter(about(ZoneSetting::Target)) =~= reported_for(p, r, ZoneSetting::Target));
}

proof fn lemma_reports_services(p: ZoneSettingsSnapshot, r: ZoneSettingsSnapshot)
    ensures
        setting_differences(p, r).filter(about(ZoneSetting::Services)) == reported_for(p, r, ZoneSetting::Services),
{
    lemma_filter_differences(p, r, ZoneSetting::Services);
    lemma_scalar_piece_filter(ZoneSetting::ShortName, ScalarView::Text(p.short_name@), ScalarView::Text(r.short_name@), ZoneSetting::Services);
    lemma_scalar_piece_filter(ZoneSetting::Description, ScalarView::Text(p.description@), ScalarView::Text(r.description@), ZoneSetting::Services);
    lemma_scalar_piece_filter(ZoneSetting::Target, ScalarView::Text(p.target@), ScalarView::Text(r.target@), ZoneSetting::Services);
    lemma_collection_piece_filter(ZoneSetting::Services, text_members(p.services@), text_members(r.services@), ZoneSetting::Services);
    lemma_collection_piece_filter(ZoneSetting::Ports, pair_members(p.ports@), pair_members(r.ports@), ZoneSetting::Services);
    lemma_collection_piece_filter(ZoneSetting::Protocols, text_members(p.protocols@), text_members(r.protocols@), ZoneSetting::Services);
    lemma_collection_piece_filter(ZoneSetting::SourcePorts, pair_members(p.source_ports@), pair_members(r.source_ports@), ZoneSetting::Services);
    lemma_collection_piece_filter(ZoneSetting::IcmpBlocks, text_members(p.icmp_blocks@), text_members(r.icmp_blocks@), ZoneSetting::Services);
    lemma_scalar_piece_filter(ZoneSetting::IcmpBlockInversion, ScalarView::Boolean(p.icmp_block_inversion), ScalarView::Boolean(r.icmp_block_inversion), ZoneSetting::Services);
    lemma_scalar_piece_filter(ZoneSetting::Masquerade, ScalarView::Boolean(p.masquerade), ScalarView::Boolean(r.masquerade), ZoneSetting::Services);
    lemma_collection_piece_filter(ZoneSetting::ForwardPorts, forward_members(p.forward_ports@), forward_members(r.forward_ports@), ZoneSetting::Services);
    lemma_collection_piece_filter(ZoneSetting::Interfaces, text_members(p.interfaces@), text_members(r.interfaces@), ZoneSetting::Services);
    lemma_collection_piece_filter(ZoneSetting::Sources, text_members(p.sources@), text_members(r.sources@), ZoneSetting::Services);
    lemma_collection_piece_filter(ZoneSetting::RichRules, text_members(p.rich_rules@), text_members(r.rich_rules@), ZoneSetting::Services);
    lemma_scalar_piece_filter(ZoneSetting::Forward, ScalarView::Boolean(p.forward), ScalarView::Boolean(r.forward), ZoneSetting::Services);
    lemma_scalar_piece_filter(ZoneSetting::IngressPriority, ScalarView::Integer(p.ingress_priority), ScalarView::Integer(r.ingress_priority), ZoneSetting::Services);
    lemma_scalar_piece_filter(ZoneSetting::EgressPriority, ScalarView::Integer(p.egress_priority), ScalarView::Integer(r.egress_priority), ZoneSetting::Services);
    assert(setting_differences(p, r).filter(about(ZoneSetting::Services)) =~= reported_for(p, r, ZoneSetting::Services));
}

proof fn lemma_reports_ports(p: ZoneSettingsSnapshot, r: ZoneSettingsSnapshot)
    ensures
        setting_differences(p, r).filter(about(ZoneSetting::Ports)) == reported_for(p, r, ZoneSetting::Ports),
{
    lemma_filter_differences(p, r, ZoneSetting::Ports);
    lemma_scalar_piece_filter(ZoneSetting::ShortName, ScalarView::Text(p.short_name@), ScalarView::Text(r.short_name@), ZoneSetting::Ports);
    lemma_scalar_piece_filter(ZoneSetting::Description, ScalarView::Text(p.description@), ScalarView::Text(r.description@), ZoneSetting::Ports);
    lemma_scalar_piece_filter(ZoneSetting::Target, ScalarView::Text(p.target@), ScalarView::Text(r.target@), ZoneSetting::Ports);
    lemma_collection_piece_filter(ZoneSetting::Services, text_members(p.services@), text_members(r.services@), ZoneSetting::Ports);
    lemma_collection_piece_filter(ZoneSetting::Ports, pair_members(p.ports@), pair_members(r.ports@), ZoneSetting::Ports);
    lemma_collection_piece_filter(ZoneSetting::Protocols, text_members(p.protocols@), text_members(r.protocols@), ZoneSetting::Ports);
    lemma_collection_piece_filter(ZoneSetting::SourcePorts, pair_members(p.source_ports@), pair_members(r.source_ports@), ZoneSetting::Ports);
    lemma_collection_piece_filter(ZoneSetting::IcmpBlocks, text_members(p.icmp_blocks@), text_members(r.icmp_blocks@), ZoneSetting::Ports);
    lemma_scalar_piece_filter(ZoneSetting::IcmpBlockInversion, ScalarView::Boolean(p.icmp_block_inversion), ScalarView::Boolean(r.icmp_block_inversion), ZoneSetting::Ports);
    lemma_scalar_piece_filter(ZoneSetting::Masquerade, ScalarView::Boolean(p.masquerade), ScalarView::Boolean(r.masquerade), ZoneSetting::Ports);
    lemma_collection_piece_filter(ZoneSetting::ForwardPorts, forward_members(p.forward_ports@), forward_members(r.forward_ports@), ZoneSetting::Ports);
    lemma_collection_piece_filter(ZoneSetting::Interfaces, text_members(p.interfaces@), text_members(r.interfaces@), ZoneSetting::Ports);
    lemma_collection_piece_filter(ZoneSetting::Sources, text_members(p.sources@), text_members(r.sources@), ZoneSetting::Ports);
    lemma_collection_piece_filter(ZoneSetting::RichRules, text_members(p.rich_rules@), text_members(r.rich_rules@), ZoneSetting::Ports);
    lemma_scalar_piece_filter(ZoneSetting::Forward, ScalarView::Boolean(p.forward), ScalarView::Boolean(r.forward), ZoneSetting::Ports);
    lemma_scalar_piece_filter(ZoneSetting::IngressPriority, ScalarView::Integer(p.ingress_priority), ScalarView::Integer(r.ingress_priority), ZoneSetting::Ports);
    lemma_scalar_piece_filter(ZoneSetting::EgressPriority, ScalarView::Integer(p.egress_priority), ScalarView::Integer(r.egress_priority), ZoneSetting::Ports);
    assert(setting_differences(p, r).filter(about(ZoneSetting::Ports)) =~= reported_for(p, r, ZoneSetting::Ports));
}

proof fn lemma_reports_protocols(p: ZoneSettingsSnapshot, r: ZoneSettingsSnapshot)
    ensures
        setting_differences(p, r).filter(about(ZoneSetting::Protocols)) == reported_for(p, r, ZoneSetting::Protocols),
{
    lemma_filter_differences(p, r, ZoneSetting::Protocols);
    lemma_scalar_piece_filter(ZoneSetting::ShortName, ScalarView::Text(p.short_name@), ScalarView::Text(r.short_name@), ZoneSetting::Protocols);
    lemma_scalar_piece_filter(ZoneSetting::Description, ScalarView::Text(p.description@), ScalarView::Text(r.description@), ZoneSetting::Protocols);
    lemma_scalar_piece_filter(ZoneSetting::Target, ScalarView::Text(p.target@), ScalarView::Text(r.target@), ZoneSetting::Protocols);
    lemma_collection_piece_filter(ZoneSetting::Services, text_members(p.services@), text_members(r.services@), ZoneSetting::Protocols);
    lemma_collection_piece_filter(ZoneSetting::Ports, pair_members(p.ports@), pair_members(r.ports@), ZoneSetting::Protocols);
    lemma_collection_piece_filter(ZoneSetting::Protocols, text_members(p.protocols@), text_members(r.protocols@), ZoneSetting::Protocols);
    lemma_collection_piece_filter(ZoneSetting::SourcePorts, pair_members(p.source_ports@), pair_members(r.source_ports@), ZoneSetting::Protocols);
    lemma_collection_piece_filter(ZoneSetting::IcmpBlocks, text_members(p.icmp_blocks@), text_members(r.icmp_blocks@), ZoneSetting::Protocols);
    lemma_scalar_piece_filter(ZoneSetting::IcmpBlockInversion, ScalarView::Boolean(p.icmp_block_inversion), ScalarView::Boolean(r.icmp_block_inversion), ZoneSetting::Protocols);
    lemma_scalar_piece_filter(ZoneSetting::Masquerade, ScalarView::Boolean(p.masquerade), ScalarView::Boolean(r.masquerade), ZoneSetting::Protocols);
    lemma_collection_piece_filter(ZoneSetting::ForwardPorts, forward_members(p.forward_ports@), forward_members(r.forward_ports@), ZoneSetting::Protocols);
    lemma_collection_piece_filter(ZoneSetting::Interfaces, text_members(p.interfaces@), text_members(r.interfaces@), ZoneSetting::Protocols);
    lemma_collection_piece_filter(ZoneSetting::Sources, text_members(p.sources@), text_members(r.sources@), ZoneSetting::Protocols);
    lemma_collection_piece_filter(ZoneSetting::RichRules, text_members(p.rich_rules@), text_members(r.rich_rules@), ZoneSetting::Protocols);
    lemma_scalar_piece_filter(ZoneSetting::Forward, ScalarView::Boolean(p.forward), ScalarView::Boolean(r.forward), ZoneSetting::Protocols);
    lemma_scalar_piece_filter(ZoneSetting::IngressPriority, ScalarView::Integer(p.ingress_priority), ScalarView::Integer(r.ingress_priority), ZoneSetting::Protocols);
    lemma_scalar_piece_filter(ZoneSetting::EgressPriority, ScalarView::Integer(p.egress_priority), ScalarView::Integer(r.egress_priority), ZoneSetting::Protocols);
    assert(setting_differences(p, r).filter(about(ZoneSetting::Protocols)) =~= reported_for(p, r, ZoneSetting::Protocols));
}

proof fn lemma_reports_source_ports(p: ZoneSettingsSnapshot, r: ZoneSettingsSnapshot)
    ensures
        setting_differences(p, r).filter(about(ZoneSetting::SourcePorts)) == reported_for(p, r, ZoneSetting::SourcePorts),
{
    lemma_filter_differences(p, r, ZoneSetting::SourcePorts);
    lemma_scalar_piece_filter(ZoneSetting::ShortName, ScalarView::Text(p.short_name@), ScalarView::Text(r.short_name@), ZoneSetting::SourcePorts);
    lemma_scalar_piece_filter(ZoneSetting::Description, ScalarView::Text(p.description@), ScalarView::Text(r.description@), ZoneSetting::SourcePorts);
    lemma_scalar_piece_filter(ZoneSetting::Target, ScalarView::Text(p.target@), ScalarView::Text(r.target@), ZoneSetting::SourcePorts);
    lemma_collection_piece_filter(ZoneSetting::Services, text_members(p.services@), text_members(r.services@), ZoneSetting::SourcePorts);
    lemma_collection_piece_filter(ZoneSetting::Ports, pair_members(p.ports@), pair_members(r.ports@), ZoneSetting::SourcePorts);
    lemma_collection_piece_filter(ZoneSetting::Protocols, text_members(p.protocols@), text_members(r.protocols@), ZoneSetting::SourcePorts);
    lemma_collection_piece_filter(ZoneSetting::SourcePorts, pair_members(p.source_ports@), pair_members(r.source_ports@), ZoneSetting::SourcePorts);
    lemma_collection_piece_filter(ZoneSetting::IcmpBlocks, text_members(p.icmp_blocks@), text_members(r.icmp_blocks@), ZoneSetting::SourcePorts);
    lemma_scalar_piece_filter(ZoneSetting::IcmpBlockInversion, ScalarView::Boolean(p.icmp_block_inversion), ScalarView::Boolean(r.icmp_block_inversion), ZoneSetting::SourcePorts);
    lemma_scalar_piece_filter(ZoneSetting::Masquerade, ScalarView::Boolean(p.masquerade), ScalarView::Boolean(r.masquerade), ZoneSetting::SourcePorts);
    lemma_collection_piece_filter(ZoneSetting::ForwardPorts, forward_members(p.forward_ports@), forward_members(r.forward_ports@), ZoneSetting::SourcePorts);
    lemma_collection_piece_filter(ZoneSetting::Interfaces, text_members(p.interfaces@), text_members(r.interfaces@), ZoneSetting::SourcePorts);
    lemma_collection_piece_filter(ZoneSetting::Sources, text_members(p.sources@), text_members(r.sources@), ZoneSetting::SourcePorts);
    lemma_collection_piece_filter(ZoneSetting::RichRules, text_members(p.rich_rules@), text_members(r.rich_rules@), ZoneSetting::SourcePorts);
    lemma_scalar_piece_filter(ZoneSetting::Forward, ScalarView::Boolean(p.forward), ScalarView::Boolean(r.forward), ZoneSetting::SourcePorts);
    lemma_scalar_piece_filter(ZoneSetting::IngressPriority, ScalarView::Integer(p.ingress_priority), ScalarView::Integer(r.ingress_priority), ZoneSetting::SourcePorts);
    lemma_scalar_piece_filter(ZoneSetting::EgressPriority, ScalarView::Integer(p.egress_priority), ScalarView::Integer(r.egress_priority), ZoneSetting::SourcePorts);
    assert(setting_differences(p, r).filter(about(ZoneSetting::SourcePorts)) =~= reported_for(p, r, ZoneSetting::SourcePorts));
}

proof fn lemma_reports_icmp_blocks(p: ZoneSettingsSnapshot, r: ZoneSettingsSnapshot)
    ensures
        setting_differences(p, r).filter(about(ZoneSetting::IcmpBlocks)) == reported_for(p, r, ZoneSetting::IcmpBlocks),
{
    lemma_filter_differences(p, r, ZoneSetting::IcmpBlocks);
    lemma_scalar_piece_filter(ZoneSetting::ShortName, ScalarView::Text(p.short_name@), ScalarView::Text(r.short_name@), ZoneSetting::IcmpBlocks);
    lemma_scalar_piece_filter(ZoneSetting::Description, ScalarView::Text(p.description@), ScalarView::Text(r.description@), ZoneSetting::IcmpBlocks);
    lemma_scalar_piece_filter(ZoneSetting::Target, ScalarView::Text(p.target@), ScalarView::Text(r.target@), ZoneSetting::IcmpBlocks);
    lemma_collection_piece_filter(ZoneSetting::Services, text_members(p.services@), text_members(r.services@), ZoneSetting::IcmpBlocks);
    lemma_collection_piece_filter(ZoneSetting::Ports, pair_members(p.ports@), pair_members(r.ports@), ZoneSetting::IcmpBlocks);
    lemma_collection_piece_filter(ZoneSetting::Protocols, text_members(p.protocols@), text_members(r.protocols@), ZoneSetting::IcmpBlocks);
    lemma_collection_piece_filter(ZoneSetting::SourcePorts, pair_members(p.source_ports@), pair_members(r.source_ports@), ZoneSetting::IcmpBlocks);
    lemma_collection_piece_filter(ZoneSetting::IcmpBlocks, text_members(p.icmp_blocks@), text_members(r.icmp_blocks@), ZoneSetting::IcmpBlocks);
    lemma_scalar_piece_filter(ZoneSetting::IcmpBlockInversion, ScalarView::Boolean(p.icmp_block_inversion), ScalarView::Boolean(r.icmp_block_inversion), ZoneSetting::IcmpBlocks);
    lemma_scalar_piece_filter(ZoneSetting::Masquerade, ScalarView::Boolean(p.masquerade), ScalarView::Boolean(r.masquerade), ZoneSetting::IcmpBlocks);
    lemma_collection_piece_filter(ZoneSetting::ForwardPorts, forward_members(p.forward_ports@), forward_members(r.forward_ports@), ZoneSetting::IcmpBlocks);
    lemma_collection_piece_filter(ZoneSetting::Interfaces, text_members(p.interfaces@), text_members(r.interfaces@), ZoneSetting::IcmpBlocks);
    lemma_collection_piece_filter(ZoneSetting::Sources, text_members(p.sources@), text_members(r.sources@), ZoneSetting::IcmpBlocks);
    lemma_collection_piece_filter(ZoneSetting::RichRules, text_members(p.rich_rules@), text_members(r.rich_rules@), ZoneSetting::IcmpBlocks);
    lemma_scalar_piece_filter(ZoneSetting::Forward, ScalarView::Boolean(p.forward), ScalarView::Boolean(r.forward), ZoneSetting::IcmpBlocks);
    lemma_scalar_piece_filter(ZoneSetting::IngressPriority, ScalarView::Integer(p.ingress_priority), ScalarView::Integer(r.ingress_priority), ZoneSetting::IcmpBlocks);
    lemma_scalar_piece_filter(ZoneSetting::EgressPriority, ScalarView::Integer(p.egress_priority), ScalarView::Integer(r.egress_priority), ZoneSetting::IcmpBlocks);
    assert(setting_differences(p, r).filter(about(ZoneSetting::IcmpBlocks)) =~= reported_for(p, r, ZoneSetting::IcmpBlocks));
}

proof fn lemma_reports_icmp_block_inversion(p: ZoneSettingsSnapshot, r: ZoneSettingsSnapshot)
    ensures
        setting_differences(p, r).filter(about(ZoneSetting::IcmpBlockInversion)) == reported_for(p, r, ZoneSetting::IcmpBlockInversion),
{
    lemma_filter_differences(p, r, ZoneSetting::IcmpBlockInversion);
    lemma_scalar_piece_filter(ZoneSetting::ShortName, ScalarView::Text(p.short_name@), ScalarView::Text(r.short_name@), ZoneSetting::IcmpBlockInversion);
    lemma_scalar_piece_filter(ZoneSetting::Description, ScalarView::Text(p.description@), ScalarView::Text(r.description@), ZoneSetting::IcmpBlockInversion);
    lemma_scalar_piece_filter(ZoneSetting::Target, ScalarView::Text(p.target@), ScalarView::Text(r.target@), ZoneSetting::IcmpBlockInversion);
    lemma_collection_piece_filter(ZoneSetting::Services, text_members(p.services@), text_members(r.services@), ZoneSetting::IcmpBlockInversion);
    lemma_collection_piece_filter(ZoneSetting::Ports, pair_members(p.ports@), pair_members(r.ports@), ZoneSetting::IcmpBlockInversion);
    lemma_collection_piece_filter(ZoneSetting::Protocols, text_members(p.protocols@), text_members(r.protocols@), ZoneSetting::IcmpBlockInversion);
    lemma_collection_piece_filter(ZoneSetting::SourcePorts, pair_members(p.source_ports@), pair_members(r.source_ports@), ZoneSetting::IcmpBlockInversion);
    lemma_collection_piece_filter(ZoneSetting::IcmpBlocks, text_members(p.icmp_blocks@), text_members(r.icmp_blocks@), ZoneSetting::IcmpBlockInversion);
    lemma_scalar_piece_filter(ZoneSetting::IcmpBlockInversion, ScalarView::Boolean(p.icmp_block_inversion), ScalarView::Boolean(r.icmp_block_inversion), ZoneSetting::IcmpBlockInversion);
    lemma_scalar_piece_filter(ZoneSetting::Masquerade, ScalarView::Boolean(p.masquerade), ScalarView::Boolean(r.masquerade), ZoneSetting::IcmpBlockInversion);
    lemma_collection_piece_filter(ZoneSetting::ForwardPorts, forward_members(p.forward_ports@), forward_members(r.forward_ports@), ZoneSetting::IcmpBlockInversion);
    lemma_collection_piece_filter(ZoneSetting::Interfaces, text_members(p.interfaces@), text_members(r.interfaces@), ZoneSetting::IcmpBlockInversion);
    lemma_collection_piece_filter(ZoneSetting::Sources, text_members(p.sources@), text_members(r.sources@), ZoneSetting::IcmpBlockInversion);
    lemma_collection_piece_filter(ZoneSetting::RichRules, text_members(p.rich_rules@), text_members(r.rich_rules@), ZoneSetting::IcmpBlockInversion);
    lemma_scalar_piece_filter(ZoneSetting::Forward, ScalarView::Boolean(p.forward), ScalarView::Boolean(r.forward), ZoneSetting::IcmpBlockInversion);
    lemma_scalar_piece_filter(ZoneSetting::IngressPriority, ScalarView::Integer(p.ingress_priority), ScalarView::Integer(r.ingress_priority), ZoneSetting::IcmpBlockInversion);
    lemma_scalar_piece_filter(ZoneSetting::EgressPriority, ScalarView::Integer(p.egress_priority), ScalarView::Integer(r.egress_priority), ZoneSetting::IcmpBlockInversion);
    assert(setting_differences(p, r).filter(about(ZoneSetting::IcmpBlockInversion)) =~= reported_for(p, r, ZoneSetting::IcmpBlockInversion));
}

proof fn lemma_reports_masquerade(p: ZoneSettingsSnapshot, r: ZoneSettingsSnapshot)
    ensures
        setting_differences(p, r).filter(about(ZoneSetting::Masquerade)) == reported_for(p, r, ZoneSetting::Masquerade),
{
    lemma_filter_differences(p, r, ZoneSetting::Masquerade);
    lemma_scalar_piece_filter(ZoneSetting::ShortName, ScalarView::Text(p.short_name@), ScalarView::Text(r.short_name@), ZoneSetting::Masquerade);
    lemma_scalar_piece_filter(ZoneSetting::Description, ScalarView::Text(p.description@), ScalarView::Text(r.description@), ZoneSetting::Masquerade);
    lemma_scalar_piece_filter(ZoneSetting::Target, ScalarView::Text(p.target@), ScalarView::Text(r.target@), ZoneSetting::Masquerade);
    lemma_collection_piece_filter(ZoneSetting::Services, text_members(p.services@), text_members(r.services@), ZoneSetting::Masquerade);
    lemma_collection_piece_filter(ZoneSetting::Ports, pair_members(p.ports@), pair_members(r.ports@), ZoneSetting::Masquerade);
    lemma_collection_piece_filter(ZoneSetting::Protocols, text_members(p.protocols@), text_members(r.protocols@), ZoneSetting::Masquerade);
    lemma_collection_piece_filter(ZoneSetting::SourcePorts, pair_members(p.source_ports@), pair_members(r.source_ports@), ZoneSetting::Masquerade);
    lemma_collection_piece_filter(ZoneSetting::IcmpBlocks, text_members(p.icmp_blocks@), text_members(r.icmp_blocks@), ZoneSetting::Masquerade);
    lemma_scalar_piece_filter(ZoneSetting::IcmpBlockInversion, ScalarView::Boolean(p.icmp_block_inversion), ScalarView::Boolean(r.icmp_block_inversion), ZoneSetting::Masquerade);
    lemma_scalar_piece_filter(ZoneSetting::Masquerade, ScalarView::Boolean(p.masquerade), ScalarView::Boolean(r.masquerade), ZoneSetting::Masquerade);
    lemma_collection_piece_filter(ZoneSetting::ForwardPorts, forward_members(p.forward_ports@), forward_members(r.forward_ports@), ZoneSetting::Masquerade);
    lemma_collection_piece_filter(ZoneSetting::Interfaces, text_members(p.interfaces@), text_members(r.interfaces@), ZoneSetting::Masquerade);
    lemma_collection_piece_filter(ZoneSetting::Sources, text_members(p.sources@), text_members(r.sources@), ZoneSetting::Masquerade);
    lemma_collection_piece_filter(ZoneSetting::RichRules, text_members(p.rich_rules@), text_members(r.rich_rules@), ZoneSetting::Masquerade);
    lemma_scalar_piece_filter(ZoneSetting::Forward, ScalarView::Boolean(p.forward), ScalarView::Boolean(r.forward), ZoneSetting::Masquerade);
    lemma_scalar_piece_filter(ZoneSetting::IngressPriority, ScalarView::Integer(p.ingress_priority), ScalarView::Integer(r.ingress_priority), ZoneSetting::Masquerade);
    lemma_scalar_piece_filter(ZoneSetting::EgressPriority, ScalarView::Integer(p.egress_priority), ScalarView::Integer(r.egress_priority), ZoneSetting::Masquerade);
    assert(setting_differences(p, r).filter(about(ZoneSetting::Masquerade)) =~= reported_for(p, r, ZoneSetting::Masquerade));
}

proof fn lemma_reports_forward_ports(p: ZoneSettingsSnapshot, r: ZoneSettingsSnapshot)
    ensures
        setting_differences(p, r).filter(about(ZoneSetting::ForwardPorts)) == reported_for(p, r, ZoneSetting::ForwardPorts),
{
    lemma_filter_differences(p, r, ZoneSetting::ForwardPorts);
    lemma_scalar_piece_filter(ZoneSetting::ShortName, ScalarView::Text(p.short_name@), ScalarView::Text(r.short_name@), ZoneSetting::ForwardPorts);
    lemma_scalar_piece_filter(ZoneSetting::Description, ScalarView::Text(p.description@), ScalarView::Text(r.description@), ZoneSetting::ForwardPorts);
    lemma_scalar_piece_filter(ZoneSetting::Target, ScalarView::Text(p.target@), ScalarView::Text(r.target@), ZoneSetting::ForwardPorts);
    lemma_collection_piece_filter(ZoneSetting::Services, text_members(p.services@), text_members(r.services@), ZoneSetting::ForwardPorts);
    lemma_collection_piece_filter(ZoneSetting::Ports, pair_members(p.ports@), pair_members(r.ports@), ZoneSetting::ForwardPorts);
    lemma_collection_piece_filter(ZoneSetting::Protocols, text_members(p.protocols@), text_members(r.protocols@), ZoneSetting::ForwardPorts);
    lemma_collection_piece_filter(ZoneSetting::SourcePorts, pair_members(p.source_ports@), pair_members(r.source_ports@), ZoneSetting::ForwardPorts);
    lemma_collection_piece_filter(ZoneSetting::IcmpBlocks, text_members(p.icmp_blocks@), text_members(r.icmp_blocks@), ZoneSetting::ForwardPorts);
    lemma_scalar_piece_filter(ZoneSetting::IcmpBlockInversion, ScalarView::Boolean(p.icmp_block_inversion), ScalarView::Boolean(r.icmp_block_inversion), ZoneSetting::ForwardPorts);
    lemma_scalar_piece_filter(ZoneSetting::Masquerade, ScalarView::Boolean(p.masquerade), ScalarView::Boolean(r.masquerade), ZoneSetting::ForwardPorts);
    lemma_collection_piece_filter(ZoneSetting::ForwardPorts, forward_members(p.forward_ports@), forward_members(r.forward_ports@), ZoneSetting::ForwardPorts);
    lemma_collection_piece_filter(ZoneSetting::Interfaces, text_members(p.interfaces@), text_members(r.interfaces@), ZoneSetting::ForwardPorts);
    lemma_collection_piece_filter(ZoneSetting::Sources, text_members(p.sources@), text_members(r.sources@), ZoneSetting::ForwardPorts);
    lemma_collection_piece_filter(ZoneSetting::RichRules, text_members(p.rich_rules@), text_members(r.rich_rules@), ZoneSetting::ForwardPorts);
    lemma_scalar_piece_filter(ZoneSetting::Forward, ScalarView::Boolean(p.forward), ScalarView::Boolean(r.forward), ZoneSetting::ForwardPorts);
    lemma_scalar_piece_filter(ZoneSetting::IngressPriority, ScalarView::Integer(p.ingress_priority), ScalarView::Integer(r.ingress_priority), ZoneSetting::ForwardPorts);
    lemma_scalar_piece_filter(ZoneSetting::EgressPriority, ScalarView::Integer(p.egress_priority), ScalarView::Integer(r.egress_priority), ZoneSetting::ForwardPorts);
    assert(setting_differences(p, r).filter(about(ZoneSetting::ForwardPorts)) =~= reported_for(p, r, ZoneSetting::ForwardPorts));
}

proof fn lemma_reports_interfaces(p: ZoneSettingsSnapshot, r: ZoneSettingsSnapshot)
    ensures
        setting_differences(p, r).filter(about(ZoneSetting::Interfaces)) == reported_for(p, r, ZoneSetting::Interfaces),
{
    lemma_filter_differences(p, r, ZoneSetting::Interfaces);
    lemma_scalar_piece_filter(ZoneSetting::ShortName, ScalarView::Text(p.short_name@), ScalarView::Text(r.short_name@), ZoneSetting::Interfaces);
    lemma_scalar_piece_filter(ZoneSetting::Description, ScalarView::Text(p.description@), ScalarView::Text(r.description@), ZoneSetting::Interfaces);
    lemma_scalar_piece_filter(ZoneSetting::Target, ScalarView::Text(p.target@), ScalarView::Text(r.target@), ZoneSetting::Interfaces);
    lemma_collection_piece_filter(ZoneSetting::Services, text_members(p.services@), text_members(r.services@), ZoneSetting::Interfaces);
    lemma_collection_piece_filter(ZoneSetting::Ports, pair_members(p.ports@), pair_members(r.ports@), ZoneSetting::Interfaces);
    lemma_collection_piece_filter(ZoneSetting::Protocols, text_members(p.protocols@), text_members(r.protocols@), ZoneSetting::Interfaces);
    lemma_collection_piece_filter(ZoneSetting::SourcePorts, pair_members(p.source_ports@), pair_members(r.source_ports@), ZoneSetting::Interfaces);
    lemma_collection_piece_filter(ZoneSetting::IcmpBlocks, text_members(p.icmp_blocks@), text_members(r.icmp_blocks@), ZoneSetting::Interfaces);
    lemma_scalar_piece_filter(ZoneSetting::IcmpBlockInversion, ScalarView::Boolean(p.icmp_block_inversion), ScalarView::Boolean(r.icmp_block_inversion), ZoneSetting::Interfaces);
    lemma_scalar_piece_filter(ZoneSetting::Masquerade, ScalarView::Boolean(p.masquerade), ScalarView::Boolean(r.masquerade), ZoneSetting::Interfaces);
    lemma_collection_piece_filter(ZoneSetting::ForwardPorts, forward_members(p.forward_ports@), forward_members(r.forward_ports@), ZoneSetting::Interfaces);
    lemma_collection_piece_filter(ZoneSetting::Interfaces, text_members(p.interfaces@), text_members(r.interfaces@), ZoneSetting::Interfaces);
    lemma_collection_piece_filter(ZoneSetting::Sources, text_members(p.sources@), text_members(r.sources@), ZoneSetting::Interfaces);
    lemma_collection_piece_filter(ZoneSetting::RichRules, text_members(p.rich_rules@), text_members(r.rich_rules@), ZoneSetting::Interfaces);
    lemma_scalar_piece_filter(ZoneSetting::Forward, ScalarView::Boolean(p.forward), ScalarView::Boolean(r.forward), ZoneSetting::Interfaces);
    lemma_scalar_piece_filter(ZoneSetting::IngressPriority, ScalarView::Integer(p.ingress_priority), ScalarView::Integer(r.ingress_priority), ZoneSetting::Interfaces);
    lemma_scalar_piece_filter(ZoneSetting::EgressPriority, ScalarView::Integer(p.egress_priority), ScalarView::Integer(r.egress_priority), ZoneSetting::Interfaces);
    assert(setting_differences(p, r).filter(about(ZoneSetting::Interfaces)) =~= reported_for(p, r, ZoneSetting::Interfaces));
}

proof fn lemma_reports_sources(p: ZoneSettingsSnapshot, r: ZoneSettingsSnapshot)
    ensures
        setting_differences(p, r).filter(about(ZoneSetting::Sources)) == reported_for(p, r, ZoneSetting::Sources),
{
    lemma_filter_differences(p, r, ZoneSetting::Sources);
    lemma_scalar_piece_filter(ZoneSetting::ShortName, ScalarView::Text(p.short_name@), ScalarView::Text(r.short_name@), ZoneSetting::Sources);
    lemma_scalar_piece_filter(ZoneSetting::Description, ScalarView::Text(p.description@), ScalarView::Text(r.description@), ZoneSetting::Sources);
    lemma_scalar_piece_filter(ZoneSetting::Target, ScalarView::Text(p.target@), ScalarView::Text(r.target@), ZoneSetting::Sources);
    lemma_collection_piece_filter(ZoneSetting::Services, text_members(p.services@), text_members(r.services@), ZoneSetting::Sources);
    lemma_collection_piece_filter(ZoneSetting::Ports, pair_members(p.ports@), pair_members(r.ports@), ZoneSetting::Sources);
    lemma_collection_piece_filter(ZoneSetting::Protocols, text_members(p.protocols@), text_members(r.protocols@), ZoneSetting::Sources);
    lemma_collection_piece_filter(ZoneSetting::SourcePorts, pair_members(p.source_ports@), pair_members(r.source_ports@), ZoneSetting::Sources);
    lemma_collection_piece_filter(ZoneSetting::IcmpBlocks, text_members(p.icmp_blocks@), text_members(r.icmp_blocks@), ZoneSetting::Sources);
    lemma_scalar_piece_filter(ZoneSetting::IcmpBlockInversion, ScalarView::Boolean(p.icmp_block_inversion), ScalarView::Boolean(r.icmp_block_inversion), ZoneSetting::Sources);
    lemma_scalar_piece_filter(ZoneSetting::Masquerade, ScalarView::Boolean(p.masquerade), ScalarView::Boolean(r.masquerade), ZoneSetting::Sources);
    lemma_collection_piece_filter(ZoneSetting::ForwardPorts, forward_members(p.forward_ports@), forward_members(r.forward_ports@), ZoneSetting::Sources);
    lemma_collection_piece_filter(ZoneSetting::Interfaces, text_members(p.interfaces@), text_members(r.interfaces@), ZoneSetting::Sources);
    lemma_collection_piece_filter(ZoneSetting::Sources, text_members(p.sources@), text_members(r.sources@), ZoneSetting::Sources);
    lemma_collection_piece_filter(ZoneSetting::RichRules, text_members(p.rich_rules@), text_members(r.rich_rules@), ZoneSetting::Sources);
    lemma_scalar_piece_filter(ZoneSetting::Forward, ScalarView::Boolean(p.forward), ScalarView::Boolean(r.forward), ZoneSetting::Sources);
    lemma_scalar_piece_filter(ZoneSetting::IngressPriority, ScalarView::Integer(p.ingress_priority), ScalarView::Integer(r.ingress_priority), ZoneSetting::Sources);
    lemma_scalar_piece_filter(ZoneSetting::EgressPriority, ScalarView::Integer(p.egress_priority), ScalarView::Integer(r.egress_priority), ZoneSetting::Sources);
    assert(setting_differences(p, r).filter(about(ZoneSetting::Sources)) =~= reported_for(p, r, ZoneSetting::Sources));
}

proof fn lemma_reports_rich_rules(p: ZoneSettingsSnapshot, r: ZoneSettingsSnapshot)
    ensures
        setting_differences(p, r).filter(about(ZoneSetting::RichRules)) == reported_for(p, r, ZoneSetting::RichRules),
{
    lemma_filter_differences(p, r, ZoneSetting::RichRules);
    lemma_scalar_piece_filter(ZoneSetting::ShortName, ScalarView::Text(p.short_name@), ScalarView::Text(r.short_name@), ZoneSetting::RichRules);
    lemma_scalar_piece_filter(ZoneSetting::Description, ScalarView::Text(p.description@), ScalarView::Text(r.description@), ZoneSetting::RichRules);
    lemma_scalar_piece_filter(ZoneSetting::Target, ScalarView::Text(p.target@), ScalarView::Text(r.target@), ZoneSetting::RichRules);
    lemma_collection_piece_filter(ZoneSetting::Services, text_members(p.services@), text_members(r.services@), ZoneSetting::RichRules);
    lemma_collection_piece_filter(ZoneSetting::Ports, pair_members(p.ports@), pair_members(r.ports@), ZoneSetting::RichRules);
    lemma_collection_piece_filter(ZoneSetting::Protocols, text_members(p.protocols@), text_members(r.protocols@), ZoneSetting::RichRules);
    lemma_collection_piece_filter(ZoneSetting::SourcePorts, pair_members(p.source_ports@), pair_members(r.source_ports@), ZoneSetting::RichRules);
    lemma_collection_piece_filter(ZoneSetting::IcmpBlocks, text_members(p.icmp_blocks@), text_members(r.icmp_blocks@), ZoneSetting::RichRules);
    lemma_scalar_piece_filter(ZoneSetting::IcmpBlockInversion, ScalarView::Boolean(p.icmp_block_inversion), ScalarView::Boolean(r.icmp_block_inversion), ZoneSetting::RichRules);
    lemma_scalar_piece_filter(ZoneSetting::Masquerade, ScalarView::Boolean(p.masquerade), ScalarView::Boolean(r.masquerade), ZoneSetting::RichRules);
    lemma_collection_piece_filter(ZoneSetting::ForwardPorts, forward_members(p.forward_ports@), forward_members(r.forward_ports@), ZoneSetting::RichRules);
    lemma_collection_piece_filter(ZoneSetting::Interfaces, text_members(p.interfaces@), text_members(r.interfaces@), ZoneSetting::RichRules);
    lemma_collection_piece_filter(ZoneSetting::Sources, text_members(p.sources@), text_members(r.sources@), ZoneSetting::RichRules);
    lemma_collection_piece_filter(ZoneSetting::RichRules, text_members(p.rich_rules@), text_members(r.rich_rules@), ZoneSetting::RichRules);
    lemma_scalar_piece_filter(ZoneSetting::Forward, ScalarView::Boolean(p.forward), ScalarView::Boolean(r.forward), ZoneSetting::RichRules);
    lemma_scalar_piece_filter(ZoneSetting::IngressPriority, ScalarView::Integer(p.ingress_priority), ScalarView::Integer(r.ingress_priority), ZoneSetting::RichRules);
    lemma_scalar_piece_filter(ZoneSetting::EgressPriority, ScalarView::Integer(p.egress_priority), ScalarView::Integer(r.egress_priority), ZoneSetting::RichRules);
    assert(setting_differences(p, r).filter(about(ZoneSetting::RichRules)) =~= reported_for(p, r, ZoneSetting::RichRules));
}

proof fn lemma_reports_forward(p: ZoneSettingsSnapshot, r: ZoneSettingsSnapshot)
    ensures
        setting_differences(p, r).filter(about(ZoneSetting::Forward)) == reported_for(p, r, ZoneSetting::Forward),
{
    lemma_filter_differences(p, r, ZoneSetting::Forward);
    lemma_scalar_piece_filter(ZoneSetting::ShortName, ScalarView::Text(p.short_name@), ScalarView::Text(r.short_name@), ZoneSetting::Forward);
    lemma_scalar_piece_filter(ZoneSetting::Description, ScalarView::Text(p.description@), ScalarView::Text(r.description@), ZoneSetting::Forward);
    lemma_scalar_piece_filter(ZoneSetting::Target, ScalarView::Text(p.target@), ScalarView::Text(r.target@), ZoneSetting::Forward);
    lemma_collection_piece_filter(ZoneSetting::Services, text_members(p.services@), text_members(r.services@), ZoneSetting::Forward);
    lemma_collection_piece_filter(ZoneSetting::Ports, pair_members(p.ports@), pair_members(r.ports@), ZoneSetting::Forward);
    lemma_collection_piece_filter(ZoneSetting::Protocols, text_members(p.protocols@), text_members(r.protocols@), ZoneSetting::Forward);
    lemma_collection_piece_filter(ZoneSetting::SourcePorts, pair_members(p.source_ports@), pair_members(r.source_ports@), ZoneSetting::Forward);
    lemma_collection_piece_filter(ZoneSetting::IcmpBlocks, text_members(p.icmp_blocks@), text_members(r.icmp_blocks@), ZoneSetting::Forward);
    lemma_scalar_piece_filter(ZoneSetting::IcmpBlockInversion, ScalarView::Boolean(p.icmp_block_inversion), ScalarView::Boolean(r.icmp_block_inversion), ZoneSetting::Forward);
    lemma_scalar_piece_filter(ZoneSetting::Masquerade, ScalarView::Boolean(p.masquerade), ScalarView::Boolean(r.masquerade), ZoneSetting::Forward);
    lemma_collection_piece_filter(ZoneSetting::ForwardPorts, forward_members(p.forward_ports@), forward_members(r.forward_ports@), ZoneSetting::Forward);
    lemma_collection_piece_filter(ZoneSetting::Interfaces, text_members(p.interfaces@), text_members(r.interfaces@), ZoneSetting::Forward);
    lemma_collection_piece_filter(ZoneSetting::Sources, text_members(p.sources@), text_members(r.sources@), ZoneSetting::Forward);
    lemma_collection_piece_filter(ZoneSetting::RichRules, text_members(p.rich_rules@), text_members(r.rich_rules@), ZoneSetting::Forward);
    lemma_scalar_piece_filter(ZoneSetting::Forward, ScalarView::Boolean(p.forward), ScalarView::Boolean(r.forward), ZoneSetting::Forward);
    lemma_scalar_piece_filter(ZoneSetting::IngressPriority, ScalarView::Integer(p.ingress_priority), ScalarView::Integer(r.ingress_priority), ZoneSetting::Forward);
    lemma_scalar_piece_filter(ZoneSetting::EgressPriority, ScalarView::Integer(p.egress_priority), ScalarView::Integer(r.egress_priority), ZoneSetting::Forward);
    assert(setting_differences(p, r).filter(about(ZoneSetting::Forward)) =~= reported_for(p, r, ZoneSetting::Forward));
}

proof fn lemma_reports_ingress_priority(p: ZoneSettingsSnapshot, r: ZoneSettingsSnapshot)
    ensures
        setting_differences(p, r).filter(about(ZoneSetting::IngressPriority)) == reported_for(p, r, ZoneSetting::IngressPriority),
{
    lemma_filter_differences(p, r, ZoneSetting::IngressPriority);
    lemma_scalar_piece_filter(ZoneSetting::ShortName, ScalarView::Text(p.short_name@), ScalarView::Text(r.short_name@), ZoneSetting::IngressPriority);
    lemma_scalar_piece_filter(ZoneSetting::Description, ScalarView::Text(p.description@), ScalarView::Text(r.description@), ZoneSetting::IngressPriority);
    lemma_scalar_piece_filter(ZoneSetting::Target, ScalarView::Text(p.target@), ScalarView::Text(r.target@), ZoneSetting::IngressPriority);
    lemma_collection_piece_filter(ZoneSetting::Services, text_members(p.services@), text_members(r.services@), ZoneSetting::IngressPriority);
    lemma_collection_piece_filter(ZoneSetting::Ports, pair_members(p.ports@), pair_members(r.ports@), ZoneSetting::IngressPriority);
    lemma_collection_piece_filter(ZoneSetting::Protocols, text_members(p.protocols@), text_members(r.protocols@), ZoneSetting::IngressPriority);
    lemma_collection_piece_filter(ZoneSetting::SourcePorts, pair_members(p.source_ports@), pair_members(r.source_ports@), ZoneSetting::IngressPriority);
    lemma_collection_piece_filter(ZoneSetting::IcmpBlocks, text_members(p.icmp_blocks@), text_members(r.icmp_blocks@), ZoneSetting::IngressPriority);
    lemma_scalar_piece_filter(ZoneSetting::IcmpBlockInversion, ScalarView::Boolean(p.icmp_block_inversion), ScalarView::Boolean(r.icmp_block_inversion), ZoneSetting::IngressPriority);
    lemma_scalar_piece_filter(ZoneSetting::Masquerade, ScalarView::Boolean(p.masquerade), ScalarView::Boolean(r.masquerade), ZoneSetting::IngressPriority);
    lemma_collection_piece_filter(ZoneSetting::ForwardPorts, forward_members(p.forward_ports@), forward_members(r.forward_ports@), ZoneSetting::IngressPriority);
    lemma_collection_piece_filter(ZoneSetting::Interfaces, text_members(p.interfaces@), text_members(r.interfaces@), ZoneSetting::IngressPriority);
    lemma_collection_piece_filter(ZoneSetting::Sources, text_members(p.sources@), text_members(r.sources@), ZoneSetting::IngressPriority);
    lemma_collection_piece_filter(ZoneSetting::RichRules, text_members(p.rich_rules@), text_members(r.rich_rules@), ZoneSetting::IngressPriority);
    lemma_scalar_piece_filter(ZoneSetting::Forward, ScalarView::Boolean(p.forward), ScalarView::Boolean(r.forward), ZoneSetting::IngressPriority);
    lemma_scalar_piece_filter(ZoneSetting::IngressPriority, ScalarView::Integer(p.ingress_priority), ScalarView::Integer(r.ingress_priority), ZoneSetting::IngressPriority);
    lemma_scalar_piece_filter(ZoneSetting::EgressPriority, ScalarView::Integer(p.egress_priority), ScalarView::Integer(r.egress_priority), ZoneSetting::IngressPriority);
    assert(setting_differences(p, r).filter(about(ZoneSetting::IngressPriority)) =~= reported_for(p, r, ZoneSetting::IngressPriority));
}

proof fn lemma_reports_egress_priority(p: ZoneSettingsSnapshot, r: ZoneSettingsSnapshot)
    ensures
        setting_differences(p, r).filter(about(ZoneSetting::EgressPriority)) == reported_for(p, r, ZoneSetting::EgressPriority),
{
    lemma_filter_differences(p, r, ZoneSetting::EgressPriority);
    lemma_scalar_piece_filter(ZoneSetting::ShortName, ScalarView::Text(p.short_name@), ScalarView::Text(r.short_name@), ZoneSetting::EgressPriority);
    lemma_scalar_piece_filter(ZoneSetting::Description, ScalarView::Text(p.description@), ScalarView::Text(r.description@), ZoneSetting::EgressPriority);
    lemma_scalar_piece_filter(ZoneSetting::Target, ScalarView::Text(p.target@), ScalarView::Text(r.target@), ZoneSetting::EgressPriority);
    lemma_collection_piece_filter(ZoneSetting::Services, text_members(p.services@), text_members(r.services@), ZoneSetting::EgressPriority);
    lemma_collection_piece_filter(ZoneSetting::Ports, pair_members(p.ports@), pair_members(r.ports@), ZoneSetting::EgressPriority);
    lemma_collection_piece_filter(ZoneSetting::Protocols, text_members(p.protocols@), text_members(r.protocols@), ZoneSetting::EgressPriority);
    lemma_collection_piece_filter(ZoneSetting::SourcePorts, pair_members(p.source_ports@), pair_members(r.source_ports@), ZoneSetting::EgressPriority);
    lemma_collection_piece_filter(ZoneSetting::IcmpBlocks, text_members(p.icmp_blocks@), text_members(r.icmp_blocks@), ZoneSetting::EgressPriority);
    lemma_scalar_piece_filter(ZoneSetting::IcmpBlockInversion, ScalarView::Boolean(p.icmp_block_inversion), ScalarView::Boolean(r.icmp_block_inversion), ZoneSetting::EgressPriority);
    lemma_scalar_piece_filter(ZoneSetting::Masquerade, ScalarView::Boolean(p.masquerade), ScalarView::Boolean(r.masquerade), ZoneSetting::EgressPriority);
    lemma_collection_piece_filter(ZoneSetting::ForwardPorts, forward_members(p.forward_ports@), forward_members(r.forward_ports@), ZoneSetting::EgressPriority);
    lemma_collection_piece_filter(ZoneSetting::Interfaces, text_members(p.interfaces@), text_members(r.interfaces@), ZoneSetting::EgressPriority);
    lemma_collection_piece_filter(ZoneSetting::Sources, text_members(p.sources@), text_members(r.sources@), ZoneSetting::EgressPriority);
    lemma_collection_piece_filter(ZoneSetting::RichRules, text_members(p.rich_rules@), text_members(r.rich_rules@), ZoneSetting::EgressPriority);
    lemma_scalar_piece_filter(ZoneSetting::Forward, ScalarView::Boolean(p.forward), ScalarView::Boolean(r.forward), ZoneSetting::EgressPriority);
    lemma_scalar_piece_filter(ZoneSetting::IngressPriority, ScalarView::Integer(p.ingress_priority), ScalarView::Integer(r.ingress_priority), ZoneSetting::EgressPriority);
    lemma_scalar_piece_filter(ZoneSetting::EgressPriority, ScalarView::Integer(p.egress_priority), ScalarView::Integer(r.egress_priority), ZoneSetting::EgressPriority);
    assert(setting_differences(p, r).filter(about(ZoneSetting::EgressPriority)) =~= reported_for(p, r, ZoneSetting::EgressPriority));
}

/// A comparison reports, for every setting, exactly what the two snapshots'
/// fields of that name call for: no difference when their content agrees,
/// and otherwise a single difference about that setting with the values
/// found in those fields.
pub proof fn lemma_compare_reports_each_setting(p: ZoneSettingsSnapshot, r: ZoneSettingsSnapshot, s: ZoneSetting)
    ensures
        setting_differences(p, r).filter(about(s)) == reported_for(p, r, s),
{
    match s {
        ZoneSetting::ShortName => lemma_reports_short_name(p, r),
        ZoneSetting::Description => lemma_reports_description(p, r),
        ZoneSetting::Target => lemma_reports_target(p, r),
        ZoneSetting::Services => lemma_reports_services(p, r),
        ZoneSetting::Ports => lemma_reports_ports(p, r),
        ZoneSetting::Protocols => lemma_reports_protocols(p, r),
        ZoneSetting::SourcePorts => lemma_reports_source_ports(p, r),
        ZoneSetting::IcmpBlocks => lemma_reports_icmp_blocks(p, r),
        ZoneSetting::IcmpBlockInversion => lemma_reports_icmp_block_inversion(p, r),
        ZoneSetting::Masquerade => lemma_reports_masquerade(p, r),
        ZoneSetting::ForwardPorts => lemma_reports_forward_ports(p, r),
        ZoneSetting::Interfaces => lemma_reports_interfaces(p, r),
        ZoneSetting::Sources => lemma_reports_sources(p, r),
        ZoneSetting::RichRules => lemma_reports_rich_rules(p, r),
        ZoneSetting::Forward => lemma_reports_forward(p, r),
        ZoneSetting::IngressPriority => lemma_reports_ingress_priority(p, r),
        ZoneSetting::EgressPriority => lemma_reports_egress_priority(p, r),
    }
}

/// A comparison finds no difference exactly when the two snapshots hold the
/// same content in every field.
pub proof fn lemma_in_sync_iff_same_content(p: ZoneSettingsSnapshot, r: ZoneSettingsSnapshot)
    ensures
        setting_differences(p, r).len() == 0 <==> same_content(p, r),
{
}

/// Whether a difference could change permanent configuration when runtime is persisted:
/// every scalar difference does, a collection difference only with runtime-only members.
pub open spec fn is_runtime_only_difference(d: DifferenceView) -> bool {
    match d {
        DifferenceView::Scalar { .. } => true,
        DifferenceView::Collection { runtime_only, .. } => runtime_only.len() > 0,
    }
}

impl ZoneReconciliation {
    /// Return true only when all keys were understood and no known value differs.
    pub fn is_in_sync(&self) -> (r: bool)
        ensures
            r == (self.differences@.len() == 0 && self.completeness is Complete),
    {
        self.differences.len() == 0 && matches!(self.completeness, ComparisonCompleteness::Complete)
    }

    /// Return whether persisting runtime could change permanent known settings.
    pub fn has_runtime_only_differences(&self) -> (r: bool)
        ensures
            r == exists|i: int|
                0 <= i < self.differences@.len() && is_runtime_only_difference(
                    #[trigger] self.differences@[i]@,
                ),
    {
        let mut i: usize = 0;
        while i < self.differences.len()
            invariant
                i <= self.differences@.len(),
                forall|k: int| 0 <= k < i ==> !is_runtime_only_difference(#[trigger] self.differences@[k]@),
            decreases self.differences@.len() - i,
        {
            let found = match &self.differences[i] {
                ZoneSettingDifference::Scalar { .. } => true,
                ZoneSettingDifference::Collection { runtime_only, .. } => runtime_only.len() > 0,
            };
            if found {
                assert(is_runtime_only_difference(self.differences@[i as int]@));
                return true;
            }
            i = i + 1;
        }
        false
    }
}


impl Default for ZoneSettingsSnapshot {
    /// The zone settings that firewalld assumes for omitted keys.
    fn default() -> (r: Self)
        ensures
            r.short_name@.len() == 0,
            r.description@.len() == 0,
            r.target@ == "default"@,
            r.services@.len() == 0,
            r.ports@.len() == 0,
            r.protocols@.len() == 0,
            r.source_ports@.len() == 0,
            r.icmp_blocks@.len() == 0,
            !r.icmp_block_inversion,
            !r.masquerade,
            r.forward_ports@.len() == 0,
            r.interfaces@.len() == 0,
            r.sources@.len() == 0,
            r.rich_rules@.len() == 0,
            r.forward,
            r.ingress_priority == 0,
            r.egress_priority == 0,
            r.unknown_keys@.len() == 0,
    {
        ZoneSettingsSnapshot {
            short_name: String::new(),
            description: String::new(),
            target: owned("default"),
            services: Vec::new(),
            ports: Vec::new(),
            protocols: Vec::new(),
            source_ports: Vec::new(),
            icmp_blocks: Vec::new(),
            icmp_block_inversion: false,
            masquerade: false,
            forward_ports: Vec::new(),
            interfaces: Vec::new(),
            sources: Vec::new(),
            rich_rules: Vec::new(),
            forward: true,
            ingress_priority: 0,
            egress_priority: 0,
            unknown_keys: Vec::new(),
        }
    }
}

/// Snapshots and their computed reconciliation for one selected zone.
#[derive(Clone, Debug, PartialEq, Eq)]
pub struct ZoneReconciliationData {
    /// Permanent zone settings.
    pub permanent: ZoneSettingsSnapshot,
    /// Runtime zone settings.
    pub runtime: ZoneSettingsSnapshot,
    /// Typed comparison of the snapshots.
    pub reconciliation: ZoneReconciliation,
}

impl ZoneReconciliationData {
    /// Build combined reconciliation data from two decoded snapshots.
    pub fn new(permanent: ZoneSettingsSnapshot, runtime: ZoneSettingsSnapshot) -> (r: Self)
        ensures
            r.permanent == permanent,
            r.runtime == runtime,
            views(r.reconciliation.differences@) == setting_differences(permanent, runtime),
            completeness_of(permanent, runtime, r.reconciliation.completeness),
    {
        let reconciliation = ZoneReconciliation::compare(&permanent, &runtime);
        ZoneReconciliationData { permanent, runtime, reconciliation }
    }
}

/// Independently loaded reconciliation state for the selected zone.
#[derive(Clone, Debug, PartialEq, Eq)]
pub enum ZoneReconciliationState {
    /// The comparison request is in flight.
    Loading {
        /// Zone being compared.
        zone: String,
    },
    /// Every known setting matches and all dictionary keys were understood.
    InSync {
        /// Zone that was compared.
        zone: String,
        /// Loaded snapshots and comparison.
        data: Box<ZoneReconciliationData>,
    },
    /// Known permanent and runtime settings differ.
    Different {
        /// Zone that was compared.
        zone: String,
        /// Loaded snapshots and comparison.
        data: Box<ZoneReconciliationData>,
    },
    /// Known settings were compared, but unknown keys prevent a definitive result.
    Incomplete {
        /// Zone that was compared.
        zone: String,
        /// Loaded snapshots and comparison.
        data: Box<ZoneReconciliationData>,
    },
    /// Runtime comparison is not currently available.
    Unavailable {
        /// Selected zone, when one exists.
        zone: Option<String>,
    },
    /// A comparison request failed without invalidating permanent zone content.
    Error {
        /// Zone whose comparison failed.
        zone: String,
        /// Actionable loading error.
        message: String,
    },
}

impl Default for ZoneReconciliationState {
    /// No comparison and no selected zone.
    fn default() -> (r: Self)
        ensures
            r == (ZoneReconciliationState::Unavailable { zone: None }),
    {
        ZoneReconciliationState::Unavailable { zone: None }
    }
}

/// The comparison data that a state carries, if any.
pub open spec fn state_data(s: ZoneReconciliationState) -> Option<ZoneReconciliationData> {
    match s {
        ZoneReconciliationState::InSync { data, .. } => Some(*data),
        ZoneReconciliationState::Different { data, .. } => Some(*data),
        ZoneReconciliationState::Incomplete { data, .. } => Some(*data),
        _ => None,
    }
}

/// The state that successfully loaded data for `zone` puts the comparison in:
/// in sync when nothing differs and every key was understood, otherwise
/// incomplete when unknown keys were reported, otherwise different.
pub open spec fn classified(zone: String, data: ZoneReconciliationData) -> ZoneReconciliationState {
    if data.reconciliation.differences@.len() == 0 && data.reconciliation.completeness is Complete {
        ZoneReconciliationState::InSync { zone, data: Box::new(data) }
    } else if data.reconciliation.completeness is Incomplete {
        ZoneReconciliationState::Incomplete { zone, data: Box::new(data) }
    } else {
        ZoneReconciliationState::Different { zone, data: Box::new(data) }
    }
}

impl ZoneReconciliationState {
    /// Classify successfully loaded reconciliation data: in sync when the comparison is,
    /// otherwise incomplete when unknown keys were reported, otherwise different.
    pub fn from_data(zone: String, data: ZoneReconciliationData) -> (r: Self)
        ensures
            r == classified(zone, data),
    {
        if data.reconciliation.is_in_sync() {
            ZoneReconciliationState::InSync { zone, data: Box::new(data) }
        } else if matches!(data.reconciliation.completeness, ComparisonCompleteness::Incomplete { .. }) {
            ZoneReconciliationState::Incomplete { zone, data: Box::new(data) }
        } else {
            ZoneReconciliationState::Different { zone, data: Box::new(data) }
        }
    }

    /// Access loaded comparison data for any successful state.
    pub fn data(&self) -> (r: Option<&ZoneReconciliationData>)
        ensures
            match r {
                Some(d) => state_data(*self) == Some(*d),
                None => state_data(*self) is None,
            },
    {
        match self {
            ZoneReconciliationState::InSync { data, .. } => Some(data),
            ZoneReconciliationState::Different { data, .. } => Some(data),
            ZoneReconciliationState::Incomplete { data, .. } => Some(data),
            _ => None,
        }
    }
}

} // verus!
