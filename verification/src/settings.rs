//! Decoding of a firewalld zone-settings dictionary into a typed snapshot.
use vstd::prelude::*;

use crate::order::{insert_sorted, strictly_sorted, views};
use crate::reconciliation::ZoneSettingsSnapshot;
use crate::text::{owned, push_str, str_equal};

verus! {

/// One dictionary value with every typed reading of it that the decoder may
/// ask for: each reading is present exactly when the value converts to that
/// type.
#[derive(Debug, Clone)]
pub struct DecodedValue {
    /// The value read as a string.
    pub text: Option<String>,
    /// The value read as an array of strings.
    pub text_list: Option<Vec<String>>,
    /// The value read as an array of string pairs.
    pub pair_list: Option<Vec<(String, String)>>,
    /// The value read as an array of four-string tuples.
    pub quad_list: Option<Vec<(String, String, String, String)>>,
    /// The value read as a boolean.
    pub boolean: Option<bool>,
    /// The value read as a 32-bit integer.
    pub int32: Option<i32>,
    /// The D-Bus signature of the value.
    pub signature: String,
}

impl DecodedValue {
    /// A value of the given signature that has no typed reading.
    pub fn untyped(signature: String) -> (r: Self)
        ensures
            r.text is None && r.text_list is None && r.pair_list is None && r.quad_list is None
                && r.boolean is None && r.int32 is None,
            r.signature == signature,
    {
        DecodedValue {
            text: None,
            text_list: None,
            pair_list: None,
            quad_list: None,
            boolean: None,
            int32: None,
            signature,
        }
    }
}

/// A known key whose value has an unexpected D-Bus type.
#[derive(Clone, Debug, PartialEq, Eq)]
pub enum ZoneSettingsParseError {
    InvalidType {
        /// Dictionary key that failed to decode.
        key: &'static str,
        /// The expected shape, in words.
        expected: &'static str,
        /// The D-Bus signature that was received.
        actual: String,
    },
}

impl ZoneSettingsParseError {
    /// The error's message.
    pub fn to_string(&self) -> (r: String)
        ensures
            match self {
                ZoneSettingsParseError::InvalidType { key, expected, actual } => r@ == "zone setting `"@
                    + key@ + "` expected "@ + expected@ + ", but received D-Bus type `"@ + actual@
                    + "`"@,
            },
    {
        match self {
            ZoneSettingsParseError::InvalidType { key, expected, actual } => {
                let mut s = owned("zone setting `");
                push_str(&mut s, key);
                push_str(&mut s, "` expected ");
                push_str(&mut s, expected);
                push_str(&mut s, ", but received D-Bus type `");
                push_str(&mut s, actual.as_str());
                push_str(&mut s, "`");
                s
            },
        }
    }
}

/// The typed readings that known settings take.
#[derive(Clone, Copy, Debug, PartialEq, Eq, Structural)]
pub enum Shape {
    Text,
    TextList,
    PairList,
    QuadList,
    Boolean,
    Int32,
}

/// The number of known settings.
pub const FIELD_COUNT: usize = 17;

/// The key of the `k`-th known setting, in the order settings are checked.
pub open spec fn field_key(k: int) -> Seq<char> {
    if k == 0 { "short"@ }
    else if k == 1 { "description"@ }
    else if k == 2 { "target"@ }
    else if k == 3 { "services"@ }
    else if k == 4 { "ports"@ }
    else if k == 5 { "protocols"@ }
    else if k == 6 { "source_ports"@ }
    else if k == 7 { "icmp_blocks"@ }
    else if k == 8 { "icmp_block_inversion"@ }
    else if k == 9 { "masquerade"@ }
    else if k == 10 { "forward_ports"@ }
    else if k == 11 { "interfaces"@ }
    else if k == 12 { "sources"@ }
    else if k == 13 { "rules_str"@ }
    else if k == 14 { "forward"@ }
    else if k == 15 { "ingress_priority"@ }
    else { "egress_priority"@ }
}

/// The reading that the `k`-th known setting takes.
pub open spec fn field_shape(k: int) -> Shape {
    if k <= 2 { Shape::Text }
    else if k == 4 || k == 6 { Shape::PairList }
    else if k == 8 || k == 9 || k == 14 { Shape::Boolean }
    else if k == 10 { Shape::QuadList }
    else if k >= 15 { Shape::Int32 }
    else { Shape::TextList }
}

/// The words for a reading, as errors report it.
pub open spec fn shape_words(s: Shape) -> Seq<char> {
    match s {
        Shape::Text => "string"@,
        Shape::TextList => "array of strings"@,
        Shape::PairList => "array of string pairs"@,
        Shape::QuadList => "array of four-string tuples"@,
        Shape::Boolean => "boolean"@,
        Shape::Int32 => "32-bit integer"@,
    }
}

fn field_key_str(k: usize) -> (r: &'static str)
    requires
        k < FIELD_COUNT,
    ensures
        r@ == field_key(k as int),
{
    match k {
        0 => "short",
        1 => "description",
        2 => "target",
        3 => "services",
        4 => "ports",
        5 => "protocols",
        6 => "source_ports",
        7 => "icmp_blocks",
        8 => "icmp_block_inversion",
        9 => "masquerade",
        10 => "forward_ports",
        11 => "interfaces",
        12 => "sources",
        13 => "rules_str",
        14 => "forward",
        15 => "ingress_priority",
        _ => "egress_priority",
    }
}

fn field_shape_of(k: usize) -> (r: Shape)
    ensures
        r == field_shape(k as int),
{
    if k <= 2 {
        Shape::Text
    } else if k == 4 || k == 6 {
        Shape::PairList
    } else if k == 8 || k == 9 || k == 14 {
        Shape::Boolean
    } else if k == 10 {
        Shape::QuadList
    } else if k >= 15 {
        Shape::Int32
    } else {
        Shape::TextList
    }
}

fn shape_words_str(s: Shape) -> (r: &'static str)
    ensures
        r@ == shape_words(s),
{
    match s {
        Shape::Text => "string",
        Shape::TextList => "array of strings",
        Shape::PairList => "array of string pairs",
        Shape::QuadList => "array of four-string tuples",
        Shape::Boolean => "boolean",
        Shape::Int32 => "32-bit integer",
    }
}

/// Whether a value has the reading `s`.
pub open spec fn fits(v: DecodedValue, s: Shape) -> bool {
    match s {
        Shape::Text => v.text is Some,
        Shape::TextList => v.text_list is Some,
        Shape::PairList => v.pair_list is Some,
        Shape::QuadList => v.quad_list is Some,
        Shape::Boolean => v.boolean is Some,
        Shape::Int32 => v.int32 is Some,
    }
}

fn value_fits(v: &DecodedValue, s: Shape) -> (r: bool)
    ensures
        r == fits(*v, s),
{
    match s {
        Shape::Text => v.text.is_some(),
        Shape::TextList => v.text_list.is_some(),
        Shape::PairList => v.pair_list.is_some(),
        Shape::QuadList => v.quad_list.is_some(),
        Shape::Boolean => v.boolean.is_some(),
        Shape::Int32 => v.int32.is_some(),
    }
}

/// The value that the dictionary holds for `key` (its last entry for `key`).
pub open spec fn lookup(e: Seq<(String, DecodedValue)>, key: Seq<char>) -> Option<DecodedValue>
    decreases e.len(),
{
    if e.len() == 0 {
        None
    } else if e.last().0@ == key {
        Some(e.last().1)
    } else {
        lookup(e.drop_last(), key)
    }
}

/// Whether `key` is a known setting or the version, which the snapshot leaves out.
pub open spec fn is_known_key(key: Seq<char>) -> bool {
    key == "version"@ || exists|k: int| 0 <= k < FIELD_COUNT && field_key(k) == key
}

/// Whether the `k`-th known setting is present with the wrong type.
pub open spec fn fails(e: Seq<(String, DecodedValue)>, k: int) -> bool {
    lookup(e, field_key(k)) matches Some(v) && !fits(v, field_shape(k))
}

/// The first known setting, from `k` on, that is present with the wrong type.
pub open spec fn first_failure(e: Seq<(String, DecodedValue)>, k: int) -> Option<int>
    decreases FIELD_COUNT - k,
{
    if k >= FIELD_COUNT {
        None
    } else if fails(e, k) {
        Some(k)
    } else {
        first_failure(e, k + 1)
    }
}

/// The keys of a dictionary.
pub open spec fn keys_of(e: Seq<(String, DecodedValue)>) -> Set<Seq<char>> {
    e.map_values(|p: (String, DecodedValue)| p.0@).to_set()
}

/// Whether no key occurs twice.
pub open spec fn distinct_keys(e: Seq<(String, DecodedValue)>) -> bool {
    forall|i: int, j: int| 0 <= i < j < e.len() ==> e[i].0@ != e[j].0@
}

/// A text setting: the value read as a string, else `default`.
pub open spec fn text_field(o: Option<DecodedValue>, default: Seq<char>) -> Seq<char> {
    match o {
        Some(v) => match v.text {
            Some(t) => t@,
            None => default,
        },
        None => default,
    }
}

/// A string-list setting: the value read as strings, else empty.
pub open spec fn list_field(o: Option<DecodedValue>) -> Seq<String> {
    match o {
        Some(v) => match v.text_list {
            Some(l) => l@,
            None => Seq::empty(),
        },
        None => Seq::empty(),
    }
}

/// A pair-list setting: the value read as string pairs, else empty.
pub open spec fn pair_field(o: Option<DecodedValue>) -> Seq<(String, String)> {
    match o {
        Some(v) => match v.pair_list {
            Some(l) => l@,
            None => Seq::empty(),
        },
        None => Seq::empty(),
    }
}

/// The forward-port setting: the value read as four-string tuples, else empty.
pub open spec fn quad_field(o: Option<DecodedValue>) -> Seq<(String, String, String, String)> {
    match o {
        Some(v) => match v.quad_list {
            Some(l) => l@,
            None => Seq::empty(),
        },
        None => Seq::empty(),
    }
}

/// A boolean setting: the value read as a boolean, else `default`.
pub open spec fn bool_field(o: Option<DecodedValue>, default: bool) -> bool {
    match o {
        Some(v) => match v.boolean {
            Some(b) => b,
            None => default,
        },
        None => default,
    }
}

/// A priority setting: the value read as a 32-bit integer, else zero.
pub open spec fn int_field(o: Option<DecodedValue>) -> i32 {
    match o {
        Some(v) => match v.int32 {
            Some(i) => i,
            None => 0,
        },
        None => 0,
    }
}

/// Whether `s` is the snapshot that the dictionary `e` decodes to: each known
/// setting as given, or firewalld's default when omitted, and the remaining
/// keys, sorted, as unknown keys.
pub open spec fn decoded(e: Seq<(String, DecodedValue)>, s: ZoneSettingsSnapshot) -> bool {
    let f = |k: int| lookup(e, field_key(k));
    &&& s.short_name@ == text_field(f(0), ""@)
    &&& s.description@ == text_field(f(1), ""@)
    &&& s.target@ == text_field(f(2), "default"@)
    &&& s.services@ == list_field(f(3))
    &&& s.ports@ == pair_field(f(4))
    &&& s.protocols@ == list_field(f(5))
    &&& s.source_ports@ == pair_field(f(6))
    &&& s.icmp_blocks@ == list_field(f(7))
    &&& s.icmp_block_inversion == bool_field(f(8), false)
    &&& s.masquerade == bool_field(f(9), false)
    &&& s.forward_ports@ == quad_field(f(10))
    &&& s.interfaces@ == list_field(f(11))
    &&& s.sources@ == list_field(f(12))
    &&& s.rich_rules@ == list_field(f(13))
    &&& s.forward == bool_field(f(14), true)
    &&& s.ingress_priority == int_field(f(15))
    &&& s.egress_priority == int_field(f(16))
    &&& strictly_sorted::<String>(views(s.unknown_keys@))
    &&& views(s.unknown_keys@).to_set() == keys_of(e).filter(|k: Seq<char>| !is_known_key(k))
}

/// Each field of a decoded snapshot holds what the dictionary stores under
/// the key of that setting (`short`, `description`, `target`, `services`,
/// `ports`, `protocols`, `source_ports`, `icmp_blocks`,
/// `icmp_block_inversion`, `masquerade`, `forward_ports`, `interfaces`,
/// `sources`, `rules_str`, `forward`, `ingress_priority`,
/// `egress_priority`), or firewalld's default when the key is absent.
pub proof fn lemma_decoded_fields_follow_their_keys(e: Seq<(String, DecodedValue)>, s: ZoneSettingsSnapshot)
    requires
        decoded(e, s),
    ensures
        s.short_name@ == text_field(lookup(e, "short"@), ""@),
        s.description@ == text_field(lookup(e, "description"@), ""@),
        s.target@ == text_field(lookup(e, "target"@), "default"@),
        s.services@ == list_field(lookup(e, "services"@)),
        s.ports@ == pair_field(lookup(e, "ports"@)),
        s.protocols@ == list_field(lookup(e, "protocols"@)),
        s.source_ports@ == pair_field(lookup(e, "source_ports"@)),
        s.icmp_blocks@ == list_field(lookup(e, "icmp_blocks"@)),
        s.icmp_block_inversion == bool_field(lookup(e, "icmp_block_inversion"@), false),
        s.masquerade == bool_field(lookup(e, "masquerade"@), false),
        s.forward_ports@ == quad_field(lookup(e, "forward_ports"@)),
        s.interfaces@ == list_field(lookup(e, "interfaces"@)),
        s.sources@ == list_field(lookup(e, "sources"@)),
        s.rich_rules@ == list_field(lookup(e, "rules_str"@)),
        s.forward == bool_field(lookup(e, "forward"@), true),
        s.ingress_priority == int_field(lookup(e, "ingress_priority"@)),
        s.egress_priority == int_field(lookup(e, "egress_priority"@)),
{
    reveal_strlit("short");
    reveal_strlit("description");
    reveal_strlit("target");
    reveal_strlit("services");
    reveal_strlit("ports");
    reveal_strlit("protocols");
    reveal_strlit("source_ports");
    reveal_strlit("icmp_blocks");
    reveal_strlit("icmp_block_inversion");
    reveal_strlit("masquerade");
    reveal_strlit("forward_ports");
    reveal_strlit("interfaces");
    reveal_strlit("sources");
    reveal_strlit("rules_str");
    reveal_strlit("forward");
    reveal_strlit("ingress_priority");
    reveal_strlit("egress_priority");
}

fn known_index(key: &str) -> (r: Option<usize>)
    ensures
        match r {
            Some(k) => k < FIELD_COUNT && field_key(k as int) == key@,
            None => forall|k: int| 0 <= k < FIELD_COUNT ==> field_key(k) != key@,
        },
{
    let mut k: usize = 0;
    while k < FIELD_COUNT
        invariant
            k <= FIELD_COUNT,
            forall|j: int| 0 <= j < k ==> field_key(j) != key@,
        decreases FIELD_COUNT - k,
    {
        if str_equal(field_key_str(k), key) {
            return Some(k);
        }
        k = k + 1;
    }
    None
}

fn take(slots: &mut Vec<Option<DecodedValue>>, k: usize) -> (r: Option<DecodedValue>)
    requires
        k < old(slots)@.len(),
    ensures
        r == old(slots)@[k as int],
        final(slots)@ == old(slots)@.update(k as int, None),
{
    let v = slots.remove(k);
    slots.insert(k, None);
    assert(slots@ =~= old(slots)@.update(k as int, None));
    v
}

fn text_or(o: Option<DecodedValue>, default: &str) -> (r: String)
    ensures
        r@ == text_field(o, default@),
{
    match o {
        Some(v) => match v.text {
            Some(t) => t,
            None => owned(default),
        },
        None => owned(default),
    }
}

fn list_or_empty(o: Option<DecodedValue>) -> (r: Vec<String>)
    ensures
        r@ == list_field(o),
{
    match o {
        Some(v) => match v.text_list {
            Some(l) => l,
            None => Vec::new(),
        },
        None => Vec::new(),
    }
}

fn pairs_or_empty(o: Option<DecodedValue>) -> (r: Vec<(String, String)>)
    ensures
        r@ == pair_field(o),
{
    match o {
        Some(v) => match v.pair_list {
            Some(l) => l,
            None => Vec::new(),
        },
        None => Vec::new(),
    }
}

fn quads_or_empty(o: Option<DecodedValue>) -> (r: Vec<(String, String, String, String)>)
    ensures
        r@ == quad_field(o),
{
    match o {
        Some(v) => match v.quad_list {
            Some(l) => l,
            None => Vec::new(),
        },
        None => Vec::new(),
    }
}

fn bool_or(o: Option<DecodedValue>, default: bool) -> (r: bool)
    ensures
        r == bool_field(o, default),
{
    match o {
        Some(v) => match v.boolean {
            Some(b) => b,
            None => default,
        },
        None => default,
    }
}

fn int_or_zero(o: Option<DecodedValue>) -> (r: i32)
    ensures
        r == int_field(o),
{
    match o {
        Some(v) => match v.int32 {
            Some(i) => i,
            None => 0,
        },
        None => 0,
    }
}

proof fn lemma_first_failure_none(e: Seq<(String, DecodedValue)>, k: int)
    requires
        0 <= k <= FIELD_COUNT,
        forall|j: int| k <= j < FIELD_COUNT ==> !fails(e, j),
    ensures
        first_failure(e, k) is None,
    decreases FIELD_COUNT - k,
{
    if k < FIELD_COUNT {
        lemma_first_failure_none(e, k + 1);
    }
}

proof fn lemma_first_failure_at(e: Seq<(String, DecodedValue)>, k: int, m: int)
    requires
        0 <= k <= m < FIELD_COUNT,
        forall|j: int| k <= j < m ==> !fails(e, j),
        fails(e, m),
    ensures
        first_failure(e, k) == Some(m),
    decreases m - k,
{
    if k < m {
        lemma_first_failure_at(e, k + 1, m);
    }
}

/// The length and first letter of each known key, which together tell the
/// keys apart.
spec fn key_mark(k: int) -> (int, char) {
    if k == 0 { (5, 's') }
    else if k == 1 { (11, 'd') }
    else if k == 2 { (6, 't') }
    else if k == 3 { (8, 's') }
    else if k == 4 { (5, 'p') }
    else if k == 5 { (9, 'p') }
    else if k == 6 { (12, 's') }
    else if k == 7 { (11, 'i') }
    else if k == 8 { (20, 'i') }
    else if k == 9 { (10, 'm') }
    else if k == 10 { (13, 'f') }
    else if k == 11 { (10, 'i') }
    else if k == 12 { (7, 's') }
    else if k == 13 { (9, 'r') }
    else if k == 14 { (7, 'f') }
    else if k == 15 { (16, 'i') }
    else { (15, 'e') }
}

proof fn lemma_key_mark(k: int)
    requires
        0 <= k < FIELD_COUNT,
    ensures
        field_key(k).len() == key_mark(k).0,
        field_key(k)[0] == key_mark(k).1,
{
    reveal_strlit("short");
    reveal_strlit("description");
    reveal_strlit("target");
    reveal_strlit("services");
    reveal_strlit("ports");
    reveal_strlit("protocols");
    reveal_strlit("source_ports");
    reveal_strlit("icmp_blocks");
    reveal_strlit("icmp_block_inversion");
    reveal_strlit("masquerade");
    reveal_strlit("forward_ports");
    reveal_strlit("interfaces");
    reveal_strlit("sources");
    reveal_strlit("rules_str");
    reveal_strlit("forward");
    reveal_strlit("ingress_priority");
    reveal_strlit("egress_priority");
}

proof fn lemma_field_keys_distinct(j: int, k: int)
    requires
        0 <= j < FIELD_COUNT,
        0 <= k < FIELD_COUNT,
        j != k,
    ensures
        field_key(j) != field_key(k),
{
    lemma_key_mark(j);
    lemma_key_mark(k);
    assert(key_mark(j) != key_mark(k));
}

/// The slots of the known settings, each holding the value that the
/// dictionary gives it, and the sorted unknown keys.
fn collect_slots(settings: Vec<(String, DecodedValue)>) -> (r: (Vec<Option<DecodedValue>>, Vec<String>))
    requires
        distinct_keys(settings@),
    ensures
        r.0@.len() == FIELD_COUNT,
        forall|j: int| 0 <= j < FIELD_COUNT ==> #[trigger] r.0@[j] == lookup(settings@, field_key(j)),
        strictly_sorted::<String>(views(r.1@)),
        views(r.1@).to_set() == keys_of(settings@).filter(|k: Seq<char>| !is_known_key(k)),
{
        let ghost e = settings@;
        let mut slots: Vec<Option<DecodedValue>> = Vec::new();
        let mut n: usize = 0;
        while n < FIELD_COUNT
            invariant
                n <= FIELD_COUNT,
                slots@.len() == n,
                forall|k: int| 0 <= k < n ==> slots@[k] is None,
            decreases FIELD_COUNT - n,
        {
            slots.push(None);
            n = n + 1;
        }
        let mut unknown: Vec<String> = Vec::new();
        let ghost is_unknown = |k: Seq<char>| !is_known_key(k);
        assert(views(unknown@).to_set() =~= keys_of(e.take(0)).filter(is_unknown));
        let mut i: usize = 0;
        let total = settings.len();
        let mut rest = settings;
        while rest.len() > 0
            invariant
                i <= e.len(),
                e.len() == total,
                rest@ == e.skip(i as int),
                slots@.len() == FIELD_COUNT,
                forall|k: int| 0 <= k < FIELD_COUNT ==> #[trigger] slots@[k] == lookup(
                    e.take(i as int),
                    field_key(k),
                ),
                strictly_sorted::<String>(views(unknown@)),
                views(unknown@).to_set() == keys_of(e.take(i as int)).filter(is_unknown),
                is_unknown == (|k: Seq<char>| !is_known_key(k)),
            decreases rest@.len(),
        {
            let (key, value) = rest.remove(0);
            assert(e[i as int] == (key, value));
            proof {
                let pre = e.take(i as int);
                let post = e.take(i + 1);
                assert(post =~= pre.push((key, value)));
                assert(post.drop_last() =~= pre);
                let pk = pre.map_values(|p: (String, DecodedValue)| p.0@);
                let qk = post.map_values(|p: (String, DecodedValue)| p.0@);
                assert(qk =~= pk.push(key@));
                assert(keys_of(post) =~= keys_of(pre).insert(key@)) by {
                    assert forall|x: Seq<char>| qk.to_set().contains(x) <==> pk.to_set().insert(
                        key@,
                    ).contains(x) by {
                        if qk.contains(x) {
                            let j = choose|j: int| 0 <= j < qk.len() && qk[j] == x;
                            if j < pk.len() {
                                assert(pk[j] == x);
                            }
                        }
                        if pk.contains(x) {
                            let j = choose|j: int| 0 <= j < pk.len() && pk[j] == x;
                            assert(qk[j] == x);
                        }
                        if x == key@ {
                            assert(qk[pk.len() as int] == x);
                        }
                    }
                }
            }
            match known_index(key.as_str()) {
                Some(k) => {
                    slots.set(k, Some(value));
                    proof {
                        assert forall|j: int| 0 <= j < FIELD_COUNT implies #[trigger] slots@[j]
                            == lookup(e.take(i + 1), field_key(j)) by {
                            if j != k {
                                lemma_field_keys_distinct(j, k as int);
                            }
                        }
                        assert(is_known_key(key@));
                        assert(keys_of(e.take(i + 1)).filter(is_unknown) =~= keys_of(
                            e.take(i as int),
                        ).filter(is_unknown));
                    }
                },
                None => {
                    if str_equal(key.as_str(), "version") {
                        assert(is_known_key(key@));
                        assert(keys_of(e.take(i + 1)).filter(is_unknown) =~= keys_of(
                            e.take(i as int),
                        ).filter(is_unknown));
                    } else {
                        assert(!is_known_key(key@));
                        insert_sorted(&mut unknown, key);
                        assert(keys_of(e.take(i + 1)).filter(is_unknown) =~= keys_of(
                            e.take(i as int),
                        ).filter(is_unknown).insert(e[i as int].0@));
                    }
                },
            }
            i = i + 1;
            assert(rest@ =~= e.skip(i as int));
        }
        assert(e.take(i as int) =~= e);
        (slots, unknown)
}

/// Fails on the first slot, in field order, whose value has another type
/// than its setting.
fn check_slots(slots: &Vec<Option<DecodedValue>>, Ghost(e): Ghost<Seq<(String, DecodedValue)>>) -> (r: Result<(), ZoneSettingsParseError>)
    requires
        slots@.len() == FIELD_COUNT,
        forall|j: int| 0 <= j < FIELD_COUNT ==> #[trigger] slots@[j] == lookup(e, field_key(j)),
    ensures
        match first_failure(e, 0) {
            Some(k) => {
                &&& r matches Err(ZoneSettingsParseError::InvalidType { key, expected, actual })
                &&& key@ == field_key(k)
                &&& expected@ == shape_words(field_shape(k))
                &&& lookup(e, field_key(k)) matches Some(v)
                &&& actual == v.signature
            },
            None => r is Ok,
        },
{
        let mut k: usize = 0;
        while k < FIELD_COUNT
            invariant
                k <= FIELD_COUNT,
                slots@.len() == FIELD_COUNT,
                forall|j: int| 0 <= j < FIELD_COUNT ==> #[trigger] slots@[j] == lookup(e, field_key(j)),
                forall|j: int| 0 <= j < k ==> !fails(e, j),
            decreases FIELD_COUNT - k,
        {
            let shape = field_shape_of(k);
            let failed = match &slots[k] {
                Some(v) => !value_fits(v, shape),
                None => false,
            };
            if failed {
                proof {
                    lemma_first_failure_at(e, 0, k as int);
                }
                let signature = match &slots[k] {
                    Some(v) => v.signature.clone(),
                    None => String::new(),
                };
                return Err(ZoneSettingsParseError::InvalidType {
                    key: field_key_str(k),
                    expected: shape_words_str(shape),
                    actual: signature,
                });
            }
            k = k + 1;
        }
        proof {
            lemma_first_failure_none(e, 0);
        }
        Ok(())
}

/// With distinct keys, the dictionary holds for `key` exactly the value of
/// the entry with that key.
proof fn lemma_lookup_distinct(e: Seq<(String, DecodedValue)>, key: Seq<char>)
    requires
        distinct_keys(e),
    ensures
        forall|i: int| 0 <= i < e.len() && #[trigger] e[i].0@ == key ==> lookup(e, key) == Some(e[i].1),
        (forall|i: int| 0 <= i < e.len() ==> #[trigger] e[i].0@ != key) ==> lookup(e, key) is None,
    decreases e.len(),
{
    if e.len() > 0 {
        let rest = e.drop_last();
        assert(distinct_keys(rest)) by {
            assert forall|i: int, j: int| 0 <= i < j < rest.len() implies rest[i].0@ != rest[j].0@ by {
                assert(rest[i] == e[i] && rest[j] == e[j]);
            }
        }
        lemma_lookup_distinct(rest, key);
        assert forall|i: int| 0 <= i < e.len() && #[trigger] e[i].0@ == key implies lookup(e, key) == Some(
            e[i].1,
        ) by {
            if i < e.len() - 1 {
                assert(rest[i] == e[i]);
                assert(e[i].0@ != e[e.len() - 1].0@);
            }
        }
        if forall|i: int| 0 <= i < e.len() ==> #[trigger] e[i].0@ != key {
            assert(e[e.len() - 1].0@ != key);
            assert forall|i: int| 0 <= i < rest.len() implies #[trigger] rest[i].0@ != key by {
                assert(rest[i] == e[i]);
            }
        }
    }
}

/// Two listings of one dictionary give every key the same value and hold
/// the same keys.
proof fn lemma_same_dictionary(e1: Seq<(String, DecodedValue)>, e2: Seq<(String, DecodedValue)>)
    requires
        distinct_keys(e1),
        distinct_keys(e2),
        e1.to_multiset() == e2.to_multiset(),
    ensures
        forall|key: Seq<char>| #[trigger] lookup(e1, key) == lookup(e2, key),
        keys_of(e1) == keys_of(e2),
{
    e1.to_multiset_ensures();
    e2.to_multiset_ensures();
    assert forall|key: Seq<char>| #[trigger] lookup(e1, key) == lookup(e2, key) by {
        lemma_lookup_distinct(e1, key);
        lemma_lookup_distinct(e2, key);
        if exists|i: int| 0 <= i < e1.len() && #[trigger] e1[i].0@ == key {
            let i = choose|i: int| 0 <= i < e1.len() && #[trigger] e1[i].0@ == key;
            assert(e1.contains(e1[i]));
            assert(e1.to_multiset().count(e1[i]) > 0);
            assert(e2.to_multiset().count(e1[i]) > 0);
            assert(e2.contains(e1[i]));
            let j = choose|j: int| 0 <= j < e2.len() && e2[j] == e1[i];
            assert(e2[j].0@ == key);
        } else if exists|j: int| 0 <= j < e2.len() && #[trigger] e2[j].0@ == key {
            let j = choose|j: int| 0 <= j < e2.len() && #[trigger] e2[j].0@ == key;
            assert(e2.contains(e2[j]));
            assert(e2.to_multiset().count(e2[j]) > 0);
            assert(e1.to_multiset().count(e2[j]) > 0);
            assert(e1.contains(e2[j]));
            let i = choose|i: int| 0 <= i < e1.len() && e1[i] == e2[j];
            assert(e1[i].0@ == key);
        }
    }
    let k1 = e1.map_values(|p: (String, DecodedValue)| p.0@);
    let k2 = e2.map_values(|p: (String, DecodedValue)| p.0@);
    assert forall|x: Seq<char>| k1.contains(x) implies k2.contains(x) by {
        let i = choose|i: int| 0 <= i < k1.len() && k1[i] == x;
        assert(e1.contains(e1[i]));
        assert(e1.to_multiset().count(e1[i]) > 0);
        assert(e2.to_multiset().count(e1[i]) > 0);
        assert(e2.contains(e1[i]));
        let j = choose|j: int| 0 <= j < e2.len() && e2[j] == e1[i];
        assert(k2[j] == x);
    }
    assert forall|x: Seq<char>| k2.contains(x) implies k1.contains(x) by {
        let j = choose|j: int| 0 <= j < k2.len() && k2[j] == x;
        assert(e2.contains(e2[j]));
        assert(e2.to_multiset().count(e2[j]) > 0);
        assert(e1.to_multiset().count(e2[j]) > 0);
        assert(e1.contains(e2[j]));
        let i = choose|i: int| 0 <= i < e1.len() && e1[i] == e2[j];
        assert(k1[i] == x);
    }
    assert(k1.to_set() =~= k2.to_set());
}

proof fn lemma_first_failure_same(e1: Seq<(String, DecodedValue)>, e2: Seq<(String, DecodedValue)>, k: int)
    requires
        forall|key: Seq<char>| #[trigger] lookup(e1, key) == lookup(e2, key),
    ensures
        first_failure(e1, k) == first_failure(e2, k),
    decreases FIELD_COUNT - k,
{
    if k < FIELD_COUNT {
        assert(lookup(e1, field_key(k)) == lookup(e2, field_key(k)));
        lemma_first_failure_same(e1, e2, k + 1);
    }
}

/// A dictionary decodes the same whatever the order of its entries: the
/// same setting fails first, or the same snapshot results.
pub proof fn lemma_decoding_ignores_entry_order(
    e1: Seq<(String, DecodedValue)>,
    e2: Seq<(String, DecodedValue)>,
    s: ZoneSettingsSnapshot,
)
    requires
        distinct_keys(e1),
        distinct_keys(e2),
        e1.to_multiset() == e2.to_multiset(),
    ensures
        first_failure(e1, 0) == first_failure(e2, 0),
        decoded(e1, s) == decoded(e2, s),
{
    lemma_same_dictionary(e1, e2);
    lemma_first_failure_same(e1, e2, 0);
    assert(forall|k: int| #[trigger] lookup(e1, field_key(k)) == lookup(e2, field_key(k)));
}

impl ZoneSettingsSnapshot {
    /// Decodes a firewalld `getSettings2` dictionary, given by its entries.
    /// Firewalld may omit empty values, so a missing setting takes
    /// firewalld's zone default; `version` is metadata outside the snapshot;
    /// every other key is kept among the unknown keys. The first known setting, in the
    /// order of the snapshot's fields, that holds a value of another type
    /// makes decoding fail.
    pub fn from_settings(settings: Vec<(String, DecodedValue)>) -> (r: Result<
        ZoneSettingsSnapshot,
        ZoneSettingsParseError,
    >)
        requires
            distinct_keys(settings@),
        ensures
            match first_failure(settings@, 0) {
                Some(k) => {
                    &&& r matches Err(ZoneSettingsParseError::InvalidType { key, expected, actual })
                    &&& key@ == field_key(k)
                    &&& expected@ == shape_words(field_shape(k))
                    &&& lookup(settings@, field_key(k)) matches Some(v)
                    &&& actual == v.signature
                },
                None => r matches Ok(s) && decoded(settings@, s),
            },
    {
        let ghost e = settings@;
        let (mut slots, unknown) = collect_slots(settings);
        match check_slots(&slots, Ghost(e)) {
            Err(err) => {
                return Err(err);
            },
            Ok(()) => {},
        }
        let ghost s0 = slots@;
        let short_name = text_or(take(&mut slots, 0), "");
        let description = text_or(take(&mut slots, 1), "");
        let target = text_or(take(&mut slots, 2), "default");
        let services = list_or_empty(take(&mut slots, 3));
        let ports = pairs_or_empty(take(&mut slots, 4));
        let protocols = list_or_empty(take(&mut slots, 5));
        let source_ports = pairs_or_empty(take(&mut slots, 6));
        let icmp_blocks = list_or_empty(take(&mut slots, 7));
        let icmp_block_inversion = bool_or(take(&mut slots, 8), false);
        let masquerade = bool_or(take(&mut slots, 9), false);
        let forward_ports = quads_or_empty(take(&mut slots, 10));
        let interfaces = list_or_empty(take(&mut slots, 11));
        let sources = list_or_empty(take(&mut slots, 12));
        let rich_rules = list_or_empty(take(&mut slots, 13));
        let forward = bool_or(take(&mut slots, 14), true);
        let ingress_priority = int_or_zero(take(&mut slots, 15));
        let egress_priority = int_or_zero(take(&mut slots, 16));
        proof {
            assert(s0[0] == lookup(e, field_key(0)));
            assert(s0[16] == lookup(e, field_key(16)));
        }
        Ok(ZoneSettingsSnapshot {
            short_name,
            description,
            target,
            services,
            ports,
            protocols,
            source_ports,
            icmp_blocks,
            icmp_block_inversion,
            masquerade,
            forward_ports,
            interfaces,
            sources,
            rich_rules,
            forward,
            ingress_priority,
            egress_priority,
            unknown_keys: unknown,
        })
    }
}

} // verus!
