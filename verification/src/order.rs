//! Lexicographic order on character sequences, and sorted duplicate-free sequences of
//! values ordered by their views (the order and uniqueness that `BTreeSet` gives).
use vstd::prelude::*;

verus! {

/// `a` sorts strictly before `b`: code points compared lexicographically, which is the order
/// of `str`'s `Ord` on the UTF-8 bytes.
pub open spec fn seq_lt(a: Seq<char>, b: Seq<char>) -> bool
    decreases a.len(),
{
    if a.len() == 0 {
        b.len() > 0
    } else if b.len() == 0 {
        false
    } else if a[0] != b[0] {
        a[0] < b[0]
    } else {
        seq_lt(a.drop_first(), b.drop_first())
    }
}

/// No sequence sorts before itself.
pub proof fn lemma_seq_lt_irreflexive(a: Seq<char>)
    ensures
        !seq_lt(a, a),
    decreases a.len(),
{
    if a.len() > 0 {
        lemma_seq_lt_irreflexive(a.drop_first());
    }
}

/// The order is transitive.
pub proof fn lemma_seq_lt_transitive(a: Seq<char>, b: Seq<char>, c: Seq<char>)
    requires
        seq_lt(a, b),
        seq_lt(b, c),
    ensures
        seq_lt(a, c),
    decreases a.len(),
{
    if a.len() > 0 && b.len() > 0 && c.len() > 0 && a[0] == b[0] && b[0] == c[0] {
        lemma_seq_lt_transitive(a.drop_first(), b.drop_first(), c.drop_first());
    }
}

/// Two distinct sequences are ordered one way or the other.
pub proof fn lemma_seq_lt_total(a: Seq<char>, b: Seq<char>)
    ensures
        a != b ==> seq_lt(a, b) || seq_lt(b, a),
    decreases a.len(),
{
    if a.len() > 0 && b.len() > 0 && a[0] == b[0] {
        lemma_seq_lt_total(a.drop_first(), b.drop_first());
        if a.drop_first() == b.drop_first() {
            assert(a =~= seq![a[0]] + a.drop_first());
            assert(b =~= seq![b[0]] + b.drop_first());
        }
    } else if a.len() == 0 && b.len() == 0 {
        assert(a =~= b);
    }
}

/// Whether `a` sorts strictly before `b`.
pub fn chars_lt(a: &[char], b: &[char]) -> (r: bool)
    ensures
        r == seq_lt(a@, b@),
{
    let mut i: usize = 0;
    assert(a@.skip(0) =~= a@);
    assert(b@.skip(0) =~= b@);
    while i < a.len() && i < b.len()
        invariant
            i <= a@.len(),
            i <= b@.len(),
            seq_lt(a@, b@) == seq_lt(a@.skip(i as int), b@.skip(i as int)),
        decreases a@.len() - i,
    {
        let x = a[i];
        let y = b[i];
        if x != y {
            return x < y;
        }
        assert(a@.skip(i as int).drop_first() =~= a@.skip(i + 1));
        assert(b@.skip(i as int).drop_first() =~= b@.skip(i + 1));
        i = i + 1;
    }
    i < b.len()
}

/// Lexicographic order on equally long field lists.
pub open spec fn fields_lt(a: Seq<Seq<char>>, b: Seq<Seq<char>>) -> bool
    decreases a.len(),
{
    if a.len() == 0 || b.len() == 0 {
        false
    } else if a[0] != b[0] {
        seq_lt(a[0], b[0])
    } else {
        fields_lt(a.drop_first(), b.drop_first())
    }
}

/// No field list precedes itself.
pub proof fn lemma_fields_lt_irreflexive(a: Seq<Seq<char>>)
    ensures
        !fields_lt(a, a),
    decreases a.len(),
{
    if a.len() > 0 {
        lemma_fields_lt_irreflexive(a.drop_first());
    }
}

/// The order of field lists is transitive.
pub proof fn lemma_fields_lt_transitive(a: Seq<Seq<char>>, b: Seq<Seq<char>>, c: Seq<Seq<char>>)
    requires
        fields_lt(a, b),
        fields_lt(b, c),
        a.len() == b.len(),
        b.len() == c.len(),
    ensures
        fields_lt(a, c),
    decreases a.len(),
{
    if a[0] != b[0] && b[0] != c[0] {
        lemma_seq_lt_transitive(a[0], b[0], c[0]);
        if a[0] == c[0] {
            lemma_seq_lt_irreflexive(a[0]);
            lemma_seq_lt_transitive(a[0], b[0], a[0]);
        }
    } else if a[0] == b[0] && b[0] == c[0] {
        lemma_fields_lt_transitive(a.drop_first(), b.drop_first(), c.drop_first());
    }
}

/// Of two different field lists, one precedes the other.
pub proof fn lemma_fields_lt_total(a: Seq<Seq<char>>, b: Seq<Seq<char>>)
    requires
        a.len() == b.len(),
    ensures
        a != b ==> fields_lt(a, b) || fields_lt(b, a),
    decreases a.len(),
{
    if a.len() == 0 {
        assert(a =~= b);
    } else if a[0] != b[0] {
        lemma_seq_lt_total(a[0], b[0]);
    } else {
        lemma_fields_lt_total(a.drop_first(), b.drop_first());
        if a.drop_first() == b.drop_first() {
            assert(a =~= seq![a[0]] + a.drop_first());
            assert(b =~= seq![b[0]] + b.drop_first());
        }
    }
}

pub(crate) fn fields_lt_exec(a: &[&String], b: &[&String], Ghost(fa): Ghost<Seq<Seq<char>>>, Ghost(fb): Ghost<Seq<Seq<char>>>) -> (r: bool)
    requires
        a@.len() == fa.len(),
        b@.len() == fb.len(),
        a@.len() == b@.len(),
        forall|k: int| 0 <= k < a@.len() ==> (#[trigger] a@[k])@ == fa[k],
        forall|k: int| 0 <= k < b@.len() ==> (#[trigger] b@[k])@ == fb[k],
    ensures
        r == fields_lt(fa, fb),
{
    let mut i: usize = 0;
    assert(fa.skip(0) =~= fa);
    assert(fb.skip(0) =~= fb);
    while i < a.len()
        invariant
            i <= a@.len(),
            a@.len() == b@.len(),
            a@.len() == fa.len(),
            b@.len() == fb.len(),
            forall|k: int| 0 <= k < a@.len() ==> (#[trigger] a@[k])@ == fa[k],
            forall|k: int| 0 <= k < b@.len() ==> (#[trigger] b@[k])@ == fb[k],
            fields_lt(fa, fb) == fields_lt(fa.skip(i as int), fb.skip(i as int)),
        decreases a@.len() - i,
    {
        assert(a@[i as int]@ == fa[i as int]);
        assert(b@[i as int]@ == fb[i as int]);
        if !a[i].eq(b[i]) {
            return a[i].less_than(b[i]);
        }
        assert(fa.skip(i as int).drop_first() =~= fa.skip(i + 1));
        assert(fb.skip(i as int).drop_first() =~= fb.skip(i + 1));
        i = i + 1;
    }
    false
}

/// Values with a strict total order on their views, and a way to copy them.
pub trait Ordered: View + Sized {
    /// The strict order on views.
    spec fn view_lt(a: Self::V, b: Self::V) -> bool;

    proof fn lemma_irreflexive(a: Self::V)
        ensures
            !Self::view_lt(a, a),
    ;

    proof fn lemma_transitive(a: Self::V, b: Self::V, c: Self::V)
        requires
            Self::view_lt(a, b),
            Self::view_lt(b, c),
        ensures
            Self::view_lt(a, c),
    ;

    proof fn lemma_total(a: Self::V, b: Self::V)
        ensures
            a != b ==> Self::view_lt(a, b) || Self::view_lt(b, a),
    ;

    /// Whether `self` sorts strictly before `other`.
    fn less_than(&self, other: &Self) -> (r: bool)
        ensures
            r == Self::view_lt(self@, other@),
    ;

    /// Whether `self` and `other` have the same view.
    fn same_as(&self, other: &Self) -> (r: bool)
        ensures
            r == (self@ == other@),
    ;

    /// A copy with the same view.
    fn duplicate(&self) -> (r: Self)
        ensures
            r@ == self@,
    ;
}

/// The views of the elements of `s`.
pub open spec fn views<T: View>(s: Seq<T>) -> Seq<T::V> {
    s.map_values(|x: T| x@)
}

/// A sequence of views is strictly increasing, hence free of duplicates.
pub open spec fn strictly_sorted<T: Ordered>(s: Seq<T::V>) -> bool {
    forall|i: int, j: int| 0 <= i < j < s.len() ==> T::view_lt(#[trigger] s[i], #[trigger] s[j])
}

/// Whether `v` holds an element whose view is `x`.
pub fn contains_view<T: Ordered>(v: &Vec<T>, x: &T) -> (r: bool)
    ensures
        r == views(v@).contains(x@),
{
    let mut i: usize = 0;
    while i < v.len()
        invariant
            i <= v@.len(),
            forall|k: int| 0 <= k < i ==> v@[k]@ != x@,
        decreases v@.len() - i,
    {
        if v[i].same_as(x) {
            assert(views(v@)[i as int] == x@);
            return true;
        }
        i = i + 1;
    }
    assert forall|k: int| 0 <= k < views(v@).len() implies views(v@)[k] != x@ by {
        assert(views(v@)[k] == v@[k]@);
    }
    false
}

/// Inserts `x` into a strictly sorted vector unless an equal view is already present.
pub fn insert_sorted<T: Ordered>(v: &mut Vec<T>, x: T)
    requires
        strictly_sorted::<T>(views(old(v)@)),
    ensures
        strictly_sorted::<T>(views(final(v)@)),
        views(final(v)@).to_set() == views(old(v)@).to_set().insert(x@),
{
    let ghost s0 = views(v@);
    let mut i: usize = 0;
    while i < v.len() && v[i].less_than(&x)
        invariant
            i <= v@.len(),
            views(v@) == s0,
            strictly_sorted::<T>(s0),
            forall|k: int| 0 <= k < i ==> T::view_lt(#[trigger] s0[k], x@),
        decreases v@.len() - i,
    {
        assert(s0[i as int] == v@[i as int]@);
        i = i + 1;
    }
    if i < v.len() && v[i].same_as(&x) {
        proof {
            assert(s0[i as int] == x@);
            assert(s0.to_set().insert(x@) =~= s0.to_set());
        }
        return;
    }
    proof {
        if i < v@.len() {
            assert(s0[i as int] == v@[i as int]@);
            T::lemma_total(s0[i as int], x@);
        }
    }
    v.insert(i, x);
    proof {
        let s1 = views(v@);
        assert(s1 =~= s0.insert(i as int, x@));
        assert forall|a: int, b: int| 0 <= a < b < s1.len() implies T::view_lt(#[trigger] s1[a], #[trigger] s1[b]) by {
            if b < i {
                assert(T::view_lt(s0[a], s0[b]));
            } else if a < i && b == i {
            } else if a < i && b > i {
                assert(T::view_lt(s0[a], s0[b - 1]));
            } else if a == i {
                assert(T::view_lt(x@, s0[i as int]));
                if b - 1 > i {
                    assert(T::view_lt(s0[i as int], s0[b - 1]));
                    T::lemma_transitive(x@, s0[i as int], s0[b - 1]);
                }
            } else {
                assert(T::view_lt(s0[a - 1], s0[b - 1]));
            }
        }
        assert forall|y: T::V| s1.to_set().contains(y) <==> s0.to_set().insert(x@).contains(y) by {
            if s1.contains(y) {
                let k = choose|k: int| 0 <= k < s1.len() && s1[k] == y;
                if k < i {
                    assert(s0[k] == y);
                } else if k > i {
                    assert(s0[k - 1] == y);
                }
            }
            if s0.contains(y) {
                let k = choose|k: int| 0 <= k < s0.len() && s0[k] == y;
                if k < i {
                    assert(s1[k] == y);
                } else {
                    assert(s1[k + 1] == y);
                }
            }
            if y == x@ {
                assert(s1[i as int] == y);
            }
        }
        assert(s1.to_set() =~= s0.to_set().insert(x@));
    }
}


/// The elements of `a` whose views do not occur in `b`, sorted and without duplicates.
pub fn sorted_difference<T: Ordered>(a: &Vec<T>, b: &Vec<T>) -> (r: Vec<T>)
    ensures
        strictly_sorted::<T>(views(r@)),
        views(r@).to_set() == views(a@).to_set().difference(views(b@).to_set()),
{
    let mut r: Vec<T> = Vec::new();
    let mut i: usize = 0;
    assert(views(r@).to_set() =~= Set::<T::V>::empty());
    while i < a.len()
        invariant
            i <= a@.len(),
            strictly_sorted::<T>(views(r@)),
            views(r@).to_set() == views(a@.take(i as int)).to_set().difference(views(b@).to_set()),
        decreases a@.len() - i,
    {
        proof {
            let pre = views(a@.take(i as int));
            let post = views(a@.take(i + 1));
            assert(post =~= pre.push(a@[i as int]@));
            assert forall|y: T::V| post.contains(y) <==> (pre.contains(y) || y == a@[i as int]@) by {
                if post.contains(y) {
                    let k = choose|k: int| 0 <= k < post.len() && #[trigger] post[k] == y;
                    if k < i {
                        assert(pre[k] == y);
                    }
                }
                if pre.contains(y) {
                    let k = choose|k: int| 0 <= k < pre.len() && #[trigger] pre[k] == y;
                    assert(post[k] == y);
                }
                if y == a@[i as int]@ {
                    assert(post[i as int] == y);
                }
            }
            assert(post.to_set() =~= pre.to_set().insert(a@[i as int]@));
        }
        if !contains_view(b, &a[i]) {
            let x = a[i].duplicate();
            insert_sorted(&mut r, x);
        }
        i = i + 1;
        assert(views(r@).to_set() =~= views(a@.take(i as int)).to_set().difference(views(b@).to_set()));
    }
    assert(a@.take(a@.len() as int) =~= a@);
    r
}

/// Whether `a` and `b` hold the same views, regardless of order and repetition.
pub fn same_members<T: Ordered>(a: &Vec<T>, b: &Vec<T>) -> (r: bool)
    ensures
        r == (views(a@).to_set() == views(b@).to_set()),
{
    let mut i: usize = 0;
    while i < a.len()
        invariant
            i <= a@.len(),
            forall|k: int| 0 <= k < i ==> views(b@).contains(#[trigger] a@[k]@),
        decreases a@.len() - i,
    {
        if !contains_view(b, &a[i]) {
            proof {
                assert(views(a@)[i as int] == a@[i as int]@);
                assert(views(a@).to_set().contains(a@[i as int]@));
                assert(!views(b@).to_set().contains(a@[i as int]@));
            }
            return false;
        }
        i = i + 1;
    }
    let mut j: usize = 0;
    while j < b.len()
        invariant
            j <= b@.len(),
            forall|k: int| 0 <= k < a@.len() ==> views(b@).contains(#[trigger] a@[k]@),
            forall|k: int| 0 <= k < j ==> views(a@).contains(#[trigger] b@[k]@),
        decreases b@.len() - j,
    {
        if !contains_view(a, &b[j]) {
            proof {
                assert(views(b@)[j as int] == b@[j as int]@);
                assert(views(b@).to_set().contains(b@[j as int]@));
                assert(!views(a@).to_set().contains(b@[j as int]@));
            }
            return false;
        }
        j = j + 1;
    }
    assert forall|y: T::V| views(a@).to_set().contains(y) <==> views(b@).to_set().contains(y) by {
        if views(a@).contains(y) {
            let k = choose|k: int| 0 <= k < views(a@).len() && views(a@)[k] == y;
            assert(a@[k]@ == y);
        }
        if views(b@).contains(y) {
            let k = choose|k: int| 0 <= k < views(b@).len() && views(b@)[k] == y;
            assert(b@[k]@ == y);
        }
    }
    assert(views(a@).to_set() =~= views(b@).to_set());
    true
}

/// The views of `a`, sorted and without duplicates.
pub fn sorted_unique<T: Ordered>(a: &Vec<T>) -> (r: Vec<T>)
    ensures
        strictly_sorted::<T>(views(r@)),
        views(r@).to_set() == views(a@).to_set(),
{
    let empty: Vec<T> = Vec::new();
    let r = sorted_difference(a, &empty);
    assert(views(empty@).to_set() =~= Set::<T::V>::empty());
    assert(views(a@).to_set().difference(Set::<T::V>::empty()) =~= views(a@).to_set());
    r
}

impl Ordered for String {
    open spec fn view_lt(a: Seq<char>, b: Seq<char>) -> bool {
        seq_lt(a, b)
    }

    proof fn lemma_irreflexive(a: Seq<char>) {
        lemma_seq_lt_irreflexive(a);
    }

    proof fn lemma_transitive(a: Seq<char>, b: Seq<char>, c: Seq<char>) {
        lemma_seq_lt_transitive(a, b, c);
    }

    proof fn lemma_total(a: Seq<char>, b: Seq<char>) {
        lemma_seq_lt_total(a, b);
    }

    fn less_than(&self, other: &Self) -> (r: bool) {
        let a = crate::text::chars_of(self.as_str());
        let b = crate::text::chars_of(other.as_str());
        chars_lt(a.as_slice(), b.as_slice())
    }

    fn same_as(&self, other: &Self) -> (r: bool) {
        self.eq(other)
    }

    fn duplicate(&self) -> (r: Self) {
        self.clone()
    }
}


/// A set has at most one strictly sorted listing.
pub proof fn lemma_sorted_listing_unique<T: Ordered>(a: Seq<T::V>, b: Seq<T::V>)
    requires
        strictly_sorted::<T>(a),
        strictly_sorted::<T>(b),
        a.to_set() == b.to_set(),
    ensures
        a == b,
    decreases a.len(),
{
    if a.len() == 0 {
        if b.len() > 0 {
            assert(b.to_set().contains(b[0]));
        }
        assert(a =~= b);
    } else if b.len() == 0 {
        assert(a.to_set().contains(a[0]));
    } else {
        assert(a.to_set().contains(a[0]));
        assert(b.to_set().contains(b[0]));
        let ka = choose|k: int| 0 <= k < b.len() && b[k] == a[0];
        let kb = choose|k: int| 0 <= k < a.len() && a[k] == b[0];
        if a[0] != b[0] {
            // a[0] = b[ka] with ka > 0 and b[0] = a[kb] with kb > 0 contradict each other.
            assert(ka > 0 && kb > 0);
            assert(T::view_lt(b[0], b[ka]));
            assert(T::view_lt(a[0], a[kb]));
            T::lemma_transitive(a[0], b[0], a[0]);
            T::lemma_irreflexive(a[0]);
        }
        let ra = a.drop_first();
        let rb = b.drop_first();
        assert forall|y: T::V| ra.to_set().contains(y) <==> rb.to_set().contains(y) by {
            if ra.contains(y) {
                let k = choose|k: int| 0 <= k < ra.len() && #[trigger] ra[k] == y;
                assert(a[k + 1] == y);
                assert(a.to_set().contains(y));
                let m = choose|m: int| 0 <= m < b.len() && #[trigger] b[m] == y;
                assert(T::view_lt(a[0], a[k + 1]));
                if m == 0 {
                    T::lemma_irreflexive(y);
                }
                assert(rb[m - 1] == y);
            }
            if rb.contains(y) {
                let k = choose|k: int| 0 <= k < rb.len() && #[trigger] rb[k] == y;
                assert(b[k + 1] == y);
                assert(b.to_set().contains(y));
                let m = choose|m: int| 0 <= m < a.len() && #[trigger] a[m] == y;
                assert(T::view_lt(b[0], b[k + 1]));
                if m == 0 {
                    T::lemma_irreflexive(y);
                }
                assert(ra[m - 1] == y);
            }
        }
        assert(ra.to_set() =~= rb.to_set());
        lemma_sorted_listing_unique::<T>(ra, rb);
        assert(a =~= seq![a[0]] + ra);
        assert(b =~= seq![b[0]] + rb);
    }
}

/// The strictly sorted listing of a set of views.
pub open spec fn sorted_listing<T: Ordered>(s: Set<T::V>) -> Seq<T::V> {
    choose|q: Seq<T::V>| strictly_sorted::<T>(q) && q.to_set() == s
}

/// A strictly sorted sequence is the sorted listing of its members.
pub proof fn lemma_sorted_listing<T: Ordered>(q: Seq<T::V>)
    requires
        strictly_sorted::<T>(q),
    ensures
        sorted_listing::<T>(q.to_set()) == q,
{
    let s = q.to_set();
    assert(strictly_sorted::<T>(q) && q.to_set() == s);
    let c = sorted_listing::<T>(s);
    lemma_sorted_listing_unique::<T>(c, q);
}

} // verus!
