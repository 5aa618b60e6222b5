//! Stable sorting by text keys: lists that firewalld reports, catalog entries
//! and display rows are shown ordered by their text, field by field.
use vstd::prelude::*;

use crate::models::IcmpTypeInfo;
use crate::order::{fields_lt, fields_lt_exec, lemma_fields_lt_irreflexive, lemma_fields_lt_total,
    lemma_fields_lt_transitive};

verus! {

/// Values ordered by a fixed number of text fields, compared lexicographically.
pub trait Keyed: Sized {
    /// The text fields that order a value.
    spec fn key(&self) -> Seq<Seq<char>>;

    proof fn lemma_key_len(a: &Self, b: &Self)
        ensures
            a.key().len() == b.key().len(),
    ;

    /// The fields of the key.
    fn key_fields<'a>(&'a self) -> (r: Vec<&'a String>)
        ensures
            r@.len() == self.key().len(),
            forall|k: int| 0 <= k < r@.len() ==> (#[trigger] r@[k])@ == self.key()[k],
    ;
}

/// Whether `s` is ordered by key, equal keys in any order.
pub open spec fn sorted_by_key<T: Keyed>(s: Seq<T>) -> bool {
    forall|i: int, j: int| 0 <= i < j < s.len() ==> !fields_lt(#[trigger] s[j].key(), #[trigger] s[i].key())
}

/// The predicate "has key `k`".
pub open spec fn key_is<T: Keyed>(k: Seq<Seq<char>>) -> spec_fn(T) -> bool {
    |x: T| x.key() == k
}

/// Whether `r` is the stable sort of `s`: ordered by key, and for every key the
/// values with that key appear in `r` exactly as they appear in `s`.
pub open spec fn stable_sort_of<T: Keyed>(r: Seq<T>, s: Seq<T>) -> bool {
    &&& sorted_by_key(r)
    &&& forall|k: Seq<Seq<char>>| #[trigger] r.filter(key_is::<T>(k)) == s.filter(key_is::<T>(k))
}

fn key_lt<T: Keyed>(a: &T, b: &T) -> (r: bool)
    ensures
        r == fields_lt(a.key(), b.key()),
{
    proof {
        T::lemma_key_len(a, b);
    }
    let fa = a.key_fields();
    let fb = b.key_fields();
    fields_lt_exec(fa.as_slice(), fb.as_slice(), Ghost(a.key()), Ghost(b.key()))
}

/// Filtering a sequence with one more element keeps that element at the end
/// exactly when it passes.
pub proof fn lemma_filter_push<T>(s: Seq<T>, x: T, p: spec_fn(T) -> bool)
    ensures
        s.push(x).filter(p) == (if p(x) { s.filter(p).push(x) } else { s.filter(p) }),
{
    reveal(Seq::filter);
    assert(s.push(x).drop_last() =~= s);
}

proof fn lemma_filter_none<T>(s: Seq<T>, p: spec_fn(T) -> bool)
    requires
        forall|i: int| 0 <= i < s.len() ==> !p(#[trigger] s[i]),
    ensures
        s.filter(p) == Seq::<T>::empty(),
    decreases s.len(),
{
    reveal(Seq::filter);
    if s.len() > 0 {
        assert(!p(s[s.len() - 1]));
        lemma_filter_none(s.drop_last(), p);
    }
}

/// Filtering a concatenation filters each part.
pub proof fn lemma_filter_append<T>(a: Seq<T>, b: Seq<T>, p: spec_fn(T) -> bool)
    ensures
        (a + b).filter(p) == a.filter(p) + b.filter(p),
    decreases b.len(),
{
    reveal(Seq::filter);
    if b.len() == 0 {
        assert(a + b =~= a);
        assert(a.filter(p) + b.filter(p) =~= a.filter(p));
    } else {
        lemma_filter_append(a, b.drop_last(), p);
        assert((a + b).drop_last() =~= a + b.drop_last());
        assert((a + b).last() == b.last());
        if p(b.last()) {
            assert(a.filter(p) + b.filter(p) =~= (a.filter(p) + b.drop_last().filter(p)).push(
                b.last(),
            ));
        }
    }
}

/// Inserting `x` at a position before which every key is at most `x`'s and
/// after which every key is greater keeps the per-key order of `s` and puts
/// `x` after the values with its key.
proof fn lemma_insert_filter<T: Keyed>(s: Seq<T>, p: int, x: T, k: Seq<Seq<char>>)
    requires
        0 <= p <= s.len(),
        forall|j: int| p <= j < s.len() ==> fields_lt(x.key(), #[trigger] s[j].key()),
    ensures
        s.insert(p, x).filter(key_is::<T>(k)) == (if x.key() == k {
            s.filter(key_is::<T>(k)).push(x)
        } else {
            s.filter(key_is::<T>(k))
        }),
{
    let f = key_is::<T>(k);
    let a = s.take(p);
    let b = s.skip(p);
    assert(s =~= a + b);
    assert(s.insert(p, x) =~= a.push(x) + b);
    lemma_filter_append(a, b, f);
    lemma_filter_append(a.push(x), b, f);
    lemma_filter_push(a, x, f);
    if x.key() == k {
        assert forall|j: int| 0 <= j < b.len() implies !f(#[trigger] b[j]) by {
            assert(b[j] == s[p + j]);
            assert(fields_lt(x.key(), s[p + j].key()));
            lemma_fields_lt_irreflexive(x.key());
        }
        lemma_filter_none(b, f);
        assert(a.filter(f) + b.filter(f) =~= a.filter(f));
        assert(a.filter(f).push(x) + b.filter(f) =~= a.filter(f).push(x));
    }
}

/// Whether two sequences hold, for every key, the same values in the same
/// order.
pub open spec fn same_per_key<T: Keyed>(a: Seq<T>, b: Seq<T>) -> bool {
    forall|k: Seq<Seq<char>>| #[trigger] a.filter(key_is::<T>(k)) == b.filter(key_is::<T>(k))
}

/// Two sequences ordered by key that hold the same values per key are equal.
proof fn lemma_sorted_same_per_key_equal<T: Keyed>(a: Seq<T>, b: Seq<T>)
    requires
        sorted_by_key(a),
        sorted_by_key(b),
        same_per_key(a, b),
    ensures
        a == b,
    decreases a.len(),
{
    if a.len() == 0 {
        if b.len() > 0 {
            let y = b.last();
            let p = key_is::<T>(y.key());
            assert(b =~= b.drop_last().push(y));
            lemma_filter_push(b.drop_last(), y, p);
            assert(a.filter(p) == b.filter(p));
            reveal(Seq::filter);
            assert(a.filter(p).len() == 0);
        }
        assert(a =~= b);
    } else {
        let x = a.last();
        let kx = x.key();
        let px = key_is::<T>(kx);
        assert(a =~= a.drop_last().push(x));
        lemma_filter_push(a.drop_last(), x, px);
        assert(a.filter(px) == b.filter(px));
        if b.len() == 0 {
            reveal(Seq::filter);
            assert(b.filter(px).len() == 0);
        }
        let y = b.last();
        let ky = y.key();
        let py = key_is::<T>(ky);
        assert(b =~= b.drop_last().push(y));
        lemma_filter_push(b.drop_last(), y, py);
        if kx != ky {
            T::lemma_key_len(&x, &y);
            lemma_fields_lt_total(kx, ky);
            if fields_lt(kx, ky) {
                // `y`'s key occurs in `a` before its last value, whose key is smaller.
                b.lemma_filter_contains(py, b.len() - 1);
                assert(a.filter(py) == b.filter(py));
                a.lemma_filter_contains_rev(py, y);
                let i = choose|i: int| 0 <= i < a.len() && a[i] == y;
                assert(i != a.len() - 1);
                assert(!fields_lt(a[a.len() - 1].key(), a[i].key()));
            } else {
                a.lemma_filter_contains(px, a.len() - 1);
                b.lemma_filter_contains_rev(px, x);
                let j = choose|j: int| 0 <= j < b.len() && b[j] == x;
                assert(j != b.len() - 1);
                assert(!fields_lt(b[b.len() - 1].key(), b[j].key()));
            }
        }
        assert(px == py);
        assert(b.drop_last().filter(px).push(y) == a.drop_last().filter(px).push(x));
        assert(x == b.drop_last().filter(px).push(y).last());
        assert(x == y);
        assert(a.drop_last().filter(px) =~= b.drop_last().filter(px)) by {
            assert(a.drop_last().filter(px) == a.drop_last().filter(px).push(x).drop_last());
            assert(b.drop_last().filter(px) == b.drop_last().filter(px).push(y).drop_last());
        }
        assert forall|k: Seq<Seq<char>>| #[trigger] a.drop_last().filter(key_is::<T>(k)) == b.drop_last().filter(
            key_is::<T>(k),
        ) by {
            let pk = key_is::<T>(k);
            lemma_filter_push(a.drop_last(), x, pk);
            lemma_filter_push(b.drop_last(), y, pk);
            assert(a.filter(pk) == b.filter(pk));
            if k != kx {
                assert(!pk(x));
            } else {
                assert(pk == px);
            }
        }
        lemma_sorted_same_per_key_equal(a.drop_last(), b.drop_last());
    }
}

/// A stable sort has exactly one outcome: two sequences that are each the
/// stable sort of `s` are equal.
pub proof fn lemma_stable_sort_unique<T: Keyed>(r1: Seq<T>, r2: Seq<T>, s: Seq<T>)
    requires
        stable_sort_of(r1, s),
        stable_sort_of(r2, s),
    ensures
        r1 == r2,
{
    assert(same_per_key(r1, r2)) by {
        assert forall|k: Seq<Seq<char>>| #[trigger] r1.filter(key_is::<T>(k)) == r2.filter(key_is::<T>(k)) by {
            assert(r1.filter(key_is::<T>(k)) == s.filter(key_is::<T>(k)));
            assert(r2.filter(key_is::<T>(k)) == s.filter(key_is::<T>(k)));
        }
    }
    lemma_sorted_same_per_key_equal(r1, r2);
}

/// Sorting a sequence that is already ordered by key changes nothing.
pub proof fn lemma_stable_sort_of_sorted<T: Keyed>(r: Seq<T>, s: Seq<T>)
    requires
        sorted_by_key(s),
        stable_sort_of(r, s),
    ensures
        r == s,
{
    lemma_stable_sort_unique(r, s, s);
}

/// Sorts `items` by key, keeping the order of values with equal keys.
pub fn sort_by_key<T: Keyed>(items: Vec<T>) -> (r: Vec<T>)
    ensures
        stable_sort_of(r@, items@),
{
    let ghost orig = items@;
    let mut rest = items;
    let mut r: Vec<T> = Vec::new();
    let mut i: usize = 0;
    let n = rest.len();
    while rest.len() > 0
        invariant
            n == orig.len(),
            i <= n,
            rest@ == orig.skip(i as int),
            sorted_by_key(r@),
            forall|k: Seq<Seq<char>>| #[trigger] r@.filter(key_is::<T>(k)) == orig.take(
                i as int,
            ).filter(key_is::<T>(k)),
        decreases rest@.len(),
    {
        let x = rest.remove(0);
        assert(x == orig[i as int]);
        let mut p: usize = 0;
        while p < r.len() && !key_lt(&x, &r[p])
            invariant
                p <= r@.len(),
                sorted_by_key(r@),
                forall|j: int| 0 <= j < p ==> !fields_lt(x.key(), #[trigger] r@[j].key()),
            decreases r@.len() - p,
        {
            p = p + 1;
        }
        let ghost s = r@;
        proof {
            // Every key at or after `p` is greater than `x`'s.
            assert forall|j: int| p <= j < s.len() implies fields_lt(x.key(), #[trigger] s[j].key()) by {
                if j > p {
                    assert(!fields_lt(s[j].key(), s[p as int].key()));
                    T::lemma_key_len(&s[j], &s[p as int]);
                    T::lemma_key_len(&x, &s[p as int]);
                    lemma_fields_lt_total(s[j].key(), s[p as int].key());
                    if s[j].key() != s[p as int].key() {
                        lemma_fields_lt_transitive(x.key(), s[p as int].key(), s[j].key());
                    }
                }
            }
        }
        r.insert(p, x);
        proof {
            assert(r@ == s.insert(p as int, x));
            assert forall|a: int, b: int| 0 <= a < b < r@.len() implies !fields_lt(
                #[trigger] r@[b].key(),
                #[trigger] r@[a].key(),
            ) by {
                if b < p {
                    assert(r@[a] == s[a] && r@[b] == s[b]);
                } else if b == p {
                    assert(r@[a] == s[a]);
                    assert(!fields_lt(x.key(), s[a].key()));
                } else if a < p {
                    assert(r@[a] == s[a] && r@[b] == s[b - 1]);
                    assert(!fields_lt(x.key(), s[a].key()));
                    assert(fields_lt(x.key(), s[b - 1].key()));
                    T::lemma_key_len(&x, &s[a]);
                    T::lemma_key_len(&x, &s[b - 1]);
                    if fields_lt(s[b - 1].key(), s[a].key()) {
                        lemma_fields_lt_total(x.key(), s[a].key());
                        if x.key() == s[a].key() {
                            lemma_fields_lt_transitive(x.key(), s[b - 1].key(), x.key());
                            lemma_fields_lt_irreflexive(x.key());
                        } else {
                            lemma_fields_lt_transitive(s[a].key(), x.key(), s[b - 1].key());
                            lemma_fields_lt_transitive(s[a].key(), s[b - 1].key(), s[a].key());
                            lemma_fields_lt_irreflexive(s[a].key());
                        }
                    }
                } else if a == p {
                    assert(r@[b] == s[b - 1]);
                    assert(fields_lt(x.key(), s[b - 1].key()));
                    T::lemma_key_len(&x, &s[b - 1]);
                    if fields_lt(s[b - 1].key(), x.key()) {
                        lemma_fields_lt_transitive(x.key(), s[b - 1].key(), x.key());
                        lemma_fields_lt_irreflexive(x.key());
                    }
                } else {
                    assert(r@[a] == s[a - 1] && r@[b] == s[b - 1]);
                }
            }
            assert forall|k: Seq<Seq<char>>| #[trigger] r@.filter(key_is::<T>(k)) == orig.take(
                i + 1,
            ).filter(key_is::<T>(k)) by {
                lemma_insert_filter(s, p as int, x, k);
                assert(orig.take(i + 1) =~= orig.take(i as int).push(x));
                lemma_filter_push(orig.take(i as int), x, key_is::<T>(k));
            }
            assert(rest@ =~= orig.skip(i + 1));
        }
        i = i + 1;
    }
    proof {
        assert(orig.take(i as int) =~= orig);
    }
    r
}

impl Keyed for String {
    open spec fn key(&self) -> Seq<Seq<char>> {
        seq![self@]
    }

    proof fn lemma_key_len(a: &Self, b: &Self) {
    }

    fn key_fields<'a>(&'a self) -> (r: Vec<&'a String>) {
        let mut r: Vec<&'a String> = Vec::new();
        r.push(self);
        r
    }
}

impl Keyed for (String, String) {
    open spec fn key(&self) -> Seq<Seq<char>> {
        seq![self.0@, self.1@]
    }

    proof fn lemma_key_len(a: &Self, b: &Self) {
    }

    fn key_fields<'a>(&'a self) -> (r: Vec<&'a String>) {
        let mut r: Vec<&'a String> = Vec::new();
        r.push(&self.0);
        r.push(&self.1);
        r
    }
}

impl Keyed for (String, String, String, String) {
    open spec fn key(&self) -> Seq<Seq<char>> {
        seq![self.0@, self.1@, self.2@, self.3@]
    }

    proof fn lemma_key_len(a: &Self, b: &Self) {
    }

    fn key_fields<'a>(&'a self) -> (r: Vec<&'a String>) {
        let mut r: Vec<&'a String> = Vec::new();
        r.push(&self.0);
        r.push(&self.1);
        r.push(&self.2);
        r.push(&self.3);
        r
    }
}

impl Keyed for IcmpTypeInfo {
    open spec fn key(&self) -> Seq<Seq<char>> {
        seq![self.name@]
    }

    proof fn lemma_key_len(a: &Self, b: &Self) {
    }

    fn key_fields<'a>(&'a self) -> (r: Vec<&'a String>) {
        let mut r: Vec<&'a String> = Vec::new();
        r.push(&self.name);
        r
    }
}

} // verus!
