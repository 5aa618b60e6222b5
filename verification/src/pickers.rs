//! The choices that the service and ICMP-type pickers offer for a search:
//! the catalog entries that match it, in catalog order, each marked when the
//! zone already has it.
use vstd::prelude::*;

use crate::dialogs::port::trimmed;
use crate::models::IcmpTypeInfo;
use crate::order::views;
use crate::sorting::lemma_filter_push;
use crate::text::{contains_text, lowercase, str_contains, str_equal, to_lowercase, trim};

verus! {

/// Whether `text` matches the search `search`: every text matches a blank
/// search, otherwise its lowercase form must contain the lowercased,
/// trimmed search.
pub open spec fn search_matches(text: Seq<char>, search: Seq<char>) -> bool {
    lowercase(trim(search)).len() == 0 || contains_text(lowercase(text), lowercase(trim(search)))
}

/// The view of a service choice: the service and whether it is enabled.
pub open spec fn service_choice_views(v: Seq<(String, bool)>) -> Seq<(Seq<char>, bool)> {
    v.map_values(|c: (String, bool)| (c.0@, c.1))
}

/// The service choices for `search`: the matching services in catalog
/// order, each with whether the zone already enables it.
pub open spec fn service_choices_of(search: Seq<char>, services: Seq<String>, enabled: Seq<Seq<char>>) -> Seq<
    (Seq<char>, bool),
> {
    views(services).filter(|s: Seq<char>| search_matches(s, search)).map_values(
        |s: Seq<char>| (s, enabled.contains(s)),
    )
}

fn listed_in(items: &[String], name: &str) -> (r: bool)
    ensures
        r == views(items@).contains(name@),
{
    let mut i: usize = 0;
    while i < items.len()
        invariant
            i <= items@.len(),
            forall|k: int| 0 <= k < i ==> items@[k]@ != name@,
        decreases items@.len() - i,
    {
        if str_equal(items[i].as_str(), name) {
            assert(views(items@)[i as int] == name@);
            return true;
        }
        i = i + 1;
    }
    assert forall|k: int| 0 <= k < views(items@).len() implies views(items@)[k] != name@ by {
        assert(views(items@)[k] == items@[k]@);
    }
    false
}

proof fn lemma_filter_map_push(
    s: Seq<Seq<char>>,
    x: Seq<char>,
    p: spec_fn(Seq<char>) -> bool,
    f: spec_fn(Seq<char>) -> (Seq<char>, bool),
)
    ensures
        s.push(x).filter(p).map_values(f) == if p(x) {
            s.filter(p).map_values(f).push(f(x))
        } else {
            s.filter(p).map_values(f)
        },
{
    lemma_filter_push(s, x, p);
    if p(x) {
        assert(s.filter(p).push(x).map_values(f) =~= s.filter(p).map_values(f).push(f(x)));
    }
}

/// The service picker's choices for the current search.
pub fn service_choices(search: &str, services: &[String], enabled: &[String]) -> (r: Vec<(String, bool)>)
    ensures
        service_choice_views(r@) == service_choices_of(search@, services@, views(enabled@)),
{
    let needle = to_lowercase(trimmed(&crate::text::owned(search)).as_str());
    let blank = needle.as_str().is_empty();
    let ghost p = |s: Seq<char>| search_matches(s, search@);
    let ghost f = |s: Seq<char>| (s, views(enabled@).contains(s));
    let mut r: Vec<(String, bool)> = Vec::new();
    let mut i: usize = 0;
    while i < services.len()
        invariant
            i <= services@.len(),
            needle@ == lowercase(trim(search@)),
            blank == (needle@.len() == 0),
            p == (|s: Seq<char>| search_matches(s, search@)),
            f == (|s: Seq<char>| (s, views(enabled@).contains(s))),
            service_choice_views(r@) == views(services@.take(i as int)).filter(p).map_values(f),
        decreases services@.len() - i,
    {
        let name = &services[i];
        let shown = blank || str_contains(to_lowercase(name.as_str()).as_str(), needle.as_str());
        proof {
            assert(services@.take(i + 1) =~= services@.take(i as int).push(services@[i as int]));
            assert(views(services@.take(i + 1)) =~= views(services@.take(i as int)).push(name@));
            lemma_filter_map_push(views(services@.take(i as int)), name@, p, f);
        }
        if shown {
            let taken = listed_in(enabled, name.as_str());
            let ghost before = r@;
            r.push((name.clone(), taken));
            assert(service_choice_views(r@) =~= service_choice_views(before).push((name@, taken)));
        }
        i = i + 1;
    }
    assert(services@.take(services@.len() as int) =~= services@);
    r
}

/// The view of an ICMP-type choice: name, description, and whether the
/// zone already blocks it.
pub open spec fn icmp_choice_views(v: Seq<(IcmpTypeInfo, bool)>) -> Seq<(Seq<char>, Seq<char>, bool)> {
    v.map_values(|c: (IcmpTypeInfo, bool)| (c.0.name@, c.0.description@, c.1))
}

/// Whether an ICMP type matches the search by its name or its description.
pub open spec fn icmp_matches(t: IcmpTypeInfo, search: Seq<char>) -> bool {
    lowercase(trim(search)).len() == 0 || contains_text(lowercase(t.name@), lowercase(trim(search)))
        || contains_text(lowercase(t.description@), lowercase(trim(search)))
}

/// The ICMP-type choices for `search`: the matching types in catalog order,
/// each with whether the zone already blocks it.
pub open spec fn icmp_choices_of(search: Seq<char>, types: Seq<IcmpTypeInfo>, blocked: Seq<Seq<char>>) -> Seq<
    (Seq<char>, Seq<char>, bool),
> {
    types.filter(|t: IcmpTypeInfo| icmp_matches(t, search)).map_values(
        |t: IcmpTypeInfo| (t.name@, t.description@, blocked.contains(t.name@)),
    )
}

proof fn lemma_icmp_filter_map_push(
    s: Seq<IcmpTypeInfo>,
    x: IcmpTypeInfo,
    p: spec_fn(IcmpTypeInfo) -> bool,
    f: spec_fn(IcmpTypeInfo) -> (Seq<char>, Seq<char>, bool),
)
    ensures
        s.push(x).filter(p).map_values(f) == if p(x) {
            s.filter(p).map_values(f).push(f(x))
        } else {
            s.filter(p).map_values(f)
        },
{
    lemma_filter_push(s, x, p);
    if p(x) {
        assert(s.filter(p).push(x).map_values(f) =~= s.filter(p).map_values(f).push(f(x)));
    }
}

/// The ICMP-type picker's choices for the current search.
pub fn icmp_choices(search: &str, types: &[IcmpTypeInfo], blocked: &[String]) -> (r: Vec<(IcmpTypeInfo, bool)>)
    ensures
        icmp_choice_views(r@) == icmp_choices_of(search@, types@, views(blocked@)),
{
    let needle = to_lowercase(trimmed(&crate::text::owned(search)).as_str());
    let blank = needle.as_str().is_empty();
    let ghost p = |t: IcmpTypeInfo| icmp_matches(t, search@);
    let ghost f = |t: IcmpTypeInfo| (t.name@, t.description@, views(blocked@).contains(t.name@));
    let mut r: Vec<(IcmpTypeInfo, bool)> = Vec::new();
    let mut i: usize = 0;
    let ghost mut gi: int = 0;
    while i < types.len()
        invariant
            i <= types@.len(),
            gi == i,
            needle@ == lowercase(trim(search@)),
            blank == (needle@.len() == 0),
            p == (|t: IcmpTypeInfo| icmp_matches(t, search@)),
            f == (|t: IcmpTypeInfo| (t.name@, t.description@, views(blocked@).contains(t.name@))),
            icmp_choice_views(r@) == types@.take(gi).filter(p).map_values(f),
        decreases types@.len() - i,
    {
        let t = &types[i];
        let shown = blank || str_contains(to_lowercase(t.name.as_str()).as_str(), needle.as_str())
            || str_contains(to_lowercase(t.description.as_str()).as_str(), needle.as_str());
        proof {
            assert(types@.take(gi + 1) =~= types@.take(gi).push(types@[gi]));
            lemma_icmp_filter_map_push(types@.take(gi), *t, p, f);
        }
        if shown {
            let taken = listed_in(blocked, t.name.as_str());
            let ghost before = r@;
            let choice = IcmpTypeInfo { name: t.name.clone(), description: t.description.clone() };
            r.push((choice, taken));
            assert(icmp_choice_views(r@) =~= icmp_choice_views(before).push(
                (t.name@, t.description@, taken),
            ));
        }
        i = i + 1;
        proof {
            gi = gi + 1;
        }
    }
    assert(types@.take(gi) =~= types@);
    r
}

} // verus!
