//! Textual IPv4 and IPv6 addresses, in the forms that `IpAddr`'s `FromStr` accepts.
use vstd::prelude::*;

use crate::text::{
    all_digits, all_hex_digits, char_is_hex_digit, decimal_value, is_digit, is_hex_digit,
    lemma_split_nonempty, parse_unsigned_chars, split, split_chars, unsigned_digits,
};

verus! {

/// One dotted-decimal octet: one to three digits, no leading zero unless the octet is a
/// single `0`, and a value of at most 255.
pub open spec fn is_ipv4_octet(s: Seq<char>) -> bool {
    &&& 1 <= s.len() <= 3
    &&& all_digits(s)
    &&& (s.len() > 1 ==> s[0] != '0')
    &&& decimal_value(s) <= 255
}

/// Four octets separated by dots, such as `192.0.2.1`.
pub open spec fn is_ipv4(s: Seq<char>) -> bool {
    let p = split(s, '.');
    &&& p.len() == 4
    &&& forall|i: int| 0 <= i < 4 ==> #[trigger] is_ipv4_octet(p[i])
}

/// One IPv6 group: one to four hexadecimal digits.
pub open spec fn is_hex_group(s: Seq<char>) -> bool {
    &&& 1 <= s.len() <= 4
    &&& all_hex_digits(s)
}

/// Every piece in `p` up to (not including) index `n` is a hexadecimal group.
pub open spec fn hex_groups_upto(p: Seq<Seq<char>>, n: int) -> bool {
    forall|i: int| 0 <= i < n ==> #[trigger] is_hex_group(p[i])
}

/// The number of 16-bit groups that a colon-separated run denotes, where the last element
/// may be an embedded IPv4 address (two groups); `None` when the run is malformed.
/// The empty run denotes no group.
pub open spec fn group_run_size(s: Seq<char>) -> Option<nat> {
    let p = split(s, ':');
    if s.len() == 0 {
        Some(0)
    } else if hex_groups_upto(p, p.len() as int) {
        Some(p.len())
    } else if hex_groups_upto(p, p.len() - 1) && is_ipv4(p.last()) {
        Some(p.len() + 1)
    } else {
        None
    }
}

/// The first index at or after `i` where `::` starts.
pub open spec fn find_double_colon(s: Seq<char>, i: int) -> Option<int>
    decreases s.len() - i,
{
    if i < 0 || i + 1 >= s.len() {
        None
    } else if s[i] == ':' && s[i + 1] == ':' {
        Some(i)
    } else {
        find_double_colon(s, i + 1)
    }
}

/// An IPv6 address: eight groups (the last two may be written as an IPv4 address), or a
/// head and a tail around one `::` that stands for at least one zero group.
pub open spec fn is_ipv6(s: Seq<char>) -> bool {
    match find_double_colon(s, 0) {
        None => group_run_size(s) == Some(8nat) && s.len() > 0,
        Some(k) => {
            let head = s.take(k);
            let tail = s.skip(k + 2);
            let h = split(head, ':');
            &&& (head.len() == 0 || hex_groups_upto(h, h.len() as int))
            &&& group_run_size(tail) matches Some(t)
            &&& (if head.len() == 0 { 0 } else { h.len() }) + t <= 7
        },
    }
}

/// A textual IP address of either family.
pub open spec fn is_ip_address(s: Seq<char>) -> bool {
    is_ipv4(s) || is_ipv6(s)
}

fn is_ipv4_octet_chars(s: &[char]) -> (r: bool)
    ensures
        r == is_ipv4_octet(s@),
{
    if s.len() < 1 || s.len() > 3 {
        return false;
    }
    if s.len() > 1 && s[0] == '0' {
        return false;
    }
    match parse_unsigned_chars(s, 255) {
        Some(_) => {
            if s[0] == '+' {
                assert(!is_digit(s@[0]));
                false
            } else {
                assert(unsigned_digits(s@) == s@);
                true
            }
        },
        None => {
            if s[0] != '+' {
                assert(unsigned_digits(s@) == s@);
            } else {
                assert(!is_digit(s@[0]));
            }
            false
        },
    }
}

/// Whether `s` is a dotted-decimal IPv4 address.
pub fn is_ipv4_chars(s: &[char]) -> (r: bool)
    ensures
        r == is_ipv4(s@),
{
    let p = split_chars(s, '.');
    if p.len() != 4 {
        return false;
    }
    let mut i: usize = 0;
    while i < 4
        invariant
            i <= 4,
            p@.len() == 4,
            p@.len() == split(s@, '.').len(),
            forall|k: int| 0 <= k < p@.len() ==> #[trigger] p@[k]@ == split(s@, '.')[k],
            forall|k: int| 0 <= k < i ==> #[trigger] is_ipv4_octet(split(s@, '.')[k]),
        decreases 4 - i,
    {
        assert(p@[i as int]@ == split(s@, '.')[i as int]);
        if !is_ipv4_octet_chars(p[i].as_slice()) {
            return false;
        }
        i = i + 1;
    }
    true
}

fn is_hex_group_chars(s: &[char]) -> (r: bool)
    ensures
        r == is_hex_group(s@),
{
    if s.len() < 1 || s.len() > 4 {
        return false;
    }
    let mut i: usize = 0;
    while i < s.len()
        invariant
            i <= s@.len(),
            forall|k: int| 0 <= k < i ==> #[trigger] is_hex_digit(s@[k]),
        decreases s@.len() - i,
    {
        if !char_is_hex_digit(s[i]) {
            return false;
        }
        i = i + 1;
    }
    true
}

fn hex_groups_upto_exec(p: &Vec<Vec<char>>, n: usize, Ghost(q): Ghost<Seq<Seq<char>>>) -> (r: bool)
    requires
        n <= p@.len(),
        p@.len() == q.len(),
        forall|k: int| 0 <= k < p@.len() ==> #[trigger] p@[k]@ == q[k],
    ensures
        r == hex_groups_upto(q, n as int),
{
    let mut i: usize = 0;
    while i < n
        invariant
            i <= n <= p@.len(),
            p@.len() == q.len(),
            forall|k: int| 0 <= k < p@.len() ==> #[trigger] p@[k]@ == q[k],
            hex_groups_upto(q, i as int),
        decreases n - i,
    {
        assert(p@[i as int]@ == q[i as int]);
        if !is_hex_group_chars(p[i].as_slice()) {
            return false;
        }
        i = i + 1;
    }
    true
}

fn group_run_size_chars(s: &[char]) -> (r: Option<usize>)
    ensures
        match r {
            Some(n) => group_run_size(s@) == Some(n as nat),
            None => group_run_size(s@) matches Some(t) ==> t > 8,
        },
{
    if s.len() == 0 {
        return Some(0);
    }
    let p = split_chars(s, ':');
    let ghost q = split(s@, ':');
    proof { lemma_split_nonempty(s@, ':'); }
    if hex_groups_upto_exec(&p, p.len(), Ghost(q)) {
        return Some(p.len());
    }
    let last = p.len() - 1;
    assert(p@[last as int]@ == q.last());
    if hex_groups_upto_exec(&p, last, Ghost(q)) && is_ipv4_chars(p[last].as_slice()) {
        if p.len() >= 8 {
            return None;
        }
        return Some(p.len() + 1);
    }
    None
}


fn find_double_colon_chars(s: &[char]) -> (r: Option<usize>)
    ensures
        match r {
            Some(k) => find_double_colon(s@, 0) == Some(k as int) && k + 1 < s@.len(),
            None => find_double_colon(s@, 0) is None,
        },
{
    let mut i: usize = 0;
    while i < s.len() && s.len() - i > 1
        invariant
            i <= s@.len(),
            find_double_colon(s@, 0) == find_double_colon(s@, i as int),
        decreases s@.len() - i,
    {
        if s[i] == ':' && s[i + 1] == ':' {
            return Some(i);
        }
        i = i + 1;
    }
    None
}

fn subslice(s: &[char], from: usize, to: usize) -> (r: Vec<char>)
    requires
        from <= to <= s@.len(),
    ensures
        r@ == s@.subrange(from as int, to as int),
{
    let mut r: Vec<char> = Vec::new();
    let mut k: usize = from;
    while k < to
        invariant
            from <= k <= to <= s@.len(),
            r@ == s@.subrange(from as int, k as int),
        decreases to - k,
    {
        r.push(s[k]);
        k = k + 1;
        assert(r@ =~= s@.subrange(from as int, k as int));
    }
    r
}

/// Whether `s` is a textual IPv6 address.
pub fn is_ipv6_chars(s: &[char]) -> (r: bool)
    ensures
        r == is_ipv6(s@),
{
    match find_double_colon_chars(s) {
        None => {
            if s.len() == 0 {
                return false;
            }
            match group_run_size_chars(s) {
                Some(n) => n == 8,
                None => false,
            }
        },
        Some(k) => {
            let n = s.len();
            assert(k + 2 <= n);
            let head = subslice(s, 0, k);
            let tail = subslice(s, k + 2, n);
            assert(head@ =~= s@.take(k as int));
            assert(tail@ =~= s@.skip(k + 2));
            let h: usize = if head.len() == 0 {
                0
            } else {
                let hp = split_chars(head.as_slice(), ':');
                proof { lemma_split_nonempty(head@, ':'); }
                if !hex_groups_upto_exec(&hp, hp.len(), Ghost(split(head@, ':'))) {
                    return false;
                }
                hp.len()
            };
            match group_run_size_chars(tail.as_slice()) {
                Some(t) => h <= 7 && t <= 7 - h,
                None => false,
            }
        },
    }
}

/// Whether `s` is a textual IP address of either family.
pub fn is_ip_address_chars(s: &[char]) -> (r: bool)
    ensures
        r == is_ip_address(s@),
{
    is_ipv4_chars(s) || is_ipv6_chars(s)
}

} // verus!
