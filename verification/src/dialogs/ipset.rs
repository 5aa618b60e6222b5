//! The IP-set creation form.
use vstd::prelude::*;

use crate::text::{chars_of, entry_lines, entry_lines_chars, string_of};
use crate::validation::{
    ipset_entry_chars, ipset_entry_result, ipset_name_result, ipset_type_at, ipset_type_position,
    ipset_type_result, ipset_types, validate_ipset_name, validate_ipset_type, IPSET_TYPE_COUNT,
};

verus! {

/// Edits of the IP-set form.
#[derive(Debug, Clone)]
pub enum Message {
    NameChanged(String),
    TypeSelected(usize),
    EntriesChanged(String),
}

/// The fields of the IP-set form.
#[derive(Debug, Clone)]
pub struct IpSetFormState {
    pub name: String,
    pub ipset_type: String,
    /// Initial entries, one per line.
    pub entries: String,
    /// Whether the name field has been edited.
    pub name_touched: bool,
    /// Whether the initial-entry field has been edited.
    pub entries_touched: bool,
}

impl Default for IpSetFormState {
    /// An empty form for a `hash:ip` set.
    fn default() -> (r: Self)
        ensures
            r.name@.len() == 0,
            r.ipset_type@ == "hash:ip"@,
            r.entries@.len() == 0,
            !r.name_touched,
            !r.entries_touched,
    {
        IpSetFormState {
            name: String::new(),
            ipset_type: ipset_type_at(0).to_owned(),
            entries: String::new(),
            name_touched: false,
            entries_touched: false,
        }
    }
}

/// Whether the name, the type and every non-empty trimmed line of entries are valid.
pub open spec fn ipset_form_valid(s: IpSetFormState) -> bool {
    &&& ipset_name_result(s.name@) is Ok
    &&& ipset_type_result(s.ipset_type@) is Ok
    &&& forall|i: int|
        0 <= i < entry_lines(s.entries@).len() ==> (ipset_entry_result(
            #[trigger] entry_lines(s.entries@)[i],
            s.ipset_type@,
        ) is Ok)
}

impl IpSetFormState {
    /// Returns whether the name, type, and every newline-separated entry are valid.
    pub fn is_valid(&self) -> (r: bool)
        ensures
            r == ipset_form_valid(*self),
    {
        if validate_ipset_name(self.name.as_str()).is_err() {
            return false;
        }
        if validate_ipset_type(self.ipset_type.as_str()).is_err() {
            return false;
        }
        let kind = chars_of(self.ipset_type.as_str());
        let lines = entry_lines_chars(chars_of(self.entries.as_str()).as_slice());
        let mut i: usize = 0;
        while i < lines.len()
            invariant
                i <= lines@.len(),
                kind@ == self.ipset_type@,
                lines@.len() == entry_lines(self.entries@).len(),
                forall|k: int| 0 <= k < lines@.len() ==> #[trigger] lines@[k]@ == entry_lines(self.entries@)[k],
                forall|k: int| 0 <= k < i ==> (ipset_entry_result(#[trigger] entry_lines(self.entries@)[k], self.ipset_type@) is Ok),
            decreases lines@.len() - i,
        {
            assert(lines@[i as int]@ == entry_lines(self.entries@)[i as int]);
            if ipset_entry_chars(lines[i].as_slice(), kind.as_slice()).is_err() {
                return false;
            }
            i = i + 1;
        }
        true
    }
}

/// The type that a dropdown index selects; out-of-range indices select `hash:ip`.
pub open spec fn ipset_type_for_index(index: int) -> Seq<char> {
    if 0 <= index < 13 {
        ipset_types()[index]
    } else {
        "hash:ip"@
    }
}

/// The type that a dropdown index selects.
pub fn ipset_from_index(index: usize) -> (r: String)
    ensures
        r@ == ipset_type_for_index(index as int),
{
    if index < IPSET_TYPE_COUNT {
        ipset_type_at(index).to_owned()
    } else {
        ipset_type_at(0).to_owned()
    }
}

/// The length, first letter and sixth letter of each supported type, which
/// together tell the types apart.
spec fn type_mark(k: int) -> (int, char, char) {
    if k == 0 { (7, 'h', 'i') }
    else if k == 1 { (8, 'h', 'n') }
    else if k == 2 { (12, 'h', 'i') }
    else if k == 3 { (13, 'h', 'n') }
    else if k == 4 { (15, 'h', 'i') }
    else if k == 5 { (16, 'h', 'i') }
    else if k == 6 { (17, 'h', 'n') }
    else if k == 7 { (14, 'h', 'n') }
    else if k == 8 { (8, 'h', 'm') }
    else if k == 9 { (9, 'b', 'p') }
    else if k == 10 { (13, 'b', 'p') }
    else if k == 11 { (11, 'b', 'p') }
    else { (8, 'l', 's') }
}

proof fn lemma_type_mark(k: int)
    requires
        0 <= k < 13,
    ensures
        ipset_types()[k].len() == type_mark(k).0,
        ipset_types()[k][0] == type_mark(k).1,
        ipset_types()[k][5] == type_mark(k).2,
{
    reveal_strlit("hash:ip");
    reveal_strlit("hash:net");
    reveal_strlit("hash:ip,port");
    reveal_strlit("hash:net,port");
    reveal_strlit("hash:ip,port,ip");
    reveal_strlit("hash:ip,port,net");
    reveal_strlit("hash:net,port,net");
    reveal_strlit("hash:net,iface");
    reveal_strlit("hash:mac");
    reveal_strlit("bitmap:ip");
    reveal_strlit("bitmap:ip,mac");
    reveal_strlit("bitmap:port");
    reveal_strlit("list:set");
}

/// No supported type is listed twice.
pub proof fn lemma_ipset_types_distinct(i: int, j: int)
    requires
        0 <= i < 13,
        0 <= j < 13,
        i != j,
    ensures
        ipset_types()[i] != ipset_types()[j],
{
    lemma_type_mark(i);
    lemma_type_mark(j);
    assert(type_mark(i) != type_mark(j));
}

/// Reading back the type that a dropdown index selects finds that index;
/// an out-of-range index selects `hash:ip`, found at index zero.
pub proof fn lemma_ipset_index_round_trip(index: int, found: int)
    requires
        0 <= found < 13,
        ipset_types()[found] == ipset_type_for_index(index),
    ensures
        found == if 0 <= index < 13 { index } else { 0 },
{
    let expected = if 0 <= index < 13 { index } else { 0 };
    reveal_strlit("hash:ip");
    assert(ipset_types()[expected] == ipset_type_for_index(index));
    if found != expected {
        lemma_ipset_types_distinct(found, expected);
    }
}

/// The dropdown index of a type, if it is supported.
pub fn ipset_index(ipset_type: &str) -> (r: Option<usize>)
    ensures
        match r {
            Some(i) => i < 13 && ipset_types()[i as int] == ipset_type@,
            None => !ipset_types().contains(ipset_type@),
        },
{
    let v = chars_of(ipset_type);
    ipset_type_position(v.as_slice())
}

/// What a message does to the form.
pub open spec fn updated(before: IpSetFormState, after: IpSetFormState, message: Message) -> bool {
    match message {
        Message::NameChanged(v) => after.name == v && after.name_touched
            && after.ipset_type == before.ipset_type
            && after.entries == before.entries
            && after.entries_touched == before.entries_touched,
        Message::TypeSelected(i) => after.ipset_type@ == ipset_type_for_index(i as int)
            && after.name == before.name && after.entries == before.entries
            && after.name_touched == before.name_touched
            && after.entries_touched == before.entries_touched,
        Message::EntriesChanged(v) => after.entries == v && after.entries_touched
            && after.name == before.name
            && after.ipset_type == before.ipset_type
            && after.name_touched == before.name_touched,
    }
}

/// Applies one edit to the form.
pub fn update(state: &mut IpSetFormState, message: Message)
    ensures
        updated(*old(state), *final(state), message),
{
    match message {
        Message::NameChanged(value) => {
            state.name = value;
            state.name_touched = true;
        },
        Message::TypeSelected(index) => state.ipset_type = ipset_from_index(index),
        Message::EntriesChanged(value) => {
            state.entries = value;
            state.entries_touched = true;
        },
    }
}

/// Marks both fields as touched before a submission.
pub fn touch_submission_fields(state: &mut IpSetFormState)
    ensures
        final(state).name_touched,
        final(state).entries_touched,
        final(state).name == old(state).name,
        final(state).ipset_type == old(state).ipset_type,
        final(state).entries == old(state).entries,
{
    state.name_touched = true;
    state.entries_touched = true;
}

/// The trimmed non-empty lines of the entry text, each kept whole.
pub fn split_entries(entries: &str) -> (r: Vec<String>)
    ensures
        r@.len() == entry_lines(entries@).len(),
        forall|k: int| 0 <= k < r@.len() ==> #[trigger] r@[k]@ == entry_lines(entries@)[k],
{
    let lines = entry_lines_chars(chars_of(entries).as_slice());
    let mut r: Vec<String> = Vec::new();
    let mut i: usize = 0;
    while i < lines.len()
        invariant
            i <= lines@.len(),
            lines@.len() == entry_lines(entries@).len(),
            forall|k: int| 0 <= k < lines@.len() ==> #[trigger] lines@[k]@ == entry_lines(entries@)[k],
            r@.len() == i,
            forall|k: int| 0 <= k < i ==> #[trigger] r@[k]@ == entry_lines(entries@)[k],
        decreases lines@.len() - i,
    {
        r.push(string_of(lines[i].as_slice()));
        i = i + 1;
    }
    r
}

} // verus!
