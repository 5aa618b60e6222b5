//! The ICMP-block picker.
use vstd::prelude::*;

verus! {

/// Edits of the ICMP picker.
#[derive(Debug, Clone)]
pub enum Message {
    SearchChanged(String),
    Selected(String),
}

/// The search field of the ICMP picker.
#[derive(Debug, Clone)]
pub struct IcmpFormState {
    /// Case-insensitive name and description filter.
    pub search: String,
}

/// Replaces the search text.
pub fn search_changed(state: &mut IcmpFormState, value: String)
    ensures
        final(state).search == value,
{
    state.search = value;
}


impl Default for IcmpFormState {
    /// The empty form.
    fn default() -> (r: Self)
        ensures
            r.search@.len() == 0,
    {
        IcmpFormState { search: String::new() }
    }
}

} // verus!
