//! The configured-service picker.
use vstd::prelude::*;

verus! {

/// Edits of the service picker.
#[derive(Debug, Clone)]
pub enum Message {
    SearchChanged(String),
    Selected(String),
}

/// Search state for the configured-service picker.
#[derive(Debug, Clone)]
pub struct ServiceFormState {
    /// Case-insensitive service-name filter.
    pub search: String,
}


impl Default for ServiceFormState {
    /// The empty form.
    fn default() -> (r: Self)
        ensures
            r.search@.len() == 0,
    {
        ServiceFormState { search: String::new() }
    }
}

} // verus!
