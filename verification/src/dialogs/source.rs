//! The source-address form.
use vstd::prelude::*;

use crate::validation::{source_result, validate_source};

verus! {

/// Edits of the source form.
#[derive(Debug, Clone)]
pub enum Message {
    AddressChanged(String),
}

/// The fields of the source form.
#[derive(Debug, Clone)]
pub struct SourceFormState {
    pub source: String,
    /// Whether the source field has been edited.
    pub touched: bool,
}

impl SourceFormState {
    /// Returns whether the source is a valid IP address or CIDR network.
    pub fn is_valid(&self) -> (r: bool)
        ensures
            r == (source_result(self.source@) is Ok),
    {
        validate_source(self.source.as_str()).is_ok()
    }
}

/// Replaces the address and marks it touched.
pub fn address_changed(state: &mut SourceFormState, value: String)
    ensures
        final(state).source == value,
        final(state).touched,
{
    state.source = value;
    state.touched = true;
}

/// Marks the address as touched.
pub fn touch(state: &mut SourceFormState)
    ensures
        final(state).source == old(state).source,
        final(state).touched,
{
    state.touched = true;
}


impl Default for SourceFormState {
    /// The empty form.
    fn default() -> (r: Self)
        ensures
            r.source@.len() == 0,
            !r.touched,
    {
        SourceFormState { source: String::new(), touched: false }
    }
}

} // verus!
