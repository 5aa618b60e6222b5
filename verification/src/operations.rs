//! The mutation slot, the pending confirmation and the reload reminder that
//! the whole application shares.
use vstd::prelude::*;

verus! {

/// Application-wide operation state; notifications are kept by the interface.
#[derive(Debug)]
pub struct State<C> {
    /// Name of the mutation in flight.
    pub pending: Option<String>,
    /// Destructive operation awaiting explicit confirmation.
    pub confirmation: Option<C>,
    /// Permanent configuration changed since the last explicit runtime reload.
    pub runtime_reload_needed: bool,
}

impl<C> State<C> {
    /// No mutation, no confirmation, nothing to reload.
    pub fn new() -> (r: Self)
        ensures
            r.pending is None,
            r.confirmation is None,
            !r.runtime_reload_needed,
    {
        State { pending: None, confirmation: None, runtime_reload_needed: false }
    }

    /// Whether a mutation is in flight.
    pub fn mutation_pending(&self) -> (r: bool)
        ensures
            r == self.pending is Some,
    {
        self.pending.is_some()
    }

    /// The name of the mutation in flight.
    pub fn pending_label(&self) -> (r: Option<&str>)
        ensures
            match self.pending {
                Some(p) => r matches Some(s) && s@ == p@,
                None => r is None,
            },
    {
        match &self.pending {
            Some(p) => Some(p.as_str()),
            None => None,
        }
    }

    /// Takes the mutation slot for `operation` unless a mutation is in flight;
    /// returns whether it did.
    pub fn begin(&mut self, operation: String) -> (r: bool)
        ensures
            r == old(self).pending is None,
            r ==> final(self).pending == Some(operation),
            !r ==> final(self).pending == old(self).pending,
            final(self).confirmation == old(self).confirmation,
            final(self).runtime_reload_needed == old(self).runtime_reload_needed,
    {
        if self.mutation_pending() {
            return false;
        }
        self.pending = Some(operation);
        true
    }

    /// Releases the mutation slot and returns the name of the mutation, or
    /// `fallback` when none was in flight.
    pub fn finish_label(&mut self, fallback: String) -> (r: String)
        ensures
            final(self).pending is None,
            r == match old(self).pending {
                Some(p) => p,
                None => fallback,
            },
            final(self).confirmation == old(self).confirmation,
            final(self).runtime_reload_needed == old(self).runtime_reload_needed,
    {
        match self.pending.take() {
            Some(p) => p,
            None => fallback,
        }
    }
}

} // verus!
