//! The order in which the application applies a reducer's output: every
//! request first, in emission order, then the effects.
use vstd::prelude::*;

use crate::outcome::Outcome;

verus! {

/// A reducer's output while its requests are being applied.
pub struct Router<E, R> {
    effects: Vec<E>,
    requests: Vec<R>,
}

impl<E, R> View for Router<E, R> {
    type V = (Seq<E>, Seq<R>);

    /// The effects, and the requests not yet taken.
    closed spec fn view(&self) -> (Seq<E>, Seq<R>) {
        (self.effects@, self.requests@)
    }
}

impl<E, R> Router<E, R> {
    /// Starts routing one outcome.
    pub fn new(outcome: Outcome<E, R>) -> (r: Self)
        ensures
            r@.0 == outcome.effects@,
            r@.1 == outcome.requests@,
    {
        Router { effects: outcome.effects, requests: outcome.requests }
    }

    /// The next request, in emission order.
    pub fn pop_request(&mut self) -> (r: Option<R>)
        ensures
            final(self)@.0 == old(self)@.0,
            old(self)@.1.len() == 0 ==> r is None && final(self)@.1 == old(self)@.1,
            old(self)@.1.len() > 0 ==> r == Some(old(self)@.1[0]) && final(self)@.1
                == old(self)@.1.drop_first(),
    {
        if self.requests.len() == 0 {
            None
        } else {
            Some(self.requests.remove(0))
        }
    }

    /// The effects, in emission order.
    pub fn into_effects(self) -> (r: Vec<E>)
        ensures
            r@ == self@.0,
    {
        self.effects
    }
}

} // verus!
