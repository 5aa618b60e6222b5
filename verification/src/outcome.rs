//! The output of a synchronous feature reducer.
use vstd::prelude::*;

verus! {

/// Work emitted by a feature reducer.
///
/// Reducers collect root-coordination requests separately from asynchronous
/// effects so that the root router can apply every request before any effect
/// starts.
#[derive(Debug)]
pub struct Outcome<E, R> {
    /// Feature-owned asynchronous work, in emission order.
    pub effects: Vec<E>,
    /// Root-owned coordination work, in emission order.
    pub requests: Vec<R>,
}

impl<E, R> Default for Outcome<E, R> {
    fn default() -> (r: Self)
        ensures
            r.effects@ == Seq::<E>::empty(),
            r.requests@ == Seq::<R>::empty(),
    {
        Outcome { effects: Vec::new(), requests: Vec::new() }
    }
}

impl<E, R> Outcome<E, R> {
    /// An outcome holding one asynchronous effect.
    pub fn effect(effect: E) -> (r: Self)
        ensures
            r.effects@ == seq![effect],
            r.requests@ == Seq::<R>::empty(),
    {
        let mut effects = Vec::new();
        effects.push(effect);
        Outcome { effects, requests: Vec::new() }
    }

    /// An outcome holding one root request.
    pub fn request(request: R) -> (r: Self)
        ensures
            r.effects@ == Seq::<E>::empty(),
            r.requests@ == seq![request],
    {
        let mut requests = Vec::new();
        requests.push(request);
        Outcome { effects: Vec::new(), requests }
    }

    /// Appends another outcome, keeping the emission order of both lists.
    pub fn append(&mut self, other: Self)
        ensures
            final(self).effects@ == old(self).effects@ + other.effects@,
            final(self).requests@ == old(self).requests@ + other.requests@,
    {
        let mut other = other;
        self.effects.append(&mut other.effects);
        self.requests.append(&mut other.requests);
    }
}

} // verus!
