//! Configuration events and the coordination of refreshes that they trigger.
use vstd::prelude::*;

verus! {

/// A firewalld configuration event relevant to the selected-zone workflow.
#[derive(Clone, Debug, PartialEq, Eq)]
pub enum ConfigurationEvent {
    /// Firewalld completed a global reload.
    Reloaded,
    /// A runtime signal changed the selected zone.
    RuntimeZoneChanged {
        /// Selected zone named by the signal.
        zone: String,
    },
    /// The selected permanent zone was updated.
    PermanentZoneUpdated {
        /// Selected zone object being watched.
        zone: String,
    },
    /// The selected permanent zone was removed.
    PermanentZoneRemoved {
        /// Removed zone.
        zone: String,
    },
    /// The selected permanent zone was renamed.
    PermanentZoneRenamed {
        /// Previous selected zone name.
        old_zone: String,
        /// New zone name emitted by firewalld.
        new_zone: String,
    },
}

/// Result of asking the refresh coordinator to handle a configuration event.
#[derive(Clone, Copy, Debug, PartialEq, Eq, Structural)]
pub enum RefreshRequest {
    /// A refresh may start immediately.
    Start,
    /// The event was folded into one pending follow-up refresh.
    Coalesced,
}

/// Pure request identity, refresh coalescing, and watcher-warning state.
#[derive(Clone, Debug, PartialEq, Eq)]
pub struct ConfigurationRefreshCoordinator {
    generation: u64,
    refresh_in_flight: bool,
    refresh_pending: bool,
    watch_warning: Option<String>,
}

/// The observable state of a [`ConfigurationRefreshCoordinator`].
pub struct CoordinatorView {
    /// Identity of the current selected-zone request.
    pub generation: u64,
    /// Whether a refresh is running.
    pub refreshing: bool,
    /// Whether at least one event waits for a follow-up refresh.
    pub pending: bool,
    /// The warning left by a failed watcher.
    pub warning: Option<Seq<char>>,
}

impl View for ConfigurationRefreshCoordinator {
    type V = CoordinatorView;

    closed spec fn view(&self) -> CoordinatorView {
        CoordinatorView {
            generation: self.generation,
            refreshing: self.refresh_in_flight,
            pending: self.refresh_pending,
            warning: match self.watch_warning {
                Some(w) => Some(w@),
                None => None,
            },
        }
    }
}

/// The coordinator after a configuration event: a refresh starts when none
/// is active and nothing blocks it; otherwise one follow-up is owed.
pub open spec fn refresh_requested(c: CoordinatorView, blocked: bool) -> CoordinatorView {
    if blocked || c.refreshing {
        CoordinatorView { pending: true, ..c }
    } else {
        CoordinatorView { refreshing: true, ..c }
    }
}

/// The coordinator after its refresh work finishes, and whether the owed
/// follow-up starts now.
pub open spec fn refresh_finished(c: CoordinatorView) -> (CoordinatorView, bool) {
    (CoordinatorView { refreshing: c.pending, pending: false, ..c }, c.pending)
}

/// The coordinator after `n` configuration events.
pub open spec fn after_events(c: CoordinatorView, blocked: bool, n: nat) -> CoordinatorView
    decreases n,
{
    if n == 0 {
        c
    } else {
        refresh_requested(after_events(c, blocked, (n - 1) as nat), blocked)
    }
}

/// Any burst of configuration events that arrives while a refresh runs
/// yields exactly one follow-up refresh when the running one finishes, and
/// none after that one.
pub proof fn lemma_burst_coalesces_to_one_follow_up(c: CoordinatorView, n: nat)
    requires
        c.refreshing,
        n >= 1,
    ensures
        after_events(c, false, n).pending,
        refresh_finished(after_events(c, false, n)).1,
        refresh_finished(after_events(c, false, n)).0.refreshing,
        !refresh_finished(refresh_finished(after_events(c, false, n)).0).1,
        !refresh_finished(refresh_finished(after_events(c, false, n)).0).0.refreshing,
        !refresh_finished(refresh_finished(after_events(c, false, n)).0).0.pending,
    decreases n,
{
    if n > 1 {
        lemma_burst_coalesces_to_one_follow_up(c, (n - 1) as nat);
    }
    lemma_events_keep_refreshing(c, n);
}

/// Events never stop a running refresh.
proof fn lemma_events_keep_refreshing(c: CoordinatorView, n: nat)
    requires
        c.refreshing,
    ensures
        after_events(c, false, n).refreshing,
        n >= 1 ==> after_events(c, false, n).pending,
    decreases n,
{
    if n > 0 {
        lemma_events_keep_refreshing(c, (n - 1) as nat);
    }
}

/// A selection change always moves to a new request identity, so a response
/// stamped with the identity before the change is no longer accepted.
pub proof fn lemma_selection_change_rejects_earlier_responses(g: u64)
    ensures
        next_generation(g) != g,
{
}

/// The identity that follows `g`, wrapping around at the top of the range.
pub open spec fn next_generation(g: u64) -> u64 {
    if g == u64::MAX {
        0
    } else {
        (g + 1) as u64
    }
}

impl Default for ConfigurationRefreshCoordinator {
    /// Identity zero, idle, nothing pending and no warning.
    fn default() -> (r: Self)
        ensures
            r@.generation == 0,
            !r@.refreshing,
            !r@.pending,
            r@.warning is None,
    {
        ConfigurationRefreshCoordinator {
            generation: 0,
            refresh_in_flight: false,
            refresh_pending: false,
            watch_warning: None,
        }
    }
}

impl ConfigurationRefreshCoordinator {
    /// Advance and return the identity for a newly selected or reloaded zone.
    pub fn selection_changed(&mut self) -> (r: u64)
        ensures
            r == next_generation(old(self)@.generation),
            final(self)@.generation == r,
            final(self)@.refreshing == old(self)@.refreshing,
            final(self)@.pending == old(self)@.pending,
            final(self)@.warning == old(self)@.warning,
    {
        self.generation = if self.generation == u64::MAX { 0 } else { self.generation + 1 };
        self.generation
    }

    /// Return the current selected-zone request identity.
    pub fn generation(&self) -> (r: u64)
        ensures
            r == self@.generation,
    {
        self.generation
    }

    /// Return whether a response belongs to the current selected-zone request.
    pub fn accepts(&self, generation: u64) -> (r: bool)
        ensures
            r == (generation == self@.generation),
    {
        self.generation == generation
    }

    /// Start a refresh or coalesce it when work is blocked or already active.
    pub fn request_refresh(&mut self, blocked: bool) -> (r: RefreshRequest)
        ensures
            final(self)@.generation == old(self)@.generation,
            final(self)@.warning == old(self)@.warning,
            if blocked || old(self)@.refreshing {
                &&& r == RefreshRequest::Coalesced
                &&& final(self)@.pending
                &&& final(self)@.refreshing == old(self)@.refreshing
            } else {
                &&& r == RefreshRequest::Start
                &&& final(self)@.refreshing
                &&& final(self)@.pending == old(self)@.pending
            },
            final(self)@ == refresh_requested(old(self)@, blocked),
    {
        if blocked || self.refresh_in_flight {
            self.refresh_pending = true;
            RefreshRequest::Coalesced
        } else {
            self.refresh_in_flight = true;
            RefreshRequest::Start
        }
    }

    /// Finish active work and return whether one follow-up refresh must start.
    pub fn finish_refresh(&mut self) -> (r: bool)
        ensures
            r == old(self)@.pending,
            !final(self)@.pending,
            final(self)@.refreshing == r,
            final(self)@.generation == old(self)@.generation,
            final(self)@.warning == old(self)@.warning,
            (final(self)@, r) == refresh_finished(old(self)@),
    {
        self.refresh_in_flight = false;
        if self.refresh_pending {
            self.refresh_pending = false;
            self.refresh_in_flight = true;
            true
        } else {
            false
        }
    }

    /// Return whether a refresh is currently active.
    pub fn is_refreshing(&self) -> (r: bool)
        ensures
            r == self@.refreshing,
    {
        self.refresh_in_flight
    }

    /// Return whether at least one event is waiting for a follow-up refresh.
    pub fn has_pending(&self) -> (r: bool)
        ensures
            r == self@.pending,
    {
        self.refresh_pending
    }

    /// Retain one actionable warning for a failed watcher.
    pub fn watcher_failed(&mut self, message: String)
        ensures
            final(self)@.warning == Some(message@),
            final(self)@.generation == old(self)@.generation,
            final(self)@.refreshing == old(self)@.refreshing,
            final(self)@.pending == old(self)@.pending,
    {
        self.watch_warning = Some(message);
    }

    /// Clear a prior watcher failure after the stream produces an event.
    pub fn watcher_recovered(&mut self)
        ensures
            final(self)@.warning is None,
            final(self)@.generation == old(self)@.generation,
            final(self)@.refreshing == old(self)@.refreshing,
            final(self)@.pending == old(self)@.pending,
    {
        self.watch_warning = None;
    }

    /// Return the current watcher warning, if any.
    pub fn watch_warning(&self) -> (r: Option<&str>)
        ensures
            match r {
                Some(w) => self@.warning == Some(w@),
                None => self@.warning is None,
            },
    {
        match &self.watch_warning {
            Some(w) => Some(w.as_str()),
            None => None,
        }
    }
}

} // verus!
