//! What the reconciliation banner and review drawer show of the comparison:
//! its status, the actions it permits, its differences grouped by shape and
//! the setting names that made it incomplete.
use vstd::prelude::*;

use crate::order::views;
use crate::reconciliation::{
    is_runtime_only_difference, state_data, ComparisonCompleteness, DifferenceView,
    ZoneReconciliationState, ZoneSettingDifference,
};

verus! {

/// Status of the selected-zone comparison, independent of its wording.
#[derive(Clone, Copy, Debug, PartialEq, Eq, Structural)]
pub enum ReconciliationPresentationStatus {
    /// A comparison request is in flight.
    Loading,
    /// All known settings match and the comparison was complete.
    InSync,
    /// A complete comparison found known differences.
    Different {
        /// Number of known setting differences.
        count: usize,
    },
    /// Unknown keys prevent a definitive result.
    Incomplete {
        /// Number of differences among the settings that are understood.
        known_difference_count: usize,
    },
    /// The runtime comparison is unavailable.
    Unavailable,
    /// The comparison request failed.
    Error,
}

/// The reconciliation actions that the current state permits.
#[derive(Clone, Copy, Debug, PartialEq, Eq, Structural)]
pub struct ReconciliationActionAvailability {
    /// Whether the detailed comparison holds meaningful information.
    pub can_review: bool,
    /// Whether a manual comparison refresh can start.
    pub can_refresh: bool,
    /// Whether permanent configuration can be applied to runtime.
    pub can_apply_permanent: bool,
    /// Whether runtime configuration can be made permanent.
    pub can_save_runtime: bool,
}

/// Known setting differences grouped by display shape.
#[derive(Debug)]
pub struct ReconciliationDifferenceGroups<'a> {
    /// Differences whose two sides are single values.
    pub scalar: Vec<&'a ZoneSettingDifference>,
    /// Differences whose two sides are order-independent collections.
    pub collection: Vec<&'a ZoneSettingDifference>,
}

/// Unknown keys reported by the permanent and the runtime snapshot.
#[derive(Debug)]
pub struct UnknownSettingNames<'a> {
    /// Unknown permanent configuration keys.
    pub permanent: Vec<&'a str>,
    /// Unknown runtime configuration keys.
    pub runtime: Vec<&'a str>,
}

/// The comparison state as the views consume it.
#[derive(Debug)]
pub struct ReconciliationPresentation<'a> {
    /// Status of the current comparison.
    pub status: ReconciliationPresentationStatus,
    /// Actions that the current state permits.
    pub actions: ReconciliationActionAvailability,
    /// Known differences grouped for display.
    pub differences: ReconciliationDifferenceGroups<'a>,
    /// Unknown dictionary keys that made the comparison incomplete.
    pub unknown_settings: UnknownSettingNames<'a>,
}

/// The known differences that a state carries, in comparison order.
pub open spec fn known_differences(state: ZoneReconciliationState) -> Seq<DifferenceView> {
    match state_data(state) {
        Some(data) => views(data.reconciliation.differences@),
        None => Seq::empty(),
    }
}

/// Whether a difference has single values on both sides.
pub open spec fn is_scalar(d: DifferenceView) -> bool {
    d is Scalar
}

/// Whether a difference has collections on both sides.
pub open spec fn is_collection(d: DifferenceView) -> bool {
    d is Collection
}

/// The unknown permanent and runtime keys that a state reports.
pub open spec fn unknown_keys_of(state: ZoneReconciliationState) -> (Seq<Seq<char>>, Seq<Seq<char>>) {
    match state_data(state) {
        Some(data) => match data.reconciliation.completeness {
            ComparisonCompleteness::Incomplete { permanent_unknown, runtime_unknown } => (
                views(permanent_unknown@),
                views(runtime_unknown@),
            ),
            ComparisonCompleteness::Complete => (Seq::empty(), Seq::empty()),
        },
        None => (Seq::empty(), Seq::empty()),
    }
}

/// The status shown for a state with `count` known differences.
pub open spec fn status_of(state: ZoneReconciliationState, count: int) -> ReconciliationPresentationStatus {
    match state {
        ZoneReconciliationState::Loading { .. } => ReconciliationPresentationStatus::Loading,
        ZoneReconciliationState::InSync { .. } => ReconciliationPresentationStatus::InSync,
        ZoneReconciliationState::Different { .. } => ReconciliationPresentationStatus::Different {
            count: count as usize,
        },
        ZoneReconciliationState::Incomplete { .. } => ReconciliationPresentationStatus::Incomplete {
            known_difference_count: count as usize,
        },
        ZoneReconciliationState::Unavailable { .. } => ReconciliationPresentationStatus::Unavailable,
        ZoneReconciliationState::Error { .. } => ReconciliationPresentationStatus::Error,
    }
}

/// The actions permitted in `state` while a mutation is, or is not, pending:
/// nothing while a mutation is pending; review of a different or incomplete
/// comparison; refresh unless loading; applying permanent configuration when a
/// known difference exists; saving runtime configuration when a difference
/// could change permanent configuration.
pub open spec fn actions_of(state: ZoneReconciliationState, mutation_pending: bool) -> ReconciliationActionAvailability {
    let known = known_differences(state);
    let loading = state is Loading;
    ReconciliationActionAvailability {
        can_review: (state is Different || state is Incomplete) && !mutation_pending,
        can_refresh: !loading && !mutation_pending,
        can_apply_permanent: known.len() > 0 && !mutation_pending && !loading,
        can_save_runtime: (exists|i: int|
            0 <= i < known.len() && is_runtime_only_difference(#[trigger] known[i]))
            && !mutation_pending && !loading,
    }
}

fn str_refs<'a>(v: &'a Vec<String>) -> (r: Vec<&'a str>)
    ensures
        views(r@) == views(v@),
{
    let mut r: Vec<&'a str> = Vec::new();
    let mut i: usize = 0;
    while i < v.len()
        invariant
            i <= v@.len(),
            r@.len() == i,
            forall|k: int| 0 <= k < i ==> (#[trigger] r@[k])@ == v@[k]@,
        decreases v@.len() - i,
    {
        r.push(v[i].as_str());
        i = i + 1;
    }
    assert(views(r@) =~= views(v@));
    r
}

proof fn lemma_filter_push(s: Seq<DifferenceView>, x: DifferenceView, p: spec_fn(DifferenceView) -> bool)
    ensures
        s.push(x).filter(p) == (if p(x) { s.filter(p).push(x) } else { s.filter(p) }),
{
    reveal(Seq::filter);
    assert(s.push(x).drop_last() =~= s);
}

impl<'a> ReconciliationPresentation<'a> {
    /// Adapts the comparison state for rendering, borrowing its differences
    /// and unknown keys rather than copying them.
    pub fn from_state(state: &'a ZoneReconciliationState, mutation_pending: bool) -> (r:
        ReconciliationPresentation<'a>)
        ensures
            views(r.differences.scalar@) == known_differences(*state).filter(
                |d: DifferenceView| is_scalar(d),
            ),
            views(r.differences.collection@) == known_differences(*state).filter(
                |d: DifferenceView| is_collection(d),
            ),
            views(r.unknown_settings.permanent@) == unknown_keys_of(*state).0,
            views(r.unknown_settings.runtime@) == unknown_keys_of(*state).1,
            r.status == status_of(*state, known_differences(*state).len() as int),
            r.actions == actions_of(*state, mutation_pending),
    {
        let mut scalar: Vec<&'a ZoneSettingDifference> = Vec::new();
        let mut collection: Vec<&'a ZoneSettingDifference> = Vec::new();
        let mut permanent: Vec<&'a str> = Vec::new();
        let mut runtime: Vec<&'a str> = Vec::new();
        let mut has_runtime_only = false;
        let ghost known = known_differences(*state);
        let ghost is_s = |d: DifferenceView| is_scalar(d);
        let ghost is_c = |d: DifferenceView| is_collection(d);
        proof {
            reveal(Seq::filter);
        }
        match state.data() {
            Some(data) => {
                let d = &data.reconciliation.differences;
                let mut i: usize = 0;
                while i < d.len()
                    invariant
                        i <= d@.len(),
                        known == views(d@),
                        views(scalar@) == views(d@).take(i as int).filter(is_s),
                        views(collection@) == views(d@).take(i as int).filter(is_c),
                        is_s == (|d: DifferenceView| is_scalar(d)),
                        is_c == (|d: DifferenceView| is_collection(d)),
                    decreases d@.len() - i,
                {
                    proof {
                        assert(views(d@).take(i + 1) =~= views(d@).take(i as int).push(
                            d@[i as int]@,
                        ));
                        lemma_filter_push(views(d@).take(i as int), d@[i as int]@, is_s);
                        lemma_filter_push(views(d@).take(i as int), d@[i as int]@, is_c);
                    }
                    let item = &d[i];
                    match item {
                        ZoneSettingDifference::Scalar { .. } => {
                            scalar.push(item);
                            assert(views(scalar@) =~= views(d@).take(i as int).filter(is_s).push(
                                d@[i as int]@,
                            ));
                        },
                        ZoneSettingDifference::Collection { .. } => {
                            collection.push(item);
                            assert(views(collection@) =~= views(d@).take(i as int).filter(
                                is_c,
                            ).push(d@[i as int]@));
                        },
                    }
                    i = i + 1;
                }
                assert(views(d@).take(d@.len() as int) =~= views(d@));
                match &data.reconciliation.completeness {
                    ComparisonCompleteness::Incomplete { permanent_unknown, runtime_unknown } => {
                        permanent = str_refs(permanent_unknown);
                        runtime = str_refs(runtime_unknown);
                    },
                    ComparisonCompleteness::Complete => {},
                }
                has_runtime_only = data.reconciliation.has_runtime_only_differences();
                proof {
                    if has_runtime_only {
                        let k = choose|k: int|
                            0 <= k < d@.len() && is_runtime_only_difference(#[trigger] d@[k]@);
                        assert(known[k] == d@[k]@);
                    } else {
                        assert forall|k: int| 0 <= k < known.len() implies !is_runtime_only_difference(
                            #[trigger] known[k],
                        ) by {
                            assert(known[k] == d@[k]@);
                        }
                    }
                }
            },
            None => {
                assert(known =~= Seq::<DifferenceView>::empty());
                assert(known.filter(is_s) =~= Seq::<DifferenceView>::empty());
                assert(known.filter(is_c) =~= Seq::<DifferenceView>::empty());
                assert(views(scalar@) =~= Seq::<DifferenceView>::empty());
                assert(views(collection@) =~= Seq::<DifferenceView>::empty());
                assert(views(permanent@) =~= Seq::<Seq<char>>::empty());
                assert(views(runtime@) =~= Seq::<Seq<char>>::empty());
            },
        }
        proof {
            assert(known.filter(is_s).len() + known.filter(is_c).len() == known.len()) by {
                lemma_partition_len(known);
            }
        }
        let known_difference_count = scalar.len() + collection.len();
        let status = match state {
            ZoneReconciliationState::Loading { .. } => ReconciliationPresentationStatus::Loading,
            ZoneReconciliationState::InSync { .. } => ReconciliationPresentationStatus::InSync,
            ZoneReconciliationState::Different { .. } => ReconciliationPresentationStatus::Different {
                count: known_difference_count,
            },
            ZoneReconciliationState::Incomplete { .. } =>
                ReconciliationPresentationStatus::Incomplete { known_difference_count },
            ZoneReconciliationState::Unavailable { .. } =>
                ReconciliationPresentationStatus::Unavailable,
            ZoneReconciliationState::Error { .. } => ReconciliationPresentationStatus::Error,
        };
        let is_loading = matches!(state, ZoneReconciliationState::Loading { .. });
        let can_review = matches!(
            state,
            ZoneReconciliationState::Different { .. } | ZoneReconciliationState::Incomplete { .. }
        );
        ReconciliationPresentation {
            status,
            actions: ReconciliationActionAvailability {
                can_review: can_review && !mutation_pending,
                can_refresh: !is_loading && !mutation_pending,
                can_apply_permanent: known_difference_count > 0 && !mutation_pending && !is_loading,
                can_save_runtime: has_runtime_only && !mutation_pending && !is_loading,
            },
            differences: ReconciliationDifferenceGroups { scalar, collection },
            unknown_settings: UnknownSettingNames { permanent, runtime },
        }
    }
}

/// Every difference is either scalar or a collection, so the two groups
/// together are as long as the list of differences.
proof fn lemma_partition_len(s: Seq<DifferenceView>)
    ensures
        s.filter(|d: DifferenceView| is_scalar(d)).len() + s.filter(
            |d: DifferenceView| is_collection(d),
        ).len() == s.len(),
    decreases s.len(),
{
    reveal(Seq::filter);
    if s.len() > 0 {
        lemma_partition_len(s.drop_last());
    }
}

} // verus!
