//! What the application reloads after a firewalld configuration event.
use vstd::prelude::*;

use crate::events::ConfigurationEvent;
use crate::reconciler::opt_view;
use crate::text::str_equal;

verus! {

/// The reload that a configuration event calls for.
#[derive(Debug, Clone, Eq, PartialEq)]
pub enum ConfigurationRefreshPlan {
    /// Reload status, zones, IP sets and every catalog.
    ReloadEverything,
    /// Reload the comparison of the selected zone.
    ReloadCurrentReconciliation { zone: String },
    /// Reload the details of the selected zone.
    ReloadCurrentZone { zone: String },
    /// Reload the zone list.
    ReloadZones,
    /// Keep the selection on a renamed zone and reload the zone list.
    PreserveRenameAndReloadZones { old_zone: String, new_zone: String },
    /// Nothing to reload; finish the refresh.
    FinishWithoutReload,
}

/// What the refresh planner reads from the rest of the application.
#[derive(Clone, Copy, Debug)]
pub struct ConfigurationRefreshContext<'a> {
    /// The zone selected in navigation.
    pub selected_zone: Option<&'a str>,
}

/// The plan for `event`: a reload reloads everything; a runtime change or a
/// permanent update of the selected zone reloads its comparison or its
/// details, and of another zone nothing; a removal or a rename reloads the
/// zone list, a rename keeping the selection on the renamed zone.
pub open spec fn planned(event: ConfigurationEvent, selected: Option<Seq<char>>, plan: ConfigurationRefreshPlan) -> bool {
    match event {
        ConfigurationEvent::Reloaded => plan == ConfigurationRefreshPlan::ReloadEverything,
        ConfigurationEvent::RuntimeZoneChanged { zone } => if selected == Some(zone@) {
            plan == (ConfigurationRefreshPlan::ReloadCurrentReconciliation { zone })
        } else {
            plan == ConfigurationRefreshPlan::FinishWithoutReload
        },
        ConfigurationEvent::PermanentZoneUpdated { zone } => if selected == Some(zone@) {
            plan == (ConfigurationRefreshPlan::ReloadCurrentZone { zone })
        } else {
            plan == ConfigurationRefreshPlan::FinishWithoutReload
        },
        ConfigurationEvent::PermanentZoneRemoved { .. } => plan == ConfigurationRefreshPlan::ReloadZones,
        ConfigurationEvent::PermanentZoneRenamed { old_zone, new_zone } => plan == (
        ConfigurationRefreshPlan::PreserveRenameAndReloadZones { old_zone, new_zone }),
    }
}

fn selects(selected: Option<&str>, zone: &String) -> (r: bool)
    ensures
        r == (opt_view(selected) == Some(zone@)),
{
    match selected {
        Some(s) => str_equal(s, zone.as_str()),
        None => false,
    }
}

/// Plans the reload for one configuration event.
pub fn plan_configuration_refresh(event: ConfigurationEvent, context: ConfigurationRefreshContext<'_>) -> (r: ConfigurationRefreshPlan)
    ensures
        planned(event, opt_view(context.selected_zone), r),
{
    match event {
        ConfigurationEvent::Reloaded => ConfigurationRefreshPlan::ReloadEverything,
        ConfigurationEvent::RuntimeZoneChanged { zone } => {
            if selects(context.selected_zone, &zone) {
                ConfigurationRefreshPlan::ReloadCurrentReconciliation { zone }
            } else {
                ConfigurationRefreshPlan::FinishWithoutReload
            }
        },
        ConfigurationEvent::PermanentZoneUpdated { zone } => {
            if selects(context.selected_zone, &zone) {
                ConfigurationRefreshPlan::ReloadCurrentZone { zone }
            } else {
                ConfigurationRefreshPlan::FinishWithoutReload
            }
        },
        ConfigurationEvent::PermanentZoneRemoved { .. } => ConfigurationRefreshPlan::ReloadZones,
        ConfigurationEvent::PermanentZoneRenamed { old_zone, new_zone } =>
            ConfigurationRefreshPlan::PreserveRenameAndReloadZones { old_zone, new_zone },
    }
}

/// One reload of a complete refresh.
#[derive(Clone, Copy, Debug, Eq, PartialEq, Structural)]
pub enum ReloadEverythingStep {
    FirewalldStatus,
    Zones,
    IpSets,
    Services,
    IcmpTypes,
    Interfaces,
}

/// The reloads of a complete refresh, in the order they start: firewalld
/// status, zones, IP sets, then the service, ICMP-type and interface catalogs.
pub fn reload_everything_steps() -> (r: [ReloadEverythingStep; 6])
    ensures
        r@ == seq![
            ReloadEverythingStep::FirewalldStatus,
            ReloadEverythingStep::Zones,
            ReloadEverythingStep::IpSets,
            ReloadEverythingStep::Services,
            ReloadEverythingStep::IcmpTypes,
            ReloadEverythingStep::Interfaces,
        ],
{
    let r = [
        ReloadEverythingStep::FirewalldStatus,
        ReloadEverythingStep::Zones,
        ReloadEverythingStep::IpSets,
        ReloadEverythingStep::Services,
        ReloadEverythingStep::IcmpTypes,
        ReloadEverythingStep::Interfaces,
    ];
    assert(r@ =~= seq![
        ReloadEverythingStep::FirewalldStatus,
        ReloadEverythingStep::Zones,
        ReloadEverythingStep::IpSets,
        ReloadEverythingStep::Services,
        ReloadEverythingStep::IcmpTypes,
        ReloadEverythingStep::Interfaces,
    ]);
    r
}

} // verus!
