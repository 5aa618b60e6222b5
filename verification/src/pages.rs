//! The pages of the context drawer and the policy that each one follows.
use vstd::prelude::*;

use crate::dialogs::port::PortKind;
use crate::dialogs::DialogKind;

verus! {

/// The page shown in the context drawer.
#[derive(Copy, Clone, Debug, Eq, PartialEq, Structural)]
pub enum ContextPage {
    About,
    AddZone,
    AddService,
    AddPort,
    AddInterface,
    AddSource,
    AddIcmp,
    AddRichRule,
    AddIpSet,
    ReviewReconciliation,
}

impl Default for ContextPage {
    fn default() -> (r: Self)
        ensures
            r == ContextPage::About,
    {
        ContextPage::About
    }
}

/// The catalog loaded whenever a context page opens.
#[derive(Clone, Copy, Debug, Eq, PartialEq, Structural)]
pub enum ContextCatalog {
    Services,
    Interfaces,
    IcmpTypes,
}

/// The title that the drawer shows for a page.
#[derive(Clone, Copy, Debug, Eq, PartialEq, Structural)]
pub enum ContextTitle {
    /// The page shows no title.
    NoTitle,
    Reconciliation,
    Zone,
    Service,
    Port,
    Interface,
    Source,
    Icmp,
    RichRule,
    IpSet,
}

/// The footer that the drawer shows for a page.
#[derive(Clone, Copy, Debug, Eq, PartialEq, Structural)]
pub enum ContextFooter {
    /// The page shows no footer.
    NoFooter,
    Submit,
    Cancel,
}

/// The routing and presentation policy of one context page.
#[derive(Clone, Copy, Debug, Eq, PartialEq, Structural)]
pub struct ContextPageDescriptor {
    /// The dialog that the page hosts.
    pub dialog: Option<DialogKind>,
    /// The catalog loaded when the page opens.
    pub catalog: Option<ContextCatalog>,
    /// Whether the page needs a selected zone.
    pub requires_zone: bool,
    /// The title of the page.
    pub title: ContextTitle,
    /// The footer of the page.
    pub footer: ContextFooter,
}

/// The descriptor of each page.
pub open spec fn page_descriptor(page: ContextPage) -> ContextPageDescriptor {
    match page {
        ContextPage::About => ContextPageDescriptor {
            dialog: None,
            catalog: None,
            requires_zone: false,
            title: ContextTitle::NoTitle,
            footer: ContextFooter::NoFooter,
        },
        ContextPage::ReviewReconciliation => ContextPageDescriptor {
            dialog: None,
            catalog: None,
            requires_zone: false,
            title: ContextTitle::Reconciliation,
            footer: ContextFooter::NoFooter,
        },
        ContextPage::AddZone => ContextPageDescriptor {
            dialog: Some(DialogKind::Zone),
            catalog: None,
            requires_zone: false,
            title: ContextTitle::Zone,
            footer: ContextFooter::Submit,
        },
        ContextPage::AddService => ContextPageDescriptor {
            dialog: Some(DialogKind::Service),
            catalog: Some(ContextCatalog::Services),
            requires_zone: true,
            title: ContextTitle::Service,
            footer: ContextFooter::Cancel,
        },
        ContextPage::AddPort => ContextPageDescriptor {
            dialog: Some(DialogKind::Port),
            catalog: None,
            requires_zone: true,
            title: ContextTitle::Port,
            footer: ContextFooter::Submit,
        },
        ContextPage::AddInterface => ContextPageDescriptor {
            dialog: Some(DialogKind::Interface),
            catalog: Some(ContextCatalog::Interfaces),
            requires_zone: true,
            title: ContextTitle::Interface,
            footer: ContextFooter::Submit,
        },
        ContextPage::AddSource => ContextPageDescriptor {
            dialog: Some(DialogKind::Source),
            catalog: None,
            requires_zone: true,
            title: ContextTitle::Source,
            footer: ContextFooter::Submit,
        },
        ContextPage::AddIcmp => ContextPageDescriptor {
            dialog: Some(DialogKind::Icmp),
            catalog: Some(ContextCatalog::IcmpTypes),
            requires_zone: true,
            title: ContextTitle::Icmp,
            footer: ContextFooter::Cancel,
        },
        ContextPage::AddRichRule => ContextPageDescriptor {
            dialog: Some(DialogKind::RichRule),
            catalog: None,
            requires_zone: true,
            title: ContextTitle::RichRule,
            footer: ContextFooter::Submit,
        },
        ContextPage::AddIpSet => ContextPageDescriptor {
            dialog: Some(DialogKind::IpSet),
            catalog: None,
            requires_zone: false,
            title: ContextTitle::IpSet,
            footer: ContextFooter::Submit,
        },
    }
}

impl ContextPage {
    /// The single descriptor shared by routing and drawer rendering.
    pub fn descriptor(self) -> (r: ContextPageDescriptor)
        ensures
            r == page_descriptor(self),
    {
        match self {
            ContextPage::About => ContextPageDescriptor {
                dialog: None,
                catalog: None,
                requires_zone: false,
                title: ContextTitle::NoTitle,
                footer: ContextFooter::NoFooter,
            },
            ContextPage::ReviewReconciliation => ContextPageDescriptor {
                dialog: None,
                catalog: None,
                requires_zone: false,
                title: ContextTitle::Reconciliation,
                footer: ContextFooter::NoFooter,
            },
            ContextPage::AddZone => ContextPageDescriptor {
                dialog: Some(DialogKind::Zone),
                catalog: None,
                requires_zone: false,
                title: ContextTitle::Zone,
                footer: ContextFooter::Submit,
            },
            ContextPage::AddService => ContextPageDescriptor {
                dialog: Some(DialogKind::Service),
                catalog: Some(ContextCatalog::Services),
                requires_zone: true,
                title: ContextTitle::Service,
                footer: ContextFooter::Cancel,
            },
            ContextPage::AddPort => ContextPageDescriptor {
                dialog: Some(DialogKind::Port),
                catalog: None,
                requires_zone: true,
                title: ContextTitle::Port,
                footer: ContextFooter::Submit,
            },
            ContextPage::AddInterface => ContextPageDescriptor {
                dialog: Some(DialogKind::Interface),
                catalog: Some(ContextCatalog::Interfaces),
                requires_zone: true,
                title: ContextTitle::Interface,
                footer: ContextFooter::Submit,
            },
            ContextPage::AddSource => ContextPageDescriptor {
                dialog: Some(DialogKind::Source),
                catalog: None,
                requires_zone: true,
                title: ContextTitle::Source,
                footer: ContextFooter::Submit,
            },
            ContextPage::AddIcmp => ContextPageDescriptor {
                dialog: Some(DialogKind::Icmp),
                catalog: Some(ContextCatalog::IcmpTypes),
                requires_zone: true,
                title: ContextTitle::Icmp,
                footer: ContextFooter::Cancel,
            },
            ContextPage::AddRichRule => ContextPageDescriptor {
                dialog: Some(DialogKind::RichRule),
                catalog: None,
                requires_zone: true,
                title: ContextTitle::RichRule,
                footer: ContextFooter::Submit,
            },
            ContextPage::AddIpSet => ContextPageDescriptor {
                dialog: Some(DialogKind::IpSet),
                catalog: None,
                requires_zone: false,
                title: ContextTitle::IpSet,
                footer: ContextFooter::Submit,
            },
        }
    }
}

} // verus!

verus! {

/// The catalogue identifier of a drawer title; the port title names the
/// kind of port being added.
pub open spec fn title_id(title: ContextTitle, port_kind: PortKind) -> Seq<char> {
    match title {
        ContextTitle::NoTitle => Seq::empty(),
        ContextTitle::Reconciliation => "reconciliation-review-title"@,
        ContextTitle::Zone => "drawer-title-zone"@,
        ContextTitle::Service => "dialog-service-title"@,
        ContextTitle::Port => match port_kind {
            PortKind::Destination => "drawer-title-destination-port"@,
            PortKind::Source => "drawer-title-source-port"@,
            PortKind::Forward => "drawer-title-forward-port"@,
        },
        ContextTitle::Interface => "drawer-title-interface"@,
        ContextTitle::Source => "drawer-title-source"@,
        ContextTitle::Icmp => "drawer-title-icmp"@,
        ContextTitle::RichRule => "drawer-title-rich-rule"@,
        ContextTitle::IpSet => "drawer-title-ipset"@,
    }
}

/// The title of a drawer page that has one.
pub fn context_page_title(title: ContextTitle, port_kind: PortKind) -> (r: String)
    requires
        title != ContextTitle::NoTitle,
    ensures
        r@ == title_id(title, port_kind),
{
    let id = match title {
        ContextTitle::NoTitle => "",
        ContextTitle::Reconciliation => "reconciliation-review-title",
        ContextTitle::Zone => "drawer-title-zone",
        ContextTitle::Service => "dialog-service-title",
        ContextTitle::Port => match port_kind {
            PortKind::Destination => "drawer-title-destination-port",
            PortKind::Source => "drawer-title-source-port",
            PortKind::Forward => "drawer-title-forward-port",
        },
        ContextTitle::Interface => "drawer-title-interface",
        ContextTitle::Source => "drawer-title-source",
        ContextTitle::Icmp => "drawer-title-icmp",
        ContextTitle::RichRule => "drawer-title-rich-rule",
        ContextTitle::IpSet => "drawer-title-ipset",
    };
    crate::text::owned(id)
}

} // verus!
