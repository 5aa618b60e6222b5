use cosmic_gfwd::dialogs::DialogKind;
use cosmic_gfwd::dialogs::port::PortKind;
use cosmic_gfwd::pages::{context_page_title, ContextCatalog, ContextFooter, ContextPage, ContextTitle};

#[test]
fn context_page_descriptors_centralize_dialog_catalog_and_presentation_policy() {
    let cases = [
        (ContextPage::About, None, None, false, ContextTitle::NoTitle, ContextFooter::NoFooter),
        (
            ContextPage::ReviewReconciliation,
            None,
            None,
            false,
            ContextTitle::Reconciliation,
            ContextFooter::NoFooter,
        ),
        (
            ContextPage::AddZone,
            Some(DialogKind::Zone),
            None,
            false,
            ContextTitle::Zone,
            ContextFooter::Submit,
        ),
        (
            ContextPage::AddService,
            Some(DialogKind::Service),
            Some(ContextCatalog::Services),
            true,
            ContextTitle::Service,
            ContextFooter::Cancel,
        ),
        (
            ContextPage::AddPort,
            Some(DialogKind::Port),
            None,
            true,
            ContextTitle::Port,
            ContextFooter::Submit,
        ),
        (
            ContextPage::AddInterface,
            Some(DialogKind::Interface),
            Some(ContextCatalog::Interfaces),
            true,
            ContextTitle::Interface,
            ContextFooter::Submit,
        ),
        (
            ContextPage::AddSource,
            Some(DialogKind::Source),
            None,
            true,
            ContextTitle::Source,
            ContextFooter::Submit,
        ),
        (
            ContextPage::AddIcmp,
            Some(DialogKind::Icmp),
            Some(ContextCatalog::IcmpTypes),
            true,
            ContextTitle::Icmp,
            ContextFooter::Cancel,
        ),
        (
            ContextPage::AddRichRule,
            Some(DialogKind::RichRule),
            None,
            true,
            ContextTitle::RichRule,
            ContextFooter::Submit,
        ),
        (
            ContextPage::AddIpSet,
            Some(DialogKind::IpSet),
            None,
            false,
            ContextTitle::IpSet,
            ContextFooter::Submit,
        ),
    ];

    for (page, dialog, catalog, requires_zone, title, footer) in cases {
        let descriptor = page.descriptor();
        assert_eq!(descriptor.dialog, dialog);
        assert_eq!(descriptor.catalog, catalog);
        assert_eq!(descriptor.requires_zone, requires_zone);
        assert_eq!(descriptor.title, title);
        assert_eq!(descriptor.footer, footer);
    }
    assert_eq!(ContextPage::default(), ContextPage::About);
}

#[test]
fn drawer_titles_name_the_port_kind() {
    assert_eq!(context_page_title(ContextTitle::Port, PortKind::Forward), "drawer-title-forward-port");
    assert_eq!(context_page_title(ContextTitle::Icmp, PortKind::Destination), "drawer-title-icmp");
    assert_eq!(context_page_title(ContextTitle::Reconciliation, PortKind::Source), "reconciliation-review-title");
}
