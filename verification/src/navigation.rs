//! The navigation sidebar: which entries it lists, which one is selected, and
//! what selecting or acting on an entry asks of the application.
use vstd::prelude::*;

use crate::outcome::Outcome;
use crate::pages::ContextPage;
use crate::text::{
    contains_text, lowercase, owned, str_contains, str_equal, string_of, to_lowercase, trim,
    trim_chars, chars_of,
};

verus! {

/// One entry of the sidebar.
#[derive(Clone, Debug, PartialEq, Eq)]
pub enum SidebarItem {
    /// The IP-set page.
    IpSets,
    /// A permanent zone, with its default and runtime-active indicators.
    Zone { name: String, is_default: bool, is_active: bool },
    /// The zone list is loading.
    Loading,
    /// There is no zone to list.
    Empty,
    /// The zone list could not be loaded.
    Error(String),
}

/// The mathematical content of a [`SidebarItem`].
pub enum ItemView {
    IpSets,
    Zone { name: Seq<char>, is_default: bool, is_active: bool },
    Loading,
    Empty,
    Error(Seq<char>),
}

impl View for SidebarItem {
    type V = ItemView;

    open spec fn view(&self) -> ItemView {
        match self {
            SidebarItem::IpSets => ItemView::IpSets,
            SidebarItem::Zone { name, is_default, is_active } => ItemView::Zone {
                name: name@,
                is_default: *is_default,
                is_active: *is_active,
            },
            SidebarItem::Loading => ItemView::Loading,
            SidebarItem::Empty => ItemView::Empty,
            SidebarItem::Error(m) => ItemView::Error(m@),
        }
    }
}

/// The label that an entry shows, before localization.
#[derive(Clone, Debug, PartialEq, Eq)]
pub enum SidebarLabel {
    IpSets,
    /// The default zone, which also has runtime bindings.
    DefaultActiveZone(String),
    /// The default zone.
    DefaultZone(String),
    /// A zone with runtime bindings.
    ActiveZone(String),
    /// Any other zone, shown by its name.
    Zone(String),
    LoadingZones,
    EmptyZones,
    ZoneListError,
}

impl SidebarItem {
    /// The label of the entry.
    pub fn label(&self) -> (r: SidebarLabel)
        ensures
            match self@ {
                ItemView::IpSets => r == SidebarLabel::IpSets,
                ItemView::Zone { name, is_default, is_active } => if is_default && is_active {
                    r matches SidebarLabel::DefaultActiveZone(n) && n@ == name
                } else if is_default {
                    r matches SidebarLabel::DefaultZone(n) && n@ == name
                } else if is_active {
                    r matches SidebarLabel::ActiveZone(n) && n@ == name
                } else {
                    r matches SidebarLabel::Zone(n) && n@ == name
                },
                ItemView::Loading => r == SidebarLabel::LoadingZones,
                ItemView::Empty => r == SidebarLabel::EmptyZones,
                ItemView::Error(..) => r == SidebarLabel::ZoneListError,
            },
    {
        match self {
            SidebarItem::IpSets => SidebarLabel::IpSets,
            SidebarItem::Zone { name, is_default, is_active } => {
                if *is_default && *is_active {
                    SidebarLabel::DefaultActiveZone(name.clone())
                } else if *is_default {
                    SidebarLabel::DefaultZone(name.clone())
                } else if *is_active {
                    SidebarLabel::ActiveZone(name.clone())
                } else {
                    SidebarLabel::Zone(name.clone())
                }
            },
            SidebarItem::Loading => SidebarLabel::LoadingZones,
            SidebarItem::Empty => SidebarLabel::EmptyZones,
            SidebarItem::Error(..) => SidebarLabel::ZoneListError,
        }
    }

    /// The zone that the entry stands for.
    pub fn zone_name(&self) -> (r: Option<&str>)
        ensures
            match self@ {
                ItemView::Zone { name, .. } => r matches Some(n) && n@ == name,
                _ => r is None,
            },
    {
        match self {
            SidebarItem::Zone { name, .. } => Some(name.as_str()),
            _ => None,
        }
    }
}

/// The state of the zone list.
#[derive(Clone, Debug)]
pub enum SidebarStatus {
    Loading,
    Ready,
    Empty,
    Error(String),
}

/// The mathematical content of a [`SidebarStatus`].
pub enum StatusView {
    Loading,
    Ready,
    Empty,
    Error(Seq<char>),
}

/// The entry that the selection follows when the list is rebuilt.
pub enum ActiveKey {
    IpSets,
    Zone(Seq<char>),
}

/// The sidebar's zone list, filter, indicators, entries and selection.
#[derive(Debug)]
pub struct Sidebar {
    zones: Vec<String>,
    filter: String,
    default_zone: Option<String>,
    active_zones: Vec<String>,
    status: SidebarStatus,
    active_zone_override: Option<String>,
    items: Vec<SidebarItem>,
    active: usize,
}

/// The observable state of a [`Sidebar`].
pub struct SidebarView {
    pub zones: Seq<Seq<char>>,
    pub filter: Seq<char>,
    pub default_zone: Option<Seq<char>>,
    pub active_zones: Seq<Seq<char>>,
    pub status: StatusView,
    pub rename_target: Option<Seq<char>>,
    pub items: Seq<ItemView>,
    pub active: int,
}

/// The view of an optional string.
pub open spec fn opt_seq(o: Option<String>) -> Option<Seq<char>> {
    match o {
        Some(s) => Some(s@),
        None => None,
    }
}

/// The views of a sequence of strings.
pub open spec fn strings(v: Seq<String>) -> Seq<Seq<char>> {
    v.map_values(|s: String| s@)
}

/// The views of a sequence of entries.
pub open spec fn items_view(v: Seq<SidebarItem>) -> Seq<ItemView> {
    v.map_values(|i: SidebarItem| i@)
}

impl View for Sidebar {
    type V = SidebarView;

    closed spec fn view(&self) -> SidebarView {
        SidebarView {
            zones: strings(self.zones@),
            filter: self.filter@,
            default_zone: opt_seq(self.default_zone),
            active_zones: strings(self.active_zones@),
            status: match self.status {
                SidebarStatus::Loading => StatusView::Loading,
                SidebarStatus::Ready => StatusView::Ready,
                SidebarStatus::Empty => StatusView::Empty,
                SidebarStatus::Error(m) => StatusView::Error(m@),
            },
            rename_target: opt_seq(self.active_zone_override),
            items: items_view(self.items@),
            active: self.active as int,
        }
    }
}

/// Whether a zone passes the filter: an empty filter passes every zone,
/// otherwise the lowercased name must contain the lowercased trimmed filter.
pub open spec fn zone_shown(name: Seq<char>, filter: Seq<char>) -> bool {
    trim(filter).len() == 0 || contains_text(lowercase(name), lowercase(trim(filter)))
}

/// The zone entries for `zones`, in order, with their indicators.
pub open spec fn zone_entries(
    zones: Seq<Seq<char>>,
    filter: Seq<char>,
    default_zone: Option<Seq<char>>,
    active_zones: Seq<Seq<char>>,
) -> Seq<ItemView>
    decreases zones.len(),
{
    if zones.len() == 0 {
        Seq::empty()
    } else {
        let rest = zone_entries(zones.drop_last(), filter, default_zone, active_zones);
        let name = zones.last();
        if zone_shown(name, filter) {
            rest.push(
                ItemView::Zone {
                    name,
                    is_default: default_zone == Some(name),
                    is_active: active_zones.contains(name),
                },
            )
        } else {
            rest
        }
    }
}

/// The entries that the zone list contributes in each state.
pub open spec fn base_entries(v: SidebarView) -> Seq<ItemView> {
    match v.status {
        StatusView::Loading => seq![ItemView::Loading],
        StatusView::Empty => seq![ItemView::Empty],
        StatusView::Error(m) => seq![ItemView::Error(m)],
        StatusView::Ready => zone_entries(v.zones, v.filter, v.default_zone, v.active_zones),
    }
}

/// All entries: the IP-set page first, then the zone entries, or an empty
/// marker when there is none.
pub open spec fn listed(base: Seq<ItemView>) -> Seq<ItemView> {
    seq![ItemView::IpSets] + if base.len() == 0 {
        seq![ItemView::Empty]
    } else {
        base
    }
}

/// The key of an entry that a selection can follow.
pub open spec fn key_of(item: ItemView) -> Option<ActiveKey> {
    match item {
        ItemView::IpSets => Some(ActiveKey::IpSets),
        ItemView::Zone { name, .. } => Some(ActiveKey::Zone(name)),
        _ => None,
    }
}

/// Whether `item` is the entry that `key` names.
pub open spec fn has_key(item: ItemView, key: Option<ActiveKey>) -> bool {
    match (item, key) {
        (ItemView::IpSets, Some(ActiveKey::IpSets)) => true,
        (ItemView::Zone { name, .. }, Some(ActiveKey::Zone(k))) => name == k,
        _ => false,
    }
}

/// The index selected after a rebuild: the last entry that `key` names among
/// the first `n`, or the first entry when none does.
pub open spec fn chosen(items: Seq<ItemView>, key: Option<ActiveKey>, n: int) -> int
    decreases n,
{
    if n <= 0 {
        0
    } else if has_key(items[n - 1], key) {
        n - 1
    } else {
        chosen(items, key, n - 1)
    }
}

/// The entries and selection after a rebuild of `old` with `base` entries:
/// the selection follows a pending rename, else the previously selected entry.
pub open spec fn rebuilt(old: SidebarView, new: SidebarView, base: Seq<ItemView>) -> bool {
    let key = match old.rename_target {
        Some(n) => Some(ActiveKey::Zone(n)),
        None => key_of(old.items[old.active]),
    };
    &&& new.items == listed(base)
    &&& new.active == chosen(new.items, key, new.items.len() as int)
    &&& new.rename_target is None
}

/// The lists and status of the sidebar are equal.
pub open spec fn same_lists(a: SidebarView, b: SidebarView) -> bool {
    &&& a.zones == b.zones
    &&& a.filter == b.filter
    &&& a.default_zone == b.default_zone
    &&& a.active_zones == b.active_zones
    &&& a.status == b.status
}

proof fn lemma_chosen_range(items: Seq<ItemView>, key: Option<ActiveKey>, n: int)
    requires
        0 < n <= items.len(),
    ensures
        0 <= chosen(items, key, n) < n,
    decreases n,
{
    if n == 1 {
        assert(chosen(items, key, 0) == 0);
    } else if !has_key(items[n - 1], key) {
        lemma_chosen_range(items, key, n - 1);
    }
}

fn contains_name(names: &Vec<String>, name: &str) -> (r: bool)
    ensures
        r == strings(names@).contains(name@),
{
    let mut i: usize = 0;
    while i < names.len()
        invariant
            i <= names@.len(),
            forall|k: int| 0 <= k < i ==> names@[k]@ != name@,
        decreases names@.len() - i,
    {
        if str_equal(names[i].as_str(), name) {
            assert(strings(names@)[i as int] == name@);
            return true;
        }
        i = i + 1;
    }
    assert forall|k: int| 0 <= k < strings(names@).len() implies strings(names@)[k] != name@ by {
        assert(strings(names@)[k] == names@[k]@);
    }
    false
}

fn same_option(o: &Option<String>, name: &str) -> (r: bool)
    ensures
        r == (opt_seq(*o) == Some(name@)),
{
    match o {
        Some(s) => str_equal(s.as_str(), name),
        None => false,
    }
}

impl Sidebar {
    #[verifier::type_invariant]
    closed spec fn well_formed(self) -> bool {
        self.active < self.items@.len()
    }

    /// The zone entries that the zone list shows in its current state.
    fn build_zone_items(&self) -> (r: Vec<SidebarItem>)
        ensures
            items_view(r@) == zone_entries(self@.zones, self@.filter, self@.default_zone, self@.active_zones),
    {
        let raw = chars_of(self.filter.as_str());
        let trimmed = string_of(trim_chars(raw.as_slice()).as_slice());
        let empty_filter = trimmed.as_str().is_empty();
        let needle = to_lowercase(trimmed.as_str());
        let mut r: Vec<SidebarItem> = Vec::new();
        let mut i: usize = 0;
        proof {
            assert(trimmed@.len() == 0 <==> empty_filter);
        }
        while i < self.zones.len()
            invariant
                i <= self.zones@.len(),
                trimmed@ == trim(self.filter@),
                empty_filter == (trimmed@.len() == 0),
                needle@ == lowercase(trimmed@),
                items_view(r@) == zone_entries(
                    strings(self.zones@).take(i as int),
                    self@.filter,
                    self@.default_zone,
                    self@.active_zones,
                ),
            decreases self.zones@.len() - i,
        {
            let name = &self.zones[i];
            let shown = empty_filter || str_contains(to_lowercase(name.as_str()).as_str(), needle.as_str());
            proof {
                assert(strings(self.zones@).take(i + 1).drop_last() =~= strings(self.zones@).take(i as int));
                assert(strings(self.zones@).take(i + 1).last() == name@);
            }
            if shown {
                let is_default = same_option(&self.default_zone, name.as_str());
                let is_active = contains_name(&self.active_zones, name.as_str());
                r.push(SidebarItem::Zone { name: name.clone(), is_default, is_active });
                assert(items_view(r@) =~= zone_entries(
                    strings(self.zones@).take(i as int),
                    self@.filter,
                    self@.default_zone,
                    self@.active_zones,
                ).push(r@.last()@));
            }
            i = i + 1;
        }
        assert(strings(self.zones@).take(self.zones@.len() as int) =~= strings(self.zones@));
        r
    }

    /// The entries that the zone list contributes in its current state.
    fn base_items(&self) -> (r: Vec<SidebarItem>)
        ensures
            items_view(r@) == base_entries(self@),
    {
        match &self.status {
            SidebarStatus::Loading => {
                let mut v = Vec::new();
                v.push(SidebarItem::Loading);
                assert(items_view(v@) =~= seq![ItemView::Loading]);
                v
            },
            SidebarStatus::Empty => {
                let mut v = Vec::new();
                v.push(SidebarItem::Empty);
                assert(items_view(v@) =~= seq![ItemView::Empty]);
                v
            },
            SidebarStatus::Error(message) => {
                let mut v = Vec::new();
                v.push(SidebarItem::Error(message.clone()));
                assert(items_view(v@) =~= seq![ItemView::Error(message@)]);
                v
            },
            SidebarStatus::Ready => self.build_zone_items(),
        }
    }

    /// Rebuilds the entries from the zone list and restores the selection.
    fn rebuild_items(&mut self)
        ensures
            same_lists(old(self)@, final(self)@),
            rebuilt(old(self)@, final(self)@, base_entries(old(self)@)),
    {
        proof {
            use_type_invariant(&*self);
        }
        let base = self.base_items();
        let ghost key = match old(self)@.rename_target {
            Some(n) => Some(ActiveKey::Zone(n)),
            None => key_of(old(self)@.items[old(self)@.active]),
        };
        let target: Option<String> = match &self.active_zone_override {
            Some(name) => Some(name.clone()),
            None => match &self.items[self.active] {
                SidebarItem::Zone { name, .. } => Some(name.clone()),
                _ => None,
            },
        };
        let on_ipsets = target.is_none() && matches!(self.items[self.active], SidebarItem::IpSets);
        proof {
            assert(self.items@[self.active as int]@ == old(self)@.items[old(self)@.active]);
        }
        let mut all: Vec<SidebarItem> = Vec::new();
        all.push(SidebarItem::IpSets);
        if base.len() == 0 {
            all.push(SidebarItem::Empty);
        } else {
            let mut k: usize = 0;
            while k < base.len()
                invariant
                    k <= base@.len(),
                    base@.len() > 0,
                    items_view(all@) == seq![ItemView::IpSets] + items_view(base@).take(k as int),
                decreases base@.len() - k,
            {
                assert(items_view(base@)[k as int] == base@[k as int]@);
                let ghost prev = all@;
                let item = base[k].clone_item();
                all.push(item);
                assert(all@ == prev.push(item));
                assert(items_view(all@) =~= items_view(prev).push(item@));
                assert(items_view(base@).take(k + 1) =~= items_view(base@).take(k as int).push(item@));
                assert(items_view(all@) =~= seq![ItemView::IpSets] + items_view(base@).take(k + 1));
                k = k + 1;
            }
            assert(items_view(base@).take(base@.len() as int) =~= items_view(base@));
        }
        assert(items_view(all@) =~= listed(base_entries(old(self)@)));
        let mut chosen_index: usize = 0;
        let mut j: usize = 0;
        while j < all.len()
            invariant
                j <= all@.len(),
                all@.len() > 0,
                chosen_index < all@.len(),
                chosen_index == chosen(items_view(all@), key, j as int),
                on_ipsets == (key matches Some(ActiveKey::IpSets)),
                match target {
                    Some(t) => key == Some(ActiveKey::Zone(t@)),
                    None => key is None || key matches Some(ActiveKey::IpSets),
                },
            decreases all@.len() - j,
        {
            let hit = match (&all[j], &target) {
                (SidebarItem::IpSets, None) => on_ipsets,
                (SidebarItem::Zone { name, .. }, Some(t)) => str_equal(name.as_str(), t.as_str()),
                _ => false,
            };
            proof {
                assert(items_view(all@)[j as int] == all@[j as int]@);
            }
            if hit {
                chosen_index = j;
            }
            j = j + 1;
        }
        self.active_zone_override = None;
        self.active = 0;
        self.items = all;
        self.active = chosen_index;
    }

    /// A sidebar whose zone list is loading, with the IP-set page selected.
    pub fn new() -> (r: Self)
        ensures
            r@.zones.len() == 0,
            r@.filter.len() == 0,
            r@.default_zone is None,
            r@.active_zones.len() == 0,
            r@.status is Loading,
            r@.rename_target is None,
            r@.items == seq![ItemView::IpSets, ItemView::Loading],
            r@.active == 0,
    {
        let mut items: Vec<SidebarItem> = Vec::new();
        items.push(SidebarItem::IpSets);
        items.push(SidebarItem::Loading);
        let r = Sidebar {
            zones: Vec::new(),
            filter: String::new(),
            default_zone: None,
            active_zones: Vec::new(),
            status: SidebarStatus::Loading,
            active_zone_override: None,
            items,
            active: 0,
        };
        assert(items_view(r.items@) =~= seq![ItemView::IpSets, ItemView::Loading]);
        assert(strings(r.zones@) =~= Seq::<Seq<char>>::empty());
        assert(strings(r.active_zones@) =~= Seq::<Seq<char>>::empty());
        r
    }

    /// The entries of the sidebar, in display order.
    pub fn items(&self) -> (r: &[SidebarItem])
        ensures
            items_view(r@) == self@.items,
    {
        self.items.as_slice()
    }

    /// The index of the selected entry.
    pub fn active_index(&self) -> (r: usize)
        ensures
            r == self@.active,
            r < self@.items.len(),
    {
        proof {
            use_type_invariant(self);
        }
        self.active
    }

    /// Selects the entry at `index`; an index past the entries changes nothing.
    pub fn activate(&mut self, index: usize)
        ensures
            same_lists(old(self)@, final(self)@),
            final(self)@.items == old(self)@.items,
            final(self)@.rename_target == old(self)@.rename_target,
            final(self)@.active == if index < old(self)@.items.len() {
                index as int
            } else {
                old(self)@.active
            },
    {
        if index < self.items.len() {
            self.active = index;
        }
    }

    /// The selected entry.
    pub fn active_item(&self) -> (r: &SidebarItem)
        ensures
            r@ == self@.items[self@.active],
    {
        proof {
            use_type_invariant(self);
        }
        &self.items[self.active]
    }

    /// The title of the selected entry: a zone's plain name, otherwise the
    /// entry's label.
    pub fn active_label(&self) -> (r: SidebarLabel)
        ensures
            match self@.items[self@.active] {
                ItemView::Zone { name, .. } => r matches SidebarLabel::Zone(n) && n@ == name,
                ItemView::IpSets => r == SidebarLabel::IpSets,
                ItemView::Loading => r == SidebarLabel::LoadingZones,
                ItemView::Empty => r == SidebarLabel::EmptyZones,
                ItemView::Error(..) => r == SidebarLabel::ZoneListError,
            },
    {
        let item = self.active_item();
        match item {
            SidebarItem::Zone { name, .. } => SidebarLabel::Zone(name.clone()),
            _ => item.label(),
        }
    }

    /// The entry at `index`.
    pub fn item_at(&self, index: usize) -> (r: Option<&SidebarItem>)
        ensures
            index < self@.items.len() ==> (r matches Some(i) && i@ == self@.items[index as int]),
            index >= self@.items.len() ==> r is None,
    {
        if index < self.items.len() {
            Some(&self.items[index])
        } else {
            None
        }
    }

    /// The zone of the entry at `index`.
    pub fn zone_name_at(&self, index: usize) -> (r: Option<String>)
        ensures
            match r {
                Some(n) => index < self@.items.len() && (self@.items[index as int] matches ItemView::Zone {
                    name,
                    ..
                } && name == n@),
                None => index >= self@.items.len() || !(self@.items[index as int] is Zone),
            },
    {
        match self.item_at(index) {
            Some(item) => match item.zone_name() {
                Some(name) => Some(owned(name)),
                None => None,
            },
            None => None,
        }
    }

    /// Marks the zone list as loading, keeping the entries.
    pub fn set_loading(&mut self)
        ensures
            final(self)@.status is Loading,
            final(self)@.zones == old(self)@.zones,
            final(self)@.items == old(self)@.items,
            final(self)@.active == old(self)@.active,
    {
        proof {
            use_type_invariant(&*self);
        }
        self.status = SidebarStatus::Loading;
    }

    /// Replaces the zone list and rebuilds the entries.
    pub fn set_zones(&mut self, zones: Vec<String>)
        ensures
            final(self)@.zones == strings(zones@),
            final(self)@.filter == old(self)@.filter,
            final(self)@.default_zone == old(self)@.default_zone,
            final(self)@.active_zones == old(self)@.active_zones,
            final(self)@.status == if zones@.len() == 0 {
                StatusView::Empty
            } else {
                StatusView::Ready
            },
            rebuilt(old(self)@, final(self)@, base_entries(final(self)@)),
    {
        let empty = zones.len() == 0;
        proof {
            use_type_invariant(&*self);
        }
        self.zones = zones;
        self.status = if empty {
            SidebarStatus::Empty
        } else {
            SidebarStatus::Ready
        };
        self.rebuild_items();
    }

    /// The filter text.
    pub fn filter(&self) -> (r: &str)
        ensures
            r@ == self@.filter,
    {
        self.filter.as_str()
    }

    /// Whether the list is long enough to offer a filter.
    pub fn should_show_filter(&self) -> (r: bool)
        ensures
            r == (self@.zones.len() >= 8),
    {
        self.zones.len() >= 8
    }

    /// Replaces the filter and rebuilds the entries.
    pub fn set_filter(&mut self, filter: String)
        ensures
            final(self)@.filter == filter@,
            final(self)@.zones == old(self)@.zones,
            final(self)@.default_zone == old(self)@.default_zone,
            final(self)@.active_zones == old(self)@.active_zones,
            final(self)@.status == old(self)@.status,
            rebuilt(old(self)@, final(self)@, base_entries(final(self)@)),
    {
        proof {
            use_type_invariant(&*self);
        }
        self.filter = filter;
        self.rebuild_items();
    }

    /// Whether `name` is in the zone list, whatever the filter.
    pub fn zone_exists(&self, name: &str) -> (r: bool)
        ensures
            r == self@.zones.contains(name@),
    {
        contains_name(&self.zones, name)
    }

    /// Keeps the selection on a zone that is renamed from `old_name` to
    /// `new_name` while it is selected.
    pub fn preserve_zone_rename(&mut self, old_name: &str, new_name: &str)
        ensures
            same_lists(old(self)@, final(self)@),
            final(self)@.items == old(self)@.items,
            final(self)@.active == old(self)@.active,
            if (old(self)@.items[old(self)@.active] matches ItemView::Zone { name, .. } && name == old_name@) {
                final(self)@.rename_target == Some(new_name@)
            } else {
                final(self)@.rename_target == old(self)@.rename_target
            },
    {
        proof {
            use_type_invariant(&*self);
        }
        let renamed = match &self.items[self.active] {
            SidebarItem::Zone { name, .. } => str_equal(name.as_str(), old_name),
            _ => false,
        };
        if renamed {
            self.active_zone_override = Some(owned(new_name));
        }
    }

    /// Records the default zone and rebuilds the entries.
    pub fn set_default_zone(&mut self, zone: Option<String>)
        ensures
            final(self)@.default_zone == opt_seq(zone),
            final(self)@.zones == old(self)@.zones,
            final(self)@.filter == old(self)@.filter,
            final(self)@.active_zones == old(self)@.active_zones,
            final(self)@.status == old(self)@.status,
            rebuilt(old(self)@, final(self)@, base_entries(final(self)@)),
    {
        proof {
            use_type_invariant(&*self);
        }
        self.default_zone = zone;
        self.rebuild_items();
    }

    /// Records the zones with runtime bindings and rebuilds the entries.
    pub fn set_active_zones(&mut self, active_zones: Vec<String>)
        ensures
            final(self)@.active_zones == strings(active_zones@),
            final(self)@.zones == old(self)@.zones,
            final(self)@.filter == old(self)@.filter,
            final(self)@.default_zone == old(self)@.default_zone,
            final(self)@.status == old(self)@.status,
            rebuilt(old(self)@, final(self)@, base_entries(final(self)@)),
    {
        proof {
            use_type_invariant(&*self);
        }
        self.active_zones = active_zones;
        self.rebuild_items();
    }

    /// Records a zone-list failure and rebuilds the entries.
    pub fn set_error(&mut self, message: String)
        ensures
            final(self)@.status == StatusView::Error(message@),
            final(self)@.zones == old(self)@.zones,
            final(self)@.filter == old(self)@.filter,
            final(self)@.default_zone == old(self)@.default_zone,
            final(self)@.active_zones == old(self)@.active_zones,
            rebuilt(old(self)@, final(self)@, base_entries(final(self)@)),
    {
        proof {
            use_type_invariant(&*self);
        }
        self.status = SidebarStatus::Error(message);
        self.rebuild_items();
    }

    /// The default and runtime-active indicators of a listed zone.
    pub fn zone_indicators(&self, zone_name: &str) -> (r: Option<(bool, bool)>)
        ensures
            match r {
                Some((d, a)) => exists|i: int|
                    0 <= i < self@.items.len() && #[trigger] self@.items[i] == (ItemView::Zone {
                        name: zone_name@,
                        is_default: d,
                        is_active: a,
                    }),
                None => forall|i: int|
                    0 <= i < self@.items.len() ==> !(#[trigger] self@.items[i] matches ItemView::Zone {
                        name,
                        ..
                    } && name == zone_name@),
            },
    {
        let mut i: usize = 0;
        while i < self.items.len()
            invariant
                i <= self@.items.len(),
                items_view(self.items@) == self@.items,
                forall|k: int|
                    0 <= k < i ==> !(#[trigger] self@.items[k] matches ItemView::Zone { name, .. }
                        && name == zone_name@),
            decreases self@.items.len() - i,
        {
            assert(self@.items[i as int] == self.items@[i as int]@);
            match &self.items[i] {
                SidebarItem::Zone { name, is_default, is_active } => {
                    if str_equal(name.as_str(), zone_name) {
                        return Some((*is_default, *is_active));
                    }
                },
                _ => {},
            }
            i = i + 1;
        }
        None
    }

    /// Whether the zone list is loading.
    pub fn is_loading(&self) -> (r: bool)
        ensures
            r == self@.status is Loading,
    {
        matches!(self.status, SidebarStatus::Loading)
    }

    /// The zone-list failure being shown.
    pub fn error_message(&self) -> (r: Option<&str>)
        ensures
            match self@.status {
                StatusView::Error(m) => r matches Some(s) && s@ == m,
                _ => r is None,
            },
    {
        match &self.status {
            SidebarStatus::Error(message) => Some(message.as_str()),
            _ => None,
        }
    }
}

impl SidebarItem {
    /// A copy of the entry.
    pub fn clone_item(&self) -> (r: Self)
        ensures
            r@ == self@,
    {
        match self {
            SidebarItem::IpSets => SidebarItem::IpSets,
            SidebarItem::Zone { name, is_default, is_active } => SidebarItem::Zone {
                name: name.clone(),
                is_default: *is_default,
                is_active: *is_active,
            },
            SidebarItem::Loading => SidebarItem::Loading,
            SidebarItem::Empty => SidebarItem::Empty,
            SidebarItem::Error(m) => SidebarItem::Error(m.clone()),
        }
    }
}

/// Messages of the navigation sidebar.
#[derive(Debug)]
pub enum Message {
    /// Select the entry at an index.
    Select(usize),
    /// Open or close a context page.
    ToggleContextPage(ContextPage),
    /// Apply a context-menu action to an entry.
    MenuAction(MenuAction),
    /// The filter text changed.
    FilterChanged(String),
    /// The permanent zone list was loaded.
    ZonesLoaded(Result<Vec<String>, String>),
    /// The default zone was loaded.
    DefaultZoneLoaded(Result<String, String>),
    /// The zones with runtime bindings were loaded, in no particular order.
    ActiveZonesLoaded(Result<Vec<String>, String>),
    /// Open an external link.
    LaunchUrl(String),
}

/// Context-menu commands on the entry at an index.
#[derive(Clone, Copy, Debug, Eq, PartialEq, Structural)]
pub enum MenuAction {
    /// Select a zone and open its interface form.
    AssignInterface(usize),
    /// Make a zone the permanent default.
    SetDefault(usize),
    /// Rename a zone.
    Rename(usize),
    /// Ask for confirmation before deleting a zone.
    Delete(usize),
}

/// Coordination that navigation asks of the application.
#[derive(Clone, Debug, Eq, PartialEq)]
pub enum Request {
    /// Load the details of the selected zone.
    LoadZone(String),
    /// Load the IP-set list.
    LoadIpSets,
    /// Open a context page.
    OpenContextPage(ContextPage),
    /// Open or close a context page.
    ToggleContextPage(ContextPage),
    /// Make a zone the default.
    SetDefaultZone(String),
    /// Ask for confirmation before deleting a zone.
    ConfirmDeleteZone(String),
    /// Rename a zone.
    RenameZone(String),
    /// Show the selected entry in the window title.
    RefreshTitle,
    /// Clear the zone pane and mark the comparison unavailable.
    ClearSelectedZone,
    /// Load the default zone.
    LoadDefaultZone,
    /// Load the zones with runtime bindings.
    LoadActiveZones,
    /// Finish a pending configuration refresh.
    FinishConfigurationRefresh,
    /// Show a zone-list failure in the zone pane.
    ShowZoneListError(String),
    /// Open an external link.
    LaunchUrl(String),
}

/// The requests that selecting an entry makes: load the selected zone or the
/// IP-set list, or clear the zone pane, and then refresh the title.
pub open spec fn selection_requests(item: Option<ItemView>, r: Seq<Request>) -> bool {
    &&& r.len() == 2
    &&& r[1] == Request::RefreshTitle
    &&& match item {
        Some(ItemView::Zone { name, .. }) => r[0] matches Request::LoadZone(n) && n@ == name,
        Some(ItemView::IpSets) => r[0] == Request::LoadIpSets,
        _ => r[0] == Request::ClearSelectedZone,
    }
}

/// The requests that selecting `item` makes.
pub fn selection_outcome_for(item: Option<&SidebarItem>) -> (r: Outcome<(), Request>)
    ensures
        selection_requests(
            match item {
                Some(i) => Some(i@),
                None => None,
            },
            r.requests@,
        ),
        r.effects@.len() == 0,
{
    let mut outcome = match item {
        Some(SidebarItem::Zone { name, .. }) => Outcome::request(Request::LoadZone(name.clone())),
        Some(SidebarItem::IpSets) => Outcome::request(Request::LoadIpSets),
        _ => Outcome::request(Request::ClearSelectedZone),
    };
    outcome.requests.push(Request::RefreshTitle);
    outcome
}

/// Selects the entry at `index` and returns what the selection asks for.
pub fn select(state: &mut Sidebar, index: usize) -> (r: Outcome<(), Request>)
    ensures
        same_lists(old(state)@, final(state)@),
        final(state)@.items == old(state)@.items,
        final(state)@.rename_target == old(state)@.rename_target,
        final(state)@.active == if index < old(state)@.items.len() {
            index as int
        } else {
            old(state)@.active
        },
        selection_requests(Some(final(state)@.items[final(state)@.active]), r.requests@),
        r.effects@.len() == 0,
{
    state.activate(index);
    selection_outcome_for(Some(state.active_item()))
}

/// What a context-menu action does to the sidebar and asks for.
pub open spec fn menu_result(old: SidebarView, new: SidebarView, requests: Seq<Request>, action: MenuAction) -> bool {
    match action {
        MenuAction::AssignInterface(i) => match old.items[i as int] {
            ItemView::Zone { name, .. } if (i as int) < old.items.len() => {
                &&& same_lists(old, new)
                &&& new.items == old.items
                &&& new.active == i
                &&& requests.len() == 3
                &&& requests[0] matches Request::LoadZone(n) && n@ == name
                &&& requests[1] == Request::RefreshTitle
                &&& requests[2] == Request::OpenContextPage(ContextPage::AddInterface)
            },
            _ => new == old && requests.len() == 0,
        },
        MenuAction::SetDefault(i) | MenuAction::Rename(i) | MenuAction::Delete(i) => {
            &&& new == old
            &&& if (i as int) < old.items.len() && old.items[i as int] is Zone {
                let name = old.items[i as int]->Zone_name;
                &&& requests.len() == 1
                &&& match action {
                    MenuAction::SetDefault(_) => requests[0] matches Request::SetDefaultZone(n)
                        && n@ == name,
                    MenuAction::Rename(_) => requests[0] matches Request::RenameZone(n) && n@
                        == name,
                    _ => requests[0] matches Request::ConfirmDeleteZone(n) && n@ == name,
                }
            } else {
                requests.len() == 0
            }
        },
    }
}

/// What a context-menu action asks for: nothing for an entry that is no
/// zone; otherwise selecting the zone and opening its interface form, or
/// making it the default, renaming it or confirming its deletion.
pub fn menu_action(state: &mut Sidebar, action: MenuAction) -> (r: Outcome<(), Request>)
    ensures
        r.effects@.len() == 0,
        menu_result(old(state)@, final(state)@, r.requests@, action),
{
    match action {
        MenuAction::AssignInterface(index) => {
            if state.zone_name_at(index).is_none() {
                return Outcome::default();
            }
            let mut outcome = select(state, index);
            outcome.requests.push(Request::OpenContextPage(ContextPage::AddInterface));
            outcome
        },
        MenuAction::SetDefault(index) => match state.zone_name_at(index) {
            Some(name) => Outcome::request(Request::SetDefaultZone(name)),
            None => Outcome::default(),
        },
        MenuAction::Rename(index) => match state.zone_name_at(index) {
            Some(name) => Outcome::request(Request::RenameZone(name)),
            None => Outcome::default(),
        },
        MenuAction::Delete(index) => match state.zone_name_at(index) {
            Some(name) => Outcome::request(Request::ConfirmDeleteZone(name)),
            None => Outcome::default(),
        },
    }
}

/// The requests after a successful zone-list load: load the default and the
/// active zones, then reload the selected zone or clear the zone pane and
/// finish a pending refresh, then refresh the title.
pub open spec fn zones_loaded_requests(active: ItemView, r: Seq<Request>) -> bool {
    &&& r[0] == Request::LoadDefaultZone
    &&& r[1] == Request::LoadActiveZones
    &&& match active {
        ItemView::Zone { name, .. } => r.len() == 4 && (r[2] matches Request::LoadZone(n) && n@
            == name) && r[3] == Request::RefreshTitle,
        _ => r.len() == 5 && r[2] == Request::ClearSelectedZone && r[3]
            == Request::FinishConfigurationRefresh && r[4] == Request::RefreshTitle,
    }
}

fn zones_loaded(state: &mut Sidebar, result: Result<Vec<String>, String>) -> (r: Outcome<(), Request>)
    ensures
        r.effects@.len() == 0,
        match result {
            Ok(zones) => {
                &&& final(state)@.zones == strings(zones@)
                &&& final(state)@.filter == old(state)@.filter
                &&& final(state)@.default_zone == old(state)@.default_zone
                &&& final(state)@.active_zones == old(state)@.active_zones
                &&& final(state)@.status == if zones@.len() == 0 {
                    StatusView::Empty
                } else {
                    StatusView::Ready
                }
                &&& rebuilt(old(state)@, final(state)@, base_entries(final(state)@))
                &&& zones_loaded_requests(final(state)@.items[final(state)@.active], r.requests@)
            },
            Err(message) => {
                &&& final(state)@.status == StatusView::Error(message@)
                &&& final(state)@.zones == old(state)@.zones
                &&& rebuilt(old(state)@, final(state)@, base_entries(final(state)@))
                &&& r.requests@.len() == 1
                &&& r.requests@[0] matches Request::ShowZoneListError(m) && m@ == message@
            },
        },
{
    match result {
        Ok(zones) => {
            state.set_zones(zones);
            let mut outcome = Outcome::request(Request::LoadDefaultZone);
            outcome.requests.push(Request::LoadActiveZones);
            match state.active_item() {
                SidebarItem::Zone { name, .. } => {
                    outcome.requests.push(Request::LoadZone(name.clone()));
                },
                _ => {
                    outcome.requests.push(Request::ClearSelectedZone);
                    outcome.requests.push(Request::FinishConfigurationRefresh);
                },
            }
            outcome.requests.push(Request::RefreshTitle);
            outcome
        },
        Err(message) => {
            state.set_error(message.clone());
            Outcome::request(Request::ShowZoneListError(message))
        },
    }
}

fn ok_or_none<T>(result: Result<T, String>) -> (r: Option<T>)
    ensures
        match result {
            Ok(v) => r == Some(v),
            Err(_) => r is None,
        },
{
    match result {
        Ok(v) => Some(v),
        Err(_) => None,
    }
}

/// Applies one navigation message.
pub fn update(state: &mut Sidebar, message: Message) -> (r: Outcome<(), Request>)
    ensures
        r.effects@.len() == 0,
        match message {
            Message::Select(index) => {
                &&& same_lists(old(state)@, final(state)@)
                &&& final(state)@.items == old(state)@.items
                &&& final(state)@.active == if index < old(state)@.items.len() {
                    index as int
                } else {
                    old(state)@.active
                }
                &&& selection_requests(Some(final(state)@.items[final(state)@.active]), r.requests@)
            },
            Message::ToggleContextPage(page) => final(state)@ == old(state)@ && r.requests@ == seq![
                Request::ToggleContextPage(page),
            ],
            Message::MenuAction(action) => menu_result(old(state)@, final(state)@, r.requests@, action),
            Message::FilterChanged(filter) => {
                &&& final(state)@.filter == filter@
                &&& final(state)@.zones == old(state)@.zones
                &&& rebuilt(old(state)@, final(state)@, base_entries(final(state)@))
                &&& r.requests@.len() == 0
            },
            Message::ZonesLoaded(Ok(zones)) => {
                &&& final(state)@.zones == strings(zones@)
                &&& rebuilt(old(state)@, final(state)@, base_entries(final(state)@))
                &&& zones_loaded_requests(final(state)@.items[final(state)@.active], r.requests@)
            },
            Message::ZonesLoaded(Err(message)) => {
                &&& final(state)@.status == StatusView::Error(message@)
                &&& rebuilt(old(state)@, final(state)@, base_entries(final(state)@))
                &&& r.requests@.len() == 1
                &&& r.requests@[0] matches Request::ShowZoneListError(m) && m@ == message@
            },
            Message::DefaultZoneLoaded(result) => {
                &&& final(state)@.default_zone == match result {
                    Ok(zone) => Some(zone@),
                    Err(_) => None,
                }
                &&& final(state)@.zones == old(state)@.zones
                &&& final(state)@.active_zones == old(state)@.active_zones
                &&& rebuilt(old(state)@, final(state)@, base_entries(final(state)@))
                &&& r.requests@.len() == 0
            },
            Message::ActiveZonesLoaded(result) => {
                &&& final(state)@.active_zones == match result {
                    Ok(zones) => strings(zones@),
                    Err(_) => Seq::empty(),
                }
                &&& final(state)@.zones == old(state)@.zones
                &&& final(state)@.default_zone == old(state)@.default_zone
                &&& rebuilt(old(state)@, final(state)@, base_entries(final(state)@))
                &&& r.requests@.len() == 0
            },
            Message::LaunchUrl(url) => final(state)@ == old(state)@ && r.requests@ == seq![
                Request::LaunchUrl(url),
            ],
        },
{
    match message {
        Message::Select(index) => select(state, index),
        Message::ToggleContextPage(page) => Outcome::request(Request::ToggleContextPage(page)),
        Message::MenuAction(action) => menu_action(state, action),
        Message::FilterChanged(filter) => {
            state.set_filter(filter);
            Outcome::default()
        },
        Message::ZonesLoaded(result) => zones_loaded(state, result),
        Message::DefaultZoneLoaded(result) => {
            state.set_default_zone(ok_or_none(result));
            Outcome::default()
        },
        Message::ActiveZonesLoaded(result) => {
            let zones = match result {
                Ok(zones) => zones,
                Err(_) => Vec::new(),
            };
            state.set_active_zones(zones);
            Outcome::default()
        },
        Message::LaunchUrl(url) => Outcome::request(Request::LaunchUrl(url)),
    }
}

} // verus!
