use vstd::prelude::*;

pub mod broker;
pub mod catalogs;
pub mod dialogs;
pub mod events;
pub mod ipsets;
pub mod models;
pub mod navigation;
pub mod net;
pub mod operations;
pub mod order;
pub mod pickers;
pub mod presentation;
pub mod outcome;
pub mod pages;
pub mod reconciler;
pub mod reconciliation;
pub mod refresh;
pub mod review;
pub mod rich_rule;
pub mod root;
pub mod router;
pub mod settings;
pub mod sorting;
pub mod validation;
pub mod text;
pub mod watcher;
pub mod zone_view;
pub mod zones;

verus! {

} // verus!
