//! The zone creation form.
use vstd::prelude::*;

use crate::models::{TargetView, ZoneTarget};

verus! {

/// Edits of the zone form.
#[derive(Debug, Clone)]
pub enum Message {
    NameChanged(String),
    DescriptionChanged(String),
    TargetSelected(usize),
}

/// The fields of the zone form.
#[derive(Debug, Clone)]
pub struct ZoneFormState {
    pub name: String,
    pub description: String,
    pub target: ZoneTarget,
}

impl Default for ZoneFormState {
    /// Empty name and description, default target.
    fn default() -> (r: Self)
        ensures
            r.name@.len() == 0,
            r.description@.len() == 0,
            r.target == ZoneTarget::Default,
    {
        ZoneFormState { name: String::new(), description: String::new(), target: ZoneTarget::Default }
    }
}

/// The target that a dropdown index selects: default, accept, drop, reject; out-of-range
/// indices select the default target.
pub open spec fn target_for_index(index: int) -> TargetView {
    if index == 1 {
        TargetView::Accept
    } else if index == 2 {
        TargetView::Drop
    } else if index == 3 {
        TargetView::Reject
    } else {
        TargetView::Default
    }
}

/// The dropdown index of a target; targets outside the dropdown show as the default.
pub open spec fn index_for_target(t: TargetView) -> int {
    match t {
        TargetView::Default => 0,
        TargetView::Accept => 1,
        TargetView::Drop => 2,
        TargetView::Reject => 3,
        TargetView::Other(_) => 0,
    }
}

/// The target that a dropdown index selects.
pub fn target_from_index(index: usize) -> (r: ZoneTarget)
    ensures
        r@ == target_for_index(index as int),
{
    match index {
        1 => ZoneTarget::Accept,
        2 => ZoneTarget::Drop,
        3 => ZoneTarget::Reject,
        _ => ZoneTarget::Default,
    }
}

/// The dropdown index of a target.
pub fn target_index(target: &ZoneTarget) -> (r: usize)
    ensures
        r as int == index_for_target(target@),
{
    match target {
        ZoneTarget::Default => 0,
        ZoneTarget::Accept => 1,
        ZoneTarget::Drop => 2,
        ZoneTarget::Reject => 3,
        ZoneTarget::Other(_) => 0,
    }
}

/// Selecting the index of a dropdown target selects that target again.
pub proof fn lemma_target_index_round_trip(index: int)
    requires
        0 <= index < 4,
    ensures
        index_for_target(target_for_index(index)) == index,
{
}

/// What a message does to the form.
pub open spec fn updated(before: ZoneFormState, after: ZoneFormState, message: Message) -> bool {
    match message {
        Message::NameChanged(v) => after.name == v
            && after.description == before.description
            && after.target == before.target,
        Message::DescriptionChanged(v) => after.description == v
            && after.name == before.name && after.target == before.target,
        Message::TargetSelected(i) => after.target@ == target_for_index(i as int)
            && after.name == before.name
            && after.description == before.description,
    }
}

/// Applies one edit to the form.
pub fn update(state: &mut ZoneFormState, message: Message)
    ensures
        updated(*old(state), *final(state), message),
{
    match message {
        Message::NameChanged(value) => state.name = value,
        Message::DescriptionChanged(value) => state.description = value,
        Message::TargetSelected(index) => state.target = target_from_index(index),
    }
}

} // verus!

verus! {

/// The catalogue identifiers of the target choices, in index order.
pub fn target_labels() -> (r: Vec<String>)
    ensures
        r@.len() == 4,
        r@[0]@ == "dialog-target-default"@,
        r@[1]@ == "dialog-target-accept"@,
        r@[2]@ == "dialog-target-drop"@,
        r@[3]@ == "dialog-target-reject"@,
{
    let mut r: Vec<String> = Vec::new();
    r.push(crate::text::owned("dialog-target-default"));
    r.push(crate::text::owned("dialog-target-accept"));
    r.push(crate::text::owned("dialog-target-drop"));
    r.push(crate::text::owned("dialog-target-reject"));
    r
}

} // verus!
