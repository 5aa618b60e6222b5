//! The interface form.
use vstd::prelude::*;

use crate::text::trim;
use crate::validation::{interface_name_result, validate_interface_name};

use super::{localized_validation_error, validation_message_id};

verus! {

/// Edits of the interface form.
#[derive(Debug, Clone)]
pub enum Message {
    /// A dropdown row: 0 is the placeholder, `i` the interface at `i - 1`.
    Selected(usize),
    NameChanged(String),
}

/// The fields of the interface form.
#[derive(Debug, Clone)]
pub struct InterfaceFormState {
    pub interface: String,
    pub error: Option<String>,
}

/// The error that the form shows for its current interface name.
pub open spec fn interface_error_matches(name: Seq<char>, error: Option<String>) -> bool {
    match interface_name_result(trim(name)) {
        Ok(()) => error is None,
        Err(e) => error matches Some(m) && m@ == validation_message_id(e),
    }
}

/// Validates the trimmed interface name and records its error; returns whether it is valid.
pub fn validate(state: &mut InterfaceFormState) -> (r: bool)
    ensures
        r == (interface_name_result(trim(old(state).interface@)) is Ok),
        final(state).interface == old(state).interface,
        interface_error_matches(final(state).interface@, final(state).error),
{
    let t = super::port::trimmed(&state.interface);
    match validate_interface_name(t.as_str()) {
        Ok(()) => {
            state.error = None;
            true
        },
        Err(error) => {
            state.error = Some(localized_validation_error(error));
            false
        },
    }
}

/// What a message does to the form.
pub open spec fn updated(before: InterfaceFormState, after: InterfaceFormState, message: Message, interfaces: Seq<String>) -> bool {
    match message {
        Message::Selected(i) => if i == 0 {
            after.interface@.len() == 0 && after.error is None
        } else if i - 1 < interfaces.len() {
            after.interface == interfaces[i - 1] && interface_error_matches(
                after.interface@,
                after.error,
            )
        } else {
            after == before
        },
        Message::NameChanged(v) => after.interface == v && interface_error_matches(
            v@,
            after.error,
        ),
    }
}

/// Applies one edit to the form; `interfaces` lists the dropdown's interfaces.
pub fn update(state: &mut InterfaceFormState, message: Message, interfaces: &[String])
    ensures
        updated(*old(state), *final(state), message, interfaces@),
{
    match message {
        Message::Selected(index) => {
            if index == 0 {
                state.interface = String::new();
                state.error = None;
            } else if index - 1 < interfaces.len() {
                state.interface = interfaces[index - 1].clone();
                validate(state);
            }
        },
        Message::NameChanged(value) => {
            state.interface = value;
            validate(state);
        },
    }
}


impl Default for InterfaceFormState {
    /// The empty form.
    fn default() -> (r: Self)
        ensures
            r.interface@.len() == 0,
            r.error is None,
    {
        InterfaceFormState { interface: String::new(), error: None }
    }
}

} // verus!
