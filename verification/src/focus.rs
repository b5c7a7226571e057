//! The focus state machine.
//!
//! The widget holds one boolean focus flag. A `Focus` event sets it, a
//! `Blur` event clears it, and every other event leaves it unchanged.
//! The machine has no terminal state; it lives for the widget's
//! lifetime, starting unfocused.

use vstd::prelude::*;
use crate::events::InputEvent;

verus! {

/// The widget's focus flag: `Focus(true)` when the widget holds
/// keyboard focus.
#[derive(Clone, Copy, Debug, PartialEq, Eq, Structural)]
pub struct Focus(pub bool);

impl Focus {
    /// The initial focus state: unfocused.
    pub fn initial() -> (r: Focus)
        ensures
            r == Focus(false),
    {
        Focus(false)
    }
}

/// The flag after one event: set by `Focus`, cleared by `Blur`,
/// untouched by anything else.
pub open spec fn focus_after(f: Focus, e: InputEvent) -> Focus {
    match e {
        InputEvent::Focus => Focus(true),
        InputEvent::Blur => Focus(false),
        _ => f,
    }
}

/// Runs one transition of the focus state machine.
pub fn focus_transition(f: Focus, e: &InputEvent) -> (r: Focus)
    ensures
        r == focus_after(f, *e),
{
    match e {
        InputEvent::Focus => Focus(true),
        InputEvent::Blur => Focus(false),
        _ => f,
    }
}

} // verus!
