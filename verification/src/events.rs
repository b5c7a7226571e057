//! Input events delivered to the widget and the change notification it
//! emits.
//!
//! The widget never calls its consumer directly: an accepted edit
//! produces a [`ChangeEvent`] which the enclosing framework delivers
//! through the registered [`OnChange`] handle. The handle is a
//! single-slot outbox guarded against re-entrant delivery: while a
//! notification is waiting to be consumed the slot is held, and a
//! delivery attempted in that window is silently dropped. Delivery is
//! therefore best-effort, not at-least-once.

use vstd::prelude::*;

verus! {

/// One event from the framework's dispatcher. Event kinds outside this
/// set do not reach the widget's logic and are represented by `Other`.
#[derive(Clone, Copy, Debug, PartialEq, Eq, Structural)]
pub enum InputEvent {
    /// One character of keyboard input.
    CharInput { c: char },
    /// The widget gained keyboard focus.
    Focus,
    /// The widget lost keyboard focus.
    Blur,
    /// Any other event kind; the widget ignores it.
    Other,
}

/// A snapshot of the edited value, constructed fresh on every accepted
/// edit and handed to the consumer. The text is carried as its sequence
/// of characters.
#[derive(Clone, Debug, PartialEq)]
pub struct ChangeEvent {
    pub value: Vec<char>,
}

/// The change-notification handle: a single-slot outbox. The widget
/// offers notifications into the slot; the consumer takes them out.
/// An offer made while the slot is still held is dropped.
#[derive(Clone, Debug)]
pub struct OnChange(pub Option<ChangeEvent>);

impl OnChange {
    /// A fresh handle with a free slot.
    pub fn new() -> (r: OnChange)
        ensures
            r.0 is None,
    {
        OnChange(None)
    }

    /// Offers a notification. It is stored if the slot is free and
    /// dropped otherwise; the result says whether it was stored.
    pub fn offer(&mut self, ev: ChangeEvent) -> (stored: bool)
        ensures
            stored == (old(self).0 is None),
            stored ==> final(self).0 == Some(ev),
            !stored ==> final(self).0 == old(self).0,
    {
        if self.0.is_none() {
            self.0 = Some(ev);
            true
        } else {
            false
        }
    }

    /// Takes the waiting notification out of the slot, freeing it.
    pub fn take(&mut self) -> (r: Option<ChangeEvent>)
        ensures
            r == old(self).0,
            final(self).0 is None,
    {
        let r = self.0.take();
        r
    }
}

impl PartialEq for OnChange {
    /// Two handles always compare equal: the comparison says nothing
    /// about pending notifications, only that both are handles of the
    /// same widget surface.
    fn eq(&self, _other: &Self) -> (r: bool)
        ensures
            r,
    {
        true
    }
}

impl vstd::std_specs::cmp::PartialEqSpecImpl for OnChange {
    open spec fn obeys_eq_spec() -> bool {
        true
    }

    open spec fn eq_spec(&self, _other: &OnChange) -> bool {
        true
    }
}

} // verus!
