//! Logical input actions and the consumed/not-consumed verdict.
//!
//! The host resolves raw terminal events against its key-binding table and
//! hands the pane one of these actions; the pane's routing never inspects
//! raw key codes.

use vstd::prelude::*;

verus! {

/// A key press, already resolved to the logical action it is bound to.
#[derive(Clone, Copy, PartialEq, Eq, Structural, Debug)]
pub enum KeyAction {
    /// Close the pane.
    ExitPopup,
    /// Move focus from the list to the detail view.
    FocusRight,
    /// Move focus from the detail view back to the list.
    FocusLeft,
    /// Inspect the selected revision in full.
    Enter,
    MoveUp,
    MoveDown,
    Home,
    End,
    PageUp,
    PageDown,
    /// Any key the pane has no binding for.
    Other,
}

/// Whether a component consumed an input event.
#[derive(Clone, Copy, PartialEq, Eq, Structural, Debug)]
pub enum EventState {
    Consumed,
    NotConsumed,
}

impl EventState {
    pub open spec fn spec_is_consumed(&self) -> bool {
        *self is Consumed
    }

    pub fn is_consumed(&self) -> (r: bool)
        ensures
            r == self.spec_is_consumed(),
    {
        matches!(self, EventState::Consumed)
    }
}

} // verus!
