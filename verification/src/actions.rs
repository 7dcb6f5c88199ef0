//! Semantic actions: what a raw input event means under the configured
//! bindings.

use vstd::prelude::*;
use crate::event::Event;

verus! {

/// Everything the manager can be asked to do through a binding.
#[derive(Debug, Clone, Copy, PartialEq, Eq, Structural)]
pub enum ActionType {
    /// Start dragging a floating window to a new position.
    FloatingWindowMove,
    /// Start dragging a floating window to a new size.
    FloatingWindowResize,
    /// Give a window the focus.
    WindowFocus,
    /// Quit the manager.
    WindowManagerQuit,
    /// Restart the manager.
    WindowManagerRestart,
}

/// An action paired with the event that provoked it: the event carries the
/// window and pointer details the action is performed with.
#[derive(Debug, Clone, Copy, PartialEq, Eq, Structural)]
pub struct Action {
    /// The kind of action to perform.
    pub action: ActionType,
    /// The event that provoked it.
    pub event: Event,
}

impl Action {
    /// Pair an action with its provoking event.
    pub fn new(action: ActionType, event: Event) -> (r: Self)
        ensures
            r.action == action,
            r.event == event,
    {
        Self { action, event }
    }

    /// The kind of action to perform.
    pub fn get_type(&self) -> (r: ActionType)
        ensures
            r == self.action,
    {
        self.action
    }

    /// The event that provoked this action.
    pub fn get_event(&self) -> (r: &Event)
        ensures
            r == self.event,
    {
        &self.event
    }
}

} // verus!
