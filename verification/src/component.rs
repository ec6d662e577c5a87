//! The component/action protocol: the events a component may be handed, the
//! ways it can answer input, the popups that can be shown, and the closed
//! vocabulary of actions a component may request of its parent.

use vstd::prelude::*;

use crate::loader::LoaderPopup;

verus! {

/// A terminal event, reduced to what the loop's logic reads of it.
#[derive(Debug)]
pub enum TermEvent {
    /// The terminal lost focus. Pure notification, filtered out by the loop.
    FocusLost,
    /// The mouse moved with no button held. Filtered out by the loop.
    MouseMove,
    /// A mouse button was pressed.
    MouseDown,
    /// A key was pressed.
    Key(char),
    /// The terminal was resized.
    Resize(u16, u16),
}

/// A no-op event: one the loop must drop without dispatching it to any
/// component and without counting it as user activity.
pub open spec fn is_noop_event(e: TermEvent) -> bool {
    e is FocusLost || e is MouseMove
}

/// How a component answered an input event, so parents can decide whether to
/// keep propagating an unconsumed event.
#[derive(Debug)]
pub enum ComponentInputResult {
    /// Consumed, nothing requested.
    Handled,
    /// Consumed, and an action is requested of the parent.
    HandledAction(Action),
    /// Not consumed; the parent should keep propagating it.
    NotHandled,
}

impl ComponentInputResult {
    /// Whether the event was consumed.
    pub fn is_handled(&self) -> (r: bool)
        ensures
            r == !(self is NotHandled),
    {
        match self {
            ComponentInputResult::Handled => true,
            ComponentInputResult::HandledAction(_) => true,
            ComponentInputResult::NotHandled => false,
        }
    }
}

/// A popup that only displays a titled message.
#[derive(Debug)]
pub struct MessagePopup {
    pub title: String,
    pub body: String,
}

/// The closed set of transient overlays the application can show.
#[derive(Debug)]
pub enum Popup {
    /// An operation is in flight; input is swallowed while it runs.
    Loader(LoaderPopup),
    /// A titled message or error display.
    Message(MessagePopup),
}

/// A declarative request to mutate the shared UI state, returned by a
/// component instead of mutating that state directly. Batched actions apply
/// in list order, each seeing the state the previous one left.
#[derive(Debug)]
pub enum Action {
    /// Replace the active popup wholesale, or clear it.
    SetPopup(Option<Popup>),
    /// Request that the active view be refreshed.
    RefreshTab,
    /// A batch of actions, applied strictly in order.
    Multiple(Vec<Action>),
}

} // verus!
