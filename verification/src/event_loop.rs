//! The decisions of the event/render loop: which events are dropped, where
//! input goes, how a popup's update tick mutates the shared UI state, and
//! how long the loop may wait for the next event.
//!
//! The loop itself — polling the terminal, spawning background units,
//! drawing — lives outside the library and feeds these functions plain
//! values: the current time, the event that arrived (if any), and what one
//! non-blocking poll of the active operation's channel observed.

use vstd::prelude::*;

use crate::channel::PollStatus;
use crate::component::{is_noop_event, Action, Popup, TermEvent};
use crate::loader::{
    spec_animation_due, spec_error_title, spec_message_title, spec_next_phase, LoaderPopup,
};
use crate::outcome::{spec_error_message, InternalError, Outcome};

verus! {

/// How long the loop waits while a popup is active, so the popup keeps
/// animating even without user input.
pub const POPUP_WAIT_MS: u64 = 100;

/// How long the loop may wait for the next terminal event.
#[derive(Debug)]
pub enum WaitPolicy {
    /// No popup is active: wait indefinitely and redraw only on demand.
    WaitForEvent,
    /// A popup is active: wait at most this many milliseconds.
    WaitMillis(u64),
}

/// The shared UI state the loop owns. Components never mutate it directly;
/// all mutation funnels through [`apply_action`], on the single control unit
/// of execution.
#[derive(Debug)]
pub struct AppState {
    /// The active popup, if any, replaced wholesale by a `SetPopup` action.
    pub popup: Option<Popup>,
    /// Whether a refresh of the active view has been requested this tick.
    /// The driver consumes and clears it.
    pub refresh_requested: bool,
    /// When user activity was last seen. No-op events never touch it.
    pub last_activity_ms: u64,
}

impl AppState {
    /// The initial state: no popup, no pending refresh, no activity seen.
    pub fn new() -> (s: AppState)
        ensures
            s.popup is None,
            s.refresh_requested == false,
            s.last_activity_ms == 0,
    {
        AppState { popup: None, refresh_requested: false, last_activity_ms: 0 }
    }

    /// The adaptive wait for the next loop iteration: unbounded with no
    /// popup, exactly [`POPUP_WAIT_MS`] with one, so an active popup still
    /// animates while an idle interface costs nothing.
    pub fn wait_policy(&self) -> (r: WaitPolicy)
        ensures
            self.popup is None ==> r is WaitForEvent,
            self.popup is Some ==> r == WaitPolicy::WaitMillis(POPUP_WAIT_MS),
    {
        if self.popup.is_none() {
            WaitPolicy::WaitForEvent
        } else {
            WaitPolicy::WaitMillis(POPUP_WAIT_MS)
        }
    }
}

/// What one action, applied to one state, leaves behind.
pub open spec fn spec_apply_action(s: AppState, a: Action) -> AppState
    decreases a,
{
    match a {
        Action::SetPopup(p) => AppState { popup: p, ..s },
        Action::RefreshTab => AppState { refresh_requested: true, ..s },
        Action::Multiple(batch) => spec_apply_batch(s, batch@),
    }
}

/// What a batch of actions, applied strictly in order, leaves behind: each
/// action sees the state the previous one left.
pub open spec fn spec_apply_batch(s: AppState, batch: Seq<Action>) -> AppState
    decreases batch,
{
    if batch.len() == 0 {
        s
    } else {
        spec_apply_batch(spec_apply_action(s, batch[0]), batch.subrange(1, batch.len() as int))
    }
}

/// Apply one action to the shared UI state. Batches apply in list order.
pub fn apply_action(state: &mut AppState, action: Action)
    ensures
        *final(state) == spec_apply_action(*old(state), action),
    decreases action,
{
    match action {
        Action::SetPopup(p) => {
            state.popup = p;
        },
        Action::RefreshTab => {
            state.refresh_requested = true;
        },
        Action::Multiple(batch) => {
            apply_batch(state, batch);
        },
    }
}

/// Apply a batch of actions in order.
pub fn apply_batch(state: &mut AppState, batch: Vec<Action>)
    ensures
        *final(state) == spec_apply_batch(*old(state), batch@),
    decreases batch@,
{
    let mut rest = batch;
    if rest.len() > 0 {
        let ghost orig = rest@;
        let first = rest.remove(0);
        proof {
            assert(rest@ =~= orig.subrange(1, orig.len() as int));
        }
        apply_action(state, first);
        apply_batch(state, rest);
    }
}

/// Where an input event went.
#[derive(Debug)]
pub enum EventDisposition {
    /// A no-op event: dropped before reaching any component, with the state
    /// (the activity timer included) untouched.
    Ignored,
    /// A loader popup is active: the event was handed to it and swallowed,
    /// producing no action.
    Swallowed,
    /// The event counts as activity and is the caller's to dispatch to the
    /// active component tree (message popups, screens).
    Dispatch,
}

/// Route one input event.
///
/// Pure focus-lost notifications and button-less mouse moves are dropped:
/// they reach no component and do not count as activity. Anything else marks
/// activity now; while a loader popup is active it is handed the event,
/// which it swallows without an action.
pub fn process_event(state: &mut AppState, now_ms: u64, event: &TermEvent) -> (r:
    EventDisposition)
    ensures
        is_noop_event(*event) ==> r is Ignored && *final(state) == *old(state),
        !is_noop_event(*event) ==> {
            &&& final(state).last_activity_ms == now_ms
            &&& final(state).refresh_requested == old(state).refresh_requested
            &&& final(state).popup == old(state).popup
            &&& (old(state).popup matches Some(Popup::Loader(_)) <==> r is Swallowed)
            &&& (!(old(state).popup matches Some(Popup::Loader(_))) <==> r is Dispatch)
        },
{
    match event {
        TermEvent::FocusLost => EventDisposition::Ignored,
        TermEvent::MouseMove => EventDisposition::Ignored,
        _ => {
            state.last_activity_ms = now_ms;
            match &mut state.popup {
                Some(Popup::Loader(l)) => {
                    let _ = l.input(event);
                    EventDisposition::Swallowed
                },
                _ => EventDisposition::Dispatch,
            }
        },
    }
}

/// The loader a popup's animation step leaves behind.
pub open spec fn spec_advanced_loader(l: LoaderPopup, now_ms: u64) -> LoaderPopup {
    if spec_animation_due(l.last_anim_ms, now_ms) {
        LoaderPopup { anim_phase: spec_next_phase(l.anim_phase), last_anim_ms: now_ms, ..l }
    } else {
        l
    }
}

/// One update tick of the active component tree, as far as the library owns
/// it: if a loader popup is active, update it with what the channel poll
/// observed and apply whatever action it produced, in order, to the shared
/// state.
///
/// With no loader active nothing changes. While the operation still runs the
/// loader only animates. A non-empty success output replaces the loader with
/// its titled message popup and requests a refresh; an empty one clears the
/// popup and requests a refresh; a failure replaces the loader with its
/// titled error popup and requests none. A channel that closed without ever
/// delivering is reported as the defect it is.
pub fn tick_update(state: &mut AppState, now_ms: u64, poll: PollStatus) -> (r: Result<
    (),
    InternalError,
>)
    requires
        (old(state).popup matches Some(Popup::Loader(l)) ==> l.last_anim_ms <= now_ms),
    ensures
        !(old(state).popup matches Some(Popup::Loader(_))) ==> r is Ok && *final(state) == *old(
            state,
        ),
        (old(state).popup matches Some(Popup::Loader(l)) ==> {
            &&& final(state).last_activity_ms == old(state).last_activity_ms
            &&& (poll is Pending ==> r is Ok && final(state).popup == Some(
                Popup::Loader(spec_advanced_loader(l, now_ms)),
            ) && final(state).refresh_requested == old(state).refresh_requested)
            &&& (poll is Disconnected ==> r == Err::<(), InternalError>(
                InternalError::ChannelClosed,
            ) && final(state).popup == Some(Popup::Loader(spec_advanced_loader(l, now_ms)))
                && final(state).refresh_requested == old(state).refresh_requested)
            &&& (poll matches PollStatus::Ready(outcome) ==> r is Ok && match outcome {
                Outcome::Success(output) => if output@.len() > 0 {
                    &&& (final(state).popup matches Some(Popup::Message(m)) && m.title@
                        == spec_message_title(l.operation_name@) && m.body@ == output@)
                    &&& final(state).refresh_requested == true
                } else {
                    &&& final(state).popup is None
                    &&& final(state).refresh_requested == true
                },
                Outcome::Failure(err) => {
                    &&& (final(state).popup matches Some(Popup::Message(m)) && m.title@
                        == spec_error_title(l.operation_name@) && m.body@ == spec_error_message(
                        err,
                    ))
                    &&& final(state).refresh_requested == old(state).refresh_requested
                },
            })
        }),
{
    let popup = state.popup.take();
    match popup {
        Some(Popup::Loader(mut l)) => {
            let res = l.update(now_ms, poll);
            state.popup = Some(Popup::Loader(l));
            match res {
                Ok(None) => Ok(()),
                Ok(Some(action)) => {
                    let ghost mid = *state;
                    let ghost ga = action;
                    apply_action(state, action);
                    proof {
                        match ga {
                            Action::Multiple(b) => {
                                let bs = b@;
                                if bs.len() == 2 {
                                    let s1 = spec_apply_action(mid, bs[0]);
                                    assert(spec_apply_batch(mid, bs) == spec_apply_batch(
                                        s1,
                                        bs.subrange(1, 2),
                                    ));
                                    assert(bs.subrange(1, 2)[0] == bs[1]);
                                    let s2 = spec_apply_action(s1, bs[1]);
                                    assert(spec_apply_batch(s1, bs.subrange(1, 2))
                                        == spec_apply_batch(
                                        s2,
                                        bs.subrange(1, 2).subrange(1, 1),
                                    ));
                                    assert(bs.subrange(1, 2).subrange(1, 1).len() == 0);
                                }
                            },
                            _ => {},
                        }
                    }
                    Ok(())
                },
                Err(e) => Err(e),
            }
        },
        other => {
            state.popup = other;
            Ok(())
        },
    }
}

} // verus!
