//! The transient loader popup: shown while one external operation runs in
//! the background, it animates at a fixed wall-clock cadence, polls for the
//! operation's single outcome, and turns that outcome into the follow-up UI
//! action.

use vstd::prelude::*;

use crate::channel::PollStatus;
use crate::component::{Action, ComponentInputResult, MessagePopup, Popup, TermEvent};
use crate::geometry::{centered_rect_fixed, inner_rect, spec_centered_rect, spec_inner_rect,
    spec_rect_wf, Rect};
use crate::outcome::{spec_error_message, InternalError, Outcome};

verus! {

/// How much wall-clock time must pass between two animation steps,
/// regardless of how often the popup is updated or redrawn.
pub const ANIMATION_INTERVAL_MS: u64 = 100;

/// The animation phase after one step. The phase is a plain counter; the
/// renderer maps it onto its frames.
pub open spec fn spec_next_phase(phase: u64) -> u64 {
    if phase == u64::MAX {
        0
    } else {
        (phase + 1) as u64
    }
}

/// Whether an animation step is due: at least the animation interval has
/// elapsed since the last step.
pub open spec fn spec_animation_due(last_ms: u64, now_ms: u64) -> bool {
    now_ms - last_ms >= ANIMATION_INTERVAL_MS
}

/// The title of the message popup shown for an operation's non-empty
/// success output.
pub open spec fn spec_message_title(name: Seq<char>) -> Seq<char> {
    name + " message"@
}

/// The title of the error popup shown when an operation fails.
pub open spec fn spec_error_title(name: Seq<char>) -> Seq<char> {
    name + " error"@
}

/// The action is a two-element batch: first show the titled message popup,
/// then refresh the active view.
pub open spec fn spec_shows_message_then_refreshes(a: Action, title: Seq<char>, body: Seq<char>) -> bool {
    &&& a matches Action::Multiple(batch)
    &&& batch@.len() == 2
    &&& (batch@[0] matches Action::SetPopup(Some(Popup::Message(m))) && m.title@ == title
        && m.body@ == body)
    &&& batch@[1] is RefreshTab
}

/// The action is a two-element batch: first clear the popup, then refresh
/// the active view.
pub open spec fn spec_clears_then_refreshes(a: Action) -> bool {
    &&& a matches Action::Multiple(batch)
    &&& batch@.len() == 2
    &&& (batch@[0] matches Action::SetPopup(None))
    &&& batch@[1] is RefreshTab
}

/// The action replaces the popup with a titled error display, and nothing
/// else: no refresh is requested, since the state is presumed unchanged on
/// failure.
pub open spec fn spec_replaces_with_error(a: Action, title: Seq<char>, body: Seq<char>) -> bool {
    a matches Action::SetPopup(Some(Popup::Message(m))) && m.title@ == title && m.body@ == body
}

/// The text shown beside the progress indicator: the operation's name
/// trailed by an ellipsis.
pub open spec fn spec_loader_label(name: Seq<char>) -> Seq<char> {
    name + "..."@
}

/// The popup's outer width for a label of the given length: two cells for
/// the progress indicator and two for the border, capped at the terminal
/// coordinate range.
pub open spec fn spec_popup_width(label_len: nat) -> u16 {
    if label_len + 4 <= u16::MAX {
        (label_len + 4) as u16
    } else {
        u16::MAX
    }
}

/// Where the loader popup draws: its label, its bordered box, and the area
/// inside the border that the indicator and label occupy.
#[derive(Debug)]
pub struct LoaderLayout {
    pub label: String,
    pub popup_area: Rect,
    pub inner: Rect,
}

/// A transient popup shown during possibly time-consuming operations.
///
/// It holds the operation's human-readable name and the animation state: a
/// phase counter plus the time of its last advance. The operation's result
/// arrives through the one-shot channel owned by whoever drives the popup;
/// each update tick hands the popup what a non-blocking poll observed.
#[derive(Debug)]
pub struct LoaderPopup {
    pub operation_name: String,
    pub anim_phase: u64,
    pub last_anim_ms: u64,
}

impl LoaderPopup {
    /// Create a popup for the named operation, with the animation timer
    /// starting now.
    pub fn new(operation_name: String, now_ms: u64) -> (p: LoaderPopup)
        ensures
            p.operation_name == operation_name,
            p.anim_phase == 0,
            p.last_anim_ms == now_ms,
    {
        LoaderPopup { operation_name, anim_phase: 0, last_anim_ms: now_ms }
    }

    /// One update tick.
    ///
    /// First the animation advances, exactly when at least
    /// [`ANIMATION_INTERVAL_MS`] has elapsed since its last advance (which
    /// also resets the elapsed timer); the cadence is decoupled from how
    /// often this is called. Then the poll's observation is turned into the
    /// follow-up action: nothing while the operation still runs; for
    /// non-empty success output, show the titled message and refresh; for
    /// empty success output, clear the popup and refresh; for a failure,
    /// replace this popup with a titled error display and do not refresh. A
    /// channel that closed without ever delivering is a defect and is
    /// reported as such, not masked.
    ///
    /// The clock handed in is monotonic: it never runs behind the last
    /// animation advance.
    pub fn update(&mut self, now_ms: u64, poll: PollStatus) -> (r: Result<
        Option<Action>,
        InternalError,
    >)
        requires
            old(self).last_anim_ms <= now_ms,
        ensures
            final(self).operation_name == old(self).operation_name,
            final(self).anim_phase == if spec_animation_due(old(self).last_anim_ms, now_ms) {
                spec_next_phase(old(self).anim_phase)
            } else {
                old(self).anim_phase
            },
            final(self).last_anim_ms == if spec_animation_due(old(self).last_anim_ms, now_ms) {
                now_ms
            } else {
                old(self).last_anim_ms
            },
            poll is Pending ==> r matches Ok(None),
            poll is Disconnected ==> r == Err::<Option<Action>, InternalError>(
                InternalError::ChannelClosed,
            ),
            (poll matches PollStatus::Ready(outcome) ==> match outcome {
                Outcome::Success(output) => if output@.len() > 0 {
                    r matches Ok(Some(a)) && spec_shows_message_then_refreshes(
                        a,
                        spec_message_title(old(self).operation_name@),
                        output@,
                    )
                } else {
                    r matches Ok(Some(a)) && spec_clears_then_refreshes(a)
                },
                Outcome::Failure(err) => r matches Ok(Some(a)) && spec_replaces_with_error(
                    a,
                    spec_error_title(old(self).operation_name@),
                    spec_error_message(err),
                ),
            }),
    {
        if now_ms - self.last_anim_ms >= ANIMATION_INTERVAL_MS {
            self.anim_phase = if self.anim_phase == u64::MAX {
                0
            } else {
                self.anim_phase + 1
            };
            self.last_anim_ms = now_ms;
        }

        match poll {
            PollStatus::Pending => Ok(None),
            PollStatus::Disconnected => Err(InternalError::ChannelClosed),
            PollStatus::Ready(outcome) => {
                let action = match outcome {
                    Outcome::Success(output) => {
                        if output.as_str().is_empty() {
                            Action::Multiple(
                                vec![Action::SetPopup(None), Action::RefreshTab],
                            )
                        } else {
                            let title = self.operation_name.clone().concat(" message");
                            Action::Multiple(
                                vec![
                                    Action::SetPopup(
                                        Some(Popup::Message(MessagePopup { title, body: output })),
                                    ),
                                    Action::RefreshTab,
                                ],
                            )
                        }
                    },
                    Outcome::Failure(err) => {
                        let title = self.operation_name.clone().concat(" error");
                        let body = err.describe();
                        Action::SetPopup(Some(Popup::Message(MessagePopup { title, body })))
                    },
                };
                Ok(Some(action))
            },
        }
    }

    /// Where and how large the popup draws: a bordered box sized to fit the
    /// label — the operation's name trailed by an ellipsis, with room for
    /// the progress indicator — centered over the given area, shrunk only
    /// where the area itself is smaller.
    pub fn layout(&self, area: Rect) -> (r: LoaderLayout)
        requires
            spec_rect_wf(area),
        ensures
            r.label@ == spec_loader_label(self.operation_name@),
            r.popup_area == spec_centered_rect(
                area,
                spec_popup_width(spec_loader_label(self.operation_name@).len()),
                3,
            ),
            r.inner == spec_inner_rect(r.popup_area),
    {
        let label = self.operation_name.clone().concat("...");
        let len = label.as_str().unicode_len();
        let width: u16 = if len <= (u16::MAX - 4) as usize {
            (len as u16) + 4
        } else {
            u16::MAX
        };
        let popup_area = centered_rect_fixed(area, width, 3);
        let inner = inner_rect(&popup_area);
        LoaderLayout { label, popup_area, inner }
    }

    /// Process input while the operation runs: every event is swallowed and
    /// no action is produced. Operations cannot currently be cancelled by
    /// the user; this is a deliberate, documented limitation.
    pub fn input(&mut self, _event: &TermEvent) -> (r: ComponentInputResult)
        ensures
            r is Handled,
            *final(self) == *old(self),
    {
        ComponentInputResult::Handled
    }
}

} // verus!
