//! The loader popup: animation cadence, input swallowing, and the actions
//! produced for each kind of delivered outcome.

use blazingjj::channel::PollStatus;
use blazingjj::component::{Action, ComponentInputResult, Popup, TermEvent};
use blazingjj::loader::LoaderPopup;
use blazingjj::outcome::{CommandError, InternalError, Outcome};

#[test]
fn animation_does_not_advance_within_the_interval() {
    // Call update 50 times inside a 10ms window: the phase must not move.
    let mut popup = LoaderPopup::new(String::from("fetch"), 1000);
    for i in 0..50u64 {
        let now = 1000 + (i * 10) / 50;
        let r = popup.update(now, PollStatus::Pending);
        assert!(matches!(r, Ok(None)));
    }
    assert_eq!(popup.anim_phase, 0);
    assert_eq!(popup.last_anim_ms, 1000);
}

#[test]
fn animation_advances_once_after_the_interval_and_resets_the_timer() {
    let mut popup = LoaderPopup::new(String::from("fetch"), 1000);
    let r = popup.update(1150, PollStatus::Pending);
    assert!(matches!(r, Ok(None)));
    assert_eq!(popup.anim_phase, 1);
    assert_eq!(popup.last_anim_ms, 1150);
    // Exactly once: another call inside the new window does nothing.
    let r = popup.update(1200, PollStatus::Pending);
    assert!(matches!(r, Ok(None)));
    assert_eq!(popup.anim_phase, 1);
    assert_eq!(popup.last_anim_ms, 1150);
}

#[test]
fn animation_advances_at_exactly_the_interval_boundary() {
    let mut popup = LoaderPopup::new(String::from("fetch"), 0);
    popup.update(99, PollStatus::Pending).unwrap();
    assert_eq!(popup.anim_phase, 0);
    popup.update(100, PollStatus::Pending).unwrap();
    assert_eq!(popup.anim_phase, 1);
}

#[test]
fn running_popup_swallows_all_input_without_action() {
    let mut popup = LoaderPopup::new(String::from("push"), 0);
    let events = [
        TermEvent::Key('q'),
        TermEvent::Key('\n'),
        TermEvent::MouseDown,
        TermEvent::Resize(80, 24),
    ];
    for event in events.iter() {
        match popup.input(event) {
            ComponentInputResult::Handled => {}
            _ => panic!("input to a running popup must be handled with no action"),
        }
    }
}

#[test]
fn nonempty_success_shows_titled_message_and_refreshes() {
    let mut popup = LoaderPopup::new(String::from("git fetch"), 0);
    let r = popup.update(
        0,
        PollStatus::Ready(Outcome::Success(String::from("fetched 3 commits"))),
    );
    let action = r.expect("no defect").expect("an action is due");
    match action {
        Action::Multiple(batch) => {
            assert_eq!(batch.len(), 2);
            match &batch[0] {
                Action::SetPopup(Some(Popup::Message(m))) => {
                    assert_eq!(m.title, "git fetch message");
                    assert_eq!(m.body, "fetched 3 commits");
                }
                _ => panic!("first a message popup is set"),
            }
            assert!(matches!(batch[1], Action::RefreshTab));
        }
        _ => panic!("a batched action is due"),
    }
}

#[test]
fn empty_success_clears_popup_and_refreshes() {
    let mut popup = LoaderPopup::new(String::from("git fetch"), 0);
    let r = popup.update(0, PollStatus::Ready(Outcome::Success(String::new())));
    let action = r.expect("no defect").expect("an action is due");
    match action {
        Action::Multiple(batch) => {
            assert_eq!(batch.len(), 2);
            assert!(matches!(batch[0], Action::SetPopup(None)));
            assert!(matches!(batch[1], Action::RefreshTab));
        }
        _ => panic!("a batched action is due"),
    }
}

#[test]
fn failure_replaces_popup_with_error_and_no_refresh() {
    let mut popup = LoaderPopup::new(String::from("git push"), 0);
    let r = popup.update(
        0,
        PollStatus::Ready(Outcome::Failure(CommandError::ToolFailed {
            diagnostic: String::from("remote rejected"),
            exit_code: Some(1),
        })),
    );
    let action = r.expect("no defect").expect("an action is due");
    match action {
        Action::SetPopup(Some(Popup::Message(m))) => {
            assert_eq!(m.title, "git push error");
            assert_eq!(m.body, "remote rejected");
        }
        _ => panic!("only an error popup replacement is due, no refresh"),
    }
}

#[test]
fn disconnected_channel_is_a_defect() {
    let mut popup = LoaderPopup::new(String::from("op"), 0);
    let r = popup.update(0, PollStatus::Disconnected);
    assert!(matches!(r, Err(InternalError::ChannelClosed)));
}

#[test]
fn internal_error_has_a_message() {
    let msg = InternalError::ChannelClosed.describe();
    assert_eq!(msg, "operation ended without reporting a result");
}
