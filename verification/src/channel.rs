//! A one-shot operation channel: the single-producer/single-consumer link
//! between one background invocation and the popup that initiated it.
//!
//! The channel carries at most one [`Outcome`] over its whole life. The
//! sending side belongs to the background unit of execution, which either
//! sends its single result and closes the channel, or terminates abnormally
//! and closes it without ever sending. The receiving side polls without
//! blocking.

use vstd::prelude::*;

use crate::outcome::Outcome;

verus! {

/// The life of a one-shot channel, as seen from outside.
#[derive(Debug)]
pub enum ChannelState {
    /// The sender is alive and has sent nothing yet: the operation is still
    /// running.
    Open,
    /// The single message has been sent and is waiting to be received; the
    /// sender is gone.
    Sent(Outcome),
    /// The sender is gone and never sent anything: the background unit of
    /// execution terminated abnormally.
    Closed,
    /// The single message has been received. The receiver must not poll
    /// again.
    Drained,
}

/// What one non-blocking poll of the receiving end observed.
#[derive(Debug)]
pub enum PollStatus {
    /// No message yet: the operation is still running.
    Pending,
    /// The single message, delivered now and never again.
    Ready(Outcome),
    /// The channel closed without a message ever being sent.
    Disconnected,
}

/// A one-shot channel for exactly one operation outcome.
///
/// `try_receive` returns [`PollStatus::Pending`] on every call until the
/// sender completes, then returns [`PollStatus::Ready`] exactly once; after
/// that the channel is drained and must not be polled again (a
/// precondition).
#[derive(Debug)]
pub struct OneShotChannel {
    state: ChannelState,
}

impl OneShotChannel {
    /// The channel's current state. Callers reason about a channel solely
    /// through this and the methods' contracts.
    pub closed spec fn state(&self) -> ChannelState {
        self.state
    }

    /// Create a channel with its operation still running.
    pub fn new() -> (c: OneShotChannel)
        ensures
            c.state() is Open,
    {
        OneShotChannel { state: ChannelState::Open }
    }

    /// The sending side delivers the operation's single outcome and closes
    /// the channel. May happen at most once, and only while the channel is
    /// open.
    pub fn complete(&mut self, outcome: Outcome)
        requires
            old(self).state() is Open,
        ensures
            final(self).state() == ChannelState::Sent(outcome),
    {
        self.state = ChannelState::Sent(outcome);
    }

    /// The sending side goes away without ever sending: the background unit
    /// of execution terminated abnormally.
    pub fn abandon(&mut self)
        requires
            old(self).state() is Open,
        ensures
            final(self).state() is Closed,
    {
        self.state = ChannelState::Closed;
    }

    /// Poll for the outcome without blocking.
    ///
    /// While the operation is still running this observes nothing and
    /// changes nothing; once the single message has been sent, the first
    /// poll takes it and drains the channel. Polling a drained channel is
    /// forbidden: the message is delivered exactly once.
    pub fn try_receive(&mut self) -> (r: PollStatus)
        requires
            !(old(self).state() is Drained),
        ensures
            old(self).state() is Open ==> r is Pending && final(self).state() is Open,
            (old(self).state() matches ChannelState::Sent(outcome) ==> r
                == PollStatus::Ready(outcome) && final(self).state() is Drained),
            old(self).state() is Closed ==> r is Disconnected && final(self).state() is Closed,
    {
        let mut state = ChannelState::Drained;
        core::mem::swap(&mut self.state, &mut state);
        match state {
            ChannelState::Open => {
                self.state = ChannelState::Open;
                PollStatus::Pending
            },
            ChannelState::Sent(outcome) => PollStatus::Ready(outcome),
            ChannelState::Closed => {
                self.state = ChannelState::Closed;
                PollStatus::Disconnected
            },
            ChannelState::Drained => PollStatus::Disconnected,
        }
    }
}

} // verus!
