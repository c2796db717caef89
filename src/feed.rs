//! The event feed's connection loop as a state machine. The driver performs
//! each action and reports what happened; the machine decides what comes next.

use vstd::prelude::*;

verus! {

/// Wait before another connection attempt after a failed one, in milliseconds.
pub const RECONNECT_DELAY_MS: u64 = 5000;

#[derive(Debug, Clone, Copy, PartialEq, Eq)]
pub enum FeedState {
    /// A connection attempt is under way.
    Connecting,
    /// The last attempt failed; waiting out the delay.
    Waiting,
    /// Connected; reading frames.
    Streaming,
}

#[derive(Debug, Clone, Copy, PartialEq, Eq)]
pub enum FeedEvent {
    Connected,
    ConnectFailed,
    DelayElapsed,
    /// A frame was read and decoded (of any event kind).
    FrameRead,
    /// A frame was read but was not text or did not decode; it is dropped.
    FrameDropped,
    /// The stream ended or a read failed.
    StreamLost,
}

#[derive(Debug, Clone, Copy, PartialEq, Eq)]
pub enum FeedAction {
    Connect,
    Sleep(u64),
    ReadNext,
}

/// The next state and action after `e` happened in state `s`. Events that do
/// not belong to `s` leave it as it is and repeat its action.
pub open spec fn feed_next(s: FeedState, e: FeedEvent) -> (FeedState, FeedAction) {
    match (s, e) {
        (FeedState::Connecting, FeedEvent::Connected) => (FeedState::Streaming, FeedAction::ReadNext),
        (FeedState::Connecting, FeedEvent::ConnectFailed) => (FeedState::Waiting, FeedAction::Sleep(RECONNECT_DELAY_MS)),
        (FeedState::Waiting, FeedEvent::DelayElapsed) => (FeedState::Connecting, FeedAction::Connect),
        (FeedState::Streaming, FeedEvent::FrameRead) => (FeedState::Streaming, FeedAction::ReadNext),
        (FeedState::Streaming, FeedEvent::FrameDropped) => (FeedState::Streaming, FeedAction::ReadNext),
        (FeedState::Streaming, FeedEvent::StreamLost) => (FeedState::Connecting, FeedAction::Connect),
        (FeedState::Connecting, _) => (FeedState::Connecting, FeedAction::Connect),
        (FeedState::Waiting, _) => (FeedState::Waiting, FeedAction::Sleep(RECONNECT_DELAY_MS)),
        (FeedState::Streaming, _) => (FeedState::Streaming, FeedAction::ReadNext),
    }
}

/// The state the loop starts in, and its first action.
pub fn feed_start() -> (r: (FeedState, FeedAction))
    ensures
        r == (FeedState::Connecting, FeedAction::Connect),
{
    (FeedState::Connecting, FeedAction::Connect)
}

pub fn feed_step(s: FeedState, e: FeedEvent) -> (r: (FeedState, FeedAction))
    ensures
        r == feed_next(s, e),
{
    match (s, e) {
        (FeedState::Connecting, FeedEvent::Connected) => (FeedState::Streaming, FeedAction::ReadNext),
        (FeedState::Connecting, FeedEvent::ConnectFailed) => (FeedState::Waiting, FeedAction::Sleep(RECONNECT_DELAY_MS)),
        (FeedState::Waiting, FeedEvent::DelayElapsed) => (FeedState::Connecting, FeedAction::Connect),
        (FeedState::Streaming, FeedEvent::FrameRead) => (FeedState::Streaming, FeedAction::ReadNext),
        (FeedState::Streaming, FeedEvent::FrameDropped) => (FeedState::Streaming, FeedAction::ReadNext),
        (FeedState::Streaming, FeedEvent::StreamLost) => (FeedState::Connecting, FeedAction::Connect),
        (FeedState::Connecting, _) => (FeedState::Connecting, FeedAction::Connect),
        (FeedState::Waiting, _) => (FeedState::Waiting, FeedAction::Sleep(RECONNECT_DELAY_MS)),
        (FeedState::Streaming, _) => (FeedState::Streaming, FeedAction::ReadNext),
    }
}

/// The feed never gives up: a lost stream or a failed attempt leads back to a
/// connection attempt, after the fixed delay when the attempt itself failed,
/// and a successful attempt resumes reading. A frame that cannot be decoded
/// is dropped and reading goes on over the same connection.
pub proof fn lemma_feed_recovers(s: FeedState)
    ensures
        s == FeedState::Streaming ==> feed_next(s, FeedEvent::StreamLost) == (FeedState::Connecting, FeedAction::Connect),
        s == FeedState::Streaming ==> feed_next(s, FeedEvent::FrameDropped) == (FeedState::Streaming, FeedAction::ReadNext),
        s == FeedState::Connecting ==> {
            &&& feed_next(s, FeedEvent::ConnectFailed) == (FeedState::Waiting, FeedAction::Sleep(RECONNECT_DELAY_MS))
            &&& feed_next(FeedState::Waiting, FeedEvent::DelayElapsed) == (FeedState::Connecting, FeedAction::Connect)
            &&& feed_next(s, FeedEvent::Connected) == (FeedState::Streaming, FeedAction::ReadNext)
        },
        forall|e: FeedEvent| #[trigger] feed_next(s, e).1 is Sleep ==> feed_next(s, e).1 == FeedAction::Sleep(RECONNECT_DELAY_MS),
{
}

} // verus!
