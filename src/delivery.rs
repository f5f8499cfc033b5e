use vstd::prelude::*;

use crate::events::SnapshotView;

verus! {

/// How long an observer waits for a change before it sends the current
/// snapshot anyway, so that idle connections stay open.
pub const HEARTBEAT_MILLIS: u64 = 5000;

/// Phase of one observer's delivery loop.
#[derive(Clone, Copy, Debug, PartialEq, Eq, Structural)]
pub enum LoopState {
    /// Subscribed; the first snapshot, read from the engine, is on its way.
    Init,
    /// Waiting for changes and heartbeats.
    Streaming,
    /// Finished; the observer handle is released.
    Terminated,
}

/// What the loop's driver reports back.
#[derive(Clone, Copy, Debug, PartialEq, Eq, Structural)]
pub enum LoopEvent {
    /// The published value changed since the observer last read it.
    Changed,
    /// The heartbeat interval passed without a change.
    TimedOut,
    /// The channel was torn down.
    Closed,
    /// The last snapshot reached the remote end.
    Delivered,
    /// The remote end is gone.
    DeliveryFailed,
}

/// What the driver does next.
#[derive(Clone, Copy, Debug, PartialEq, Eq, Structural)]
pub enum LoopAction {
    /// Read the snapshot from the engine itself and send it.
    SendFromEngine,
    /// Read the observer's current value, mark it seen, and send it.
    SendLatest,
    /// Wait for a change, at most `HEARTBEAT_MILLIS`.
    AwaitChange,
    /// Release the observer handle and stop.
    Stop,
}

pub open spec fn step_spec(s: LoopState, e: LoopEvent) -> (LoopState, LoopAction) {
    match s {
        LoopState::Init => match e {
            LoopEvent::Delivered => (LoopState::Streaming, LoopAction::AwaitChange),
            LoopEvent::Changed | LoopEvent::TimedOut => (LoopState::Init, LoopAction::SendFromEngine),
            _ => (LoopState::Terminated, LoopAction::Stop),
        },
        LoopState::Streaming => match e {
            LoopEvent::Changed | LoopEvent::TimedOut => (LoopState::Streaming, LoopAction::SendLatest),
            LoopEvent::Delivered => (LoopState::Streaming, LoopAction::AwaitChange),
            _ => (LoopState::Terminated, LoopAction::Stop),
        },
        LoopState::Terminated => (LoopState::Terminated, LoopAction::Stop),
    }
}

/// The loop's first state and action, once subscribed: the first message
/// comes from the engine, so it holds even if nothing was published yet.
pub fn start() -> (r: (LoopState, LoopAction))
    ensures
        r == (LoopState::Init, LoopAction::SendFromEngine),
{
    (LoopState::Init, LoopAction::SendFromEngine)
}

/// One transition of the delivery loop. A change and a heartbeat timeout
/// alike lead to exactly one send of the current value; closing the channel
/// or losing the remote end ends the loop, which never restarts.
pub fn step(s: LoopState, e: LoopEvent) -> (r: (LoopState, LoopAction))
    ensures
        r == step_spec(s, e),
        s == LoopState::Streaming && (e == LoopEvent::Changed || e == LoopEvent::TimedOut) ==> r == (
        LoopState::Streaming, LoopAction::SendLatest),
        e == LoopEvent::Closed || e == LoopEvent::DeliveryFailed ==> r == (
        LoopState::Terminated, LoopAction::Stop),
        s == LoopState::Terminated ==> r == (LoopState::Terminated, LoopAction::Stop),
        (r.1 == LoopAction::Stop) == (r.0 == LoopState::Terminated),
{
    match s {
        LoopState::Init => match e {
            LoopEvent::Delivered => (LoopState::Streaming, LoopAction::AwaitChange),
            LoopEvent::Changed | LoopEvent::TimedOut => (LoopState::Init, LoopAction::SendFromEngine),
            LoopEvent::Closed | LoopEvent::DeliveryFailed => (LoopState::Terminated, LoopAction::Stop),
        },
        LoopState::Streaming => match e {
            LoopEvent::Changed | LoopEvent::TimedOut => (LoopState::Streaming, LoopAction::SendLatest),
            LoopEvent::Delivered => (LoopState::Streaming, LoopAction::AwaitChange),
            LoopEvent::Closed | LoopEvent::DeliveryFailed => (LoopState::Terminated, LoopAction::Stop),
        },
        LoopState::Terminated => (LoopState::Terminated, LoopAction::Stop),
    }
}

/// What an observer that has seen the first `seen` published values gets when
/// it waits for a change: the newest value if any came after, else nothing.
/// Values published in between are skipped.
pub open spec fn await_change(published: Seq<SnapshotView>, seen: nat) -> Option<SnapshotView> {
    if seen < published.len() {
        Some(published.last())
    } else {
        None
    }
}

} // verus!
