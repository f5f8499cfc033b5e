use vstd::prelude::*;

verus! {

/// Playback phase of the shared clock.
#[derive(Clone, Copy, Debug, PartialEq, Eq, Structural)]
pub enum State {
    Playing,
    Paused,
}

impl State {
    pub open spec fn is_playing(self) -> bool {
        self is Playing
    }
}

/// Mathematical value of a snapshot: position in nanoseconds, whether the
/// clock is playing, and the media identifier.
pub type SnapshotView = (nat, bool, Seq<char>);

/// An immutable observation of the shared clock at one instant.
#[derive(Clone, Debug)]
pub struct LastPlayerState {
    /// Playback position in nanoseconds.
    pub ts_nanos: u64,
    pub state: State,
    pub media_url: String,
}

impl View for LastPlayerState {
    type V = SnapshotView;

    open spec fn view(&self) -> SnapshotView {
        (self.ts_nanos as nat, self.state.is_playing(), self.media_url@)
    }
}

pub const NANOS_PER_MILLI: u64 = 1_000_000;

/// The snapshot as it goes out on the wire.
#[derive(Clone, Debug)]
pub struct UpdateEvent {
    pub ts_millis: u64,
    pub state: State,
    pub media_url: String,
}

impl UpdateEvent {
    /// The wire form of a snapshot: the position in whole milliseconds.
    pub fn from_snapshot(s: &LastPlayerState) -> (r: UpdateEvent)
        ensures
            r.ts_millis == s.ts_nanos / NANOS_PER_MILLI,
            r.state == s.state,
            r.media_url@ == s.media_url@,
    {
        UpdateEvent {
            ts_millis: s.ts_nanos / NANOS_PER_MILLI,
            state: s.state,
            media_url: s.media_url.clone(),
        }
    }
}

/// Converts a position in milliseconds to nanoseconds.
pub fn nanos_from_millis(ms: u32) -> (r: u64)
    ensures
        r == ms as nat * NANOS_PER_MILLI as nat,
{
    assert(ms as nat * NANOS_PER_MILLI as nat <= u32::MAX as nat * 1_000_000) by (nonlinear_arith)
        requires ms <= u32::MAX;
    ms as u64 * NANOS_PER_MILLI
}

} // verus!
