use std::time::Instant;
use tokio::sync::watch::{Receiver, Sender};
use vstd::prelude::*;

use crate::delivery::await_change;
use crate::events::{LastPlayerState, SnapshotView, State};

verus! {

#[verifier::external_type_specification]
#[verifier::external_body]
pub struct ExInstant(std::time::Instant);

#[verifier::external_type_specification]
#[verifier::external_body]
#[verifier::reject_recursive_types(T)]
pub struct ExWatchSender<T>(tokio::sync::watch::Sender<T>);

#[verifier::external_type_specification]
#[verifier::external_body]
#[verifier::reject_recursive_types(T)]
pub struct ExWatchReceiver<T>(tokio::sync::watch::Receiver<T>);

/// The values that a latest-value channel has held, oldest first: the last one
/// is what receivers read now, and the length counts the versions.
pub uninterp spec fn watch_history(tx: Sender<LastPlayerState>) -> Seq<SnapshotView>;

/// Relies on tokio::sync::watch::channel: a new channel holds `init` as its
/// only value. The first receiver is dropped; observers subscribe later.
#[verifier::external_body]
fn open_channel(init: LastPlayerState) -> (r: Sender<LastPlayerState>)
    ensures
        watch_history(r) == seq![init@],
{
    tokio::sync::watch::channel(init).0
}

/// Relies on tokio::sync::watch::Sender::send_replace: the value is replaced
/// and the version advances, whether or not receivers exist.
#[verifier::external_body]
fn publish(tx: &mut Sender<LastPlayerState>, value: LastPlayerState)
    ensures
        watch_history(*final(tx)) == watch_history(*old(tx)).push(value@),
{
    tx.send_replace(value);
}

/// How many of the channel's versions a receiver has seen: it reports a
/// change while this is below the length of the channel's history.
pub uninterp spec fn seen_versions(rx: Receiver<LastPlayerState>) -> nat;

/// Relies on tokio::sync::watch::Sender::subscribe: the receiver starts at the
/// channel's current version, so it has already seen the current value.
#[verifier::external_body]
fn subscribe_to(tx: &Sender<LastPlayerState>) -> (r: Receiver<LastPlayerState>)
    ensures
        seen_versions(r) == watch_history(*tx).len(),
{
    tx.subscribe()
}

/// Relies on std::time::Instant::now: a reading of the monotonic clock.
#[verifier::external_body]
fn clock_start() -> Instant {
    Instant::now()
}

/// Relies on std::time::Instant::elapsed: the time passed on the monotonic
/// clock since `epoch`, in nanoseconds.
#[verifier::external_body]
fn nanos_since(epoch: &Instant) -> u64 {
    u64::try_from(epoch.elapsed().as_nanos()).unwrap_or(u64::MAX)
}

/// Mathematical state of the clock engine.
pub struct ClockView {
    pub playing: bool,
    /// Monotonic reading taken when playback last started; read only while playing.
    pub anchor: nat,
    /// Elapsed playback time as of the last transition, in nanoseconds.
    pub offset: nat,
    pub media: Seq<char>,
    /// Every snapshot published so far, oldest first.
    pub published: Seq<SnapshotView>,
}

pub open spec fn saturate(x: nat) -> nat {
    if x > u64::MAX {
        u64::MAX as nat
    } else {
        x
    }
}

/// Time from `anchor` to `now`; a reading before the anchor counts as none.
pub open spec fn elapsed(anchor: nat, now: nat) -> nat {
    if now >= anchor {
        (now - anchor) as nat
    } else {
        0
    }
}

/// Playback position at monotonic time `now`.
pub open spec fn timestamp_at(c: ClockView, now: nat) -> nat {
    if c.playing {
        saturate(c.offset + elapsed(c.anchor, now))
    } else {
        c.offset
    }
}

pub open spec fn snapshot_at(c: ClockView, now: nat) -> SnapshotView {
    (timestamp_at(c, now), c.playing, c.media)
}

/// `c` with the snapshot taken at `now` published.
pub open spec fn emit(c: ClockView, now: nat) -> ClockView {
    ClockView { published: c.published.push(snapshot_at(c, now)), ..c }
}

/// The last published snapshot is the engine's state read at its anchor:
/// while paused that is the position, media and phase themselves; while
/// playing, the position at the moment the anchor was taken.
pub open spec fn in_sync(c: ClockView) -> bool {
    c.published.len() > 0 && c.published.last() == snapshot_at(c, c.anchor)
}

pub open spec fn initial_view(anchor: nat) -> ClockView {
    ClockView {
        playing: false,
        anchor,
        offset: 0,
        media: Seq::empty(),
        published: seq![(0nat, false, Seq::<char>::empty())],
    }
}

pub open spec fn pause_view(c: ClockView, now: nat) -> ClockView {
    if !c.playing {
        c
    } else {
        emit(ClockView { playing: false, offset: saturate(c.offset + elapsed(c.anchor, now)), ..c }, now)
    }
}

pub open spec fn unpause_view(c: ClockView, now: nat) -> ClockView {
    if c.playing {
        c
    } else {
        emit(ClockView { playing: true, anchor: now, ..c }, now)
    }
}

pub open spec fn seek_view(c: ClockView, target: nat, now: nat) -> ClockView {
    emit(ClockView { offset: target, anchor: now, ..c }, now)
}

pub open spec fn change_media_view(c: ClockView, media: Seq<char>) -> ClockView {
    emit(ClockView { playing: false, offset: 0, media, ..c }, 0)
}

/// The authoritative playback clock. Positions and clock readings are in
/// nanoseconds; readings count from the engine's creation.
pub struct PlayerState {
    current_state: State,
    unpaused_at: u64,
    media_url: String,
    start_offset: u64,
    epoch: Instant,
    evt_send: Sender<LastPlayerState>,
}

impl View for PlayerState {
    type V = ClockView;

    closed spec fn view(&self) -> ClockView {
        ClockView {
            playing: self.current_state.is_playing(),
            anchor: self.unpaused_at as nat,
            offset: self.start_offset as nat,
            media: self.media_url@,
            published: watch_history(self.evt_send),
        }
    }
}

impl PlayerState {
    /// A paused engine at position zero with no media; its first published
    /// snapshot says so.
    pub fn new() -> (r: PlayerState)
        ensures
            r@ == initial_view(0),
            in_sync(r@),
    {
        let init = LastPlayerState { ts_nanos: 0, state: State::Paused, media_url: String::new() };
        let r = PlayerState {
            current_state: State::Paused,
            unpaused_at: 0,
            media_url: String::new(),
            start_offset: 0,
            epoch: clock_start(),
            evt_send: open_channel(init),
        };
        assert(r@ =~= initial_view(0));
        r
    }

    /// Positions and clock readings of an engine fit in 64 bits.
    pub proof fn fits_in_u64(&self)
        ensures
            self@.offset <= u64::MAX,
            self@.anchor <= u64::MAX,
    {
    }

    /// Monotonic time now, in nanoseconds since the engine was created.
    fn now(&self) -> u64 {
        nanos_since(&self.epoch)
    }

    fn elapsed_since_unpause(&self, now: u64) -> (r: u64)
        ensures
            r == elapsed(self.unpaused_at as nat, now as nat),
    {
        if now >= self.unpaused_at {
            now - self.unpaused_at
        } else {
            0
        }
    }

    /// Playback position at monotonic time `now`.
    pub fn current_timestamp_at(&self, now: u64) -> (r: u64)
        ensures
            r == timestamp_at(self@, now as nat),
    {
        match self.current_state {
            State::Playing => self.start_offset.saturating_add(self.elapsed_since_unpause(now)),
            State::Paused => self.start_offset,
        }
    }

    /// Playback position now: the offset while paused, at least the offset
    /// while playing.
    pub fn get_current_timestamp(&self) -> (r: u64)
        ensures
            exists|now: nat| #[trigger] timestamp_at(self@, now) == r,
            !self@.playing ==> r == self@.offset,
            self@.playing ==> r >= self@.offset,
    {
        let now = self.now();
        self.current_timestamp_at(now)
    }

    /// The snapshot at monotonic time `now`; the state is not changed.
    pub fn current_state_at(&self, now: u64) -> (r: LastPlayerState)
        ensures
            r@ == snapshot_at(self@, now as nat),
    {
        LastPlayerState {
            ts_nanos: self.current_timestamp_at(now),
            state: self.current_state,
            media_url: self.media_url.clone(),
        }
    }

    /// The snapshot now.
    pub fn current_state(&self) -> (r: LastPlayerState)
        ensures
            exists|now: nat| #[trigger] snapshot_at(self@, now) == r@,
            r@.1 == self@.playing,
            r@.2 == self@.media,
            !self@.playing ==> r@.0 == self@.offset,
            self@.playing ==> r@.0 >= self@.offset,
    {
        let now = self.now();
        self.current_state_at(now)
    }

    fn send_status_update(&mut self, now: u64)
        ensures
            final(self)@ == emit(old(self)@, now as nat),
    {
        let snapshot = self.current_state_at(now);
        publish(&mut self.evt_send, snapshot);
        assert(self@ =~= emit(old(self)@, now as nat));
    }

    /// Pauses at monotonic time `now`, adding the time played since the last
    /// unpause to the offset. Does nothing while paused.
    pub fn pause_at(&mut self, now: u64)
        ensures
            final(self)@ == pause_view(old(self)@, now as nat),
            in_sync(old(self)@) ==> in_sync(final(self)@),
    {
        if matches!(self.current_state, State::Paused) {
            return;
        }
        let played = self.elapsed_since_unpause(now);
        self.current_state = State::Paused;
        self.start_offset = self.start_offset.saturating_add(played);
        self.send_status_update(now);
        assert(self@ =~= pause_view(old(self)@, now as nat));
    }

    /// Pauses now.
    pub fn pause(&mut self)
        ensures
            exists|now: nat| #[trigger] pause_view(old(self)@, now) == final(self)@,
            in_sync(old(self)@) ==> in_sync(final(self)@),
    {
        let now = self.now();
        self.pause_at(now);
    }

    /// Starts playing at monotonic time `now`. Does nothing while playing.
    pub fn unpause_at(&mut self, now: u64)
        ensures
            final(self)@ == unpause_view(old(self)@, now as nat),
            in_sync(old(self)@) ==> in_sync(final(self)@),
    {
        if matches!(self.current_state, State::Playing) {
            return;
        }
        self.current_state = State::Playing;
        self.unpaused_at = now;
        self.send_status_update(now);
        assert(self@ =~= unpause_view(old(self)@, now as nat));
    }

    /// Starts playing now.
    pub fn unpause(&mut self)
        ensures
            exists|now: nat| #[trigger] unpause_view(old(self)@, now) == final(self)@,
            in_sync(old(self)@) ==> in_sync(final(self)@),
    {
        let now = self.now();
        self.unpause_at(now);
    }

    /// Moves the position to `target_nanos` at monotonic time `now`; the
    /// phase is kept.
    pub fn seek_at(&mut self, target_nanos: u64, now: u64)
        ensures
            final(self)@ == seek_view(old(self)@, target_nanos as nat, now as nat),
            in_sync(old(self)@) ==> in_sync(final(self)@),
    {
        self.unpaused_at = now;
        self.start_offset = target_nanos;
        self.send_status_update(now);
        assert(self@ =~= seek_view(old(self)@, target_nanos as nat, now as nat));
    }

    /// Moves the position to `target_nanos` now.
    pub fn seek(&mut self, target_nanos: u64)
        ensures
            exists|now: nat| #[trigger] seek_view(old(self)@, target_nanos as nat, now) == final(self)@,
            in_sync(old(self)@) ==> in_sync(final(self)@),
    {
        let now = self.now();
        self.seek_at(target_nanos, now);
    }

    /// Loads other media: paused at position zero.
    pub fn change_media(&mut self, new_url: String)
        ensures
            final(self)@ == change_media_view(old(self)@, new_url@),
            in_sync(old(self)@) ==> in_sync(final(self)@),
    {
        self.current_state = State::Paused;
        self.media_url = new_url;
        self.start_offset = 0;
        // paused, so the clock reading does not enter the snapshot
        self.send_status_update(0);
        assert(self@ =~= change_media_view(old(self)@, new_url@));
    }

    /// An observer of the published snapshots, which has seen the current one:
    /// it reports a change only after the next publish.
    pub fn subscribe(&self) -> (r: Receiver<LastPlayerState>)
        ensures
            seen_versions(r) == self@.published.len(),
            await_change(self@.published, seen_versions(r)) is None,
    {
        subscribe_to(&self.evt_send)
    }
}

} // verus!
