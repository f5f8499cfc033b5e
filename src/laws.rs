use vstd::prelude::*;

use crate::delivery::await_change;
use crate::events::SnapshotView;
use crate::player::{
    change_media_view, elapsed, in_sync, pause_view, saturate, seek_view, snapshot_at,
    timestamp_at, unpause_view, ClockView,
};

verus! {

/// A second pause changes nothing: time played is counted once.
pub proof fn pause_is_idempotent(c: ClockView, t1: nat, t2: nat)
    ensures
        pause_view(pause_view(c, t1), t2) == pause_view(c, t1),
{
}

/// A second unpause changes nothing: the anchor of the first one stays.
pub proof fn unpause_is_idempotent(c: ClockView, t1: nat, t2: nat)
    ensures
        unpause_view(unpause_view(c, t1), t2) == unpause_view(c, t1),
{
}

/// Pausing a playing clock at `t1` and again at `t2` adds the time played
/// up to `t1` once, and publishes one snapshot over both calls.
pub proof fn pausing_twice_adds_played_time_once(c: ClockView, t1: nat, t2: nat)
    requires
        c.playing,
        c.anchor <= t1,
        c.offset + (t1 - c.anchor) <= u64::MAX,
    ensures
        !pause_view(pause_view(c, t1), t2).playing,
        pause_view(pause_view(c, t1), t2).offset == c.offset + (t1 - c.anchor),
        pause_view(pause_view(c, t1), t2).published.len() == c.published.len() + 1,
{
}

/// Unpausing a paused clock at `t1` and again at `t2` starts it once: time
/// counts from `t1`, the offset is kept, and one snapshot is published.
pub proof fn unpausing_twice_starts_once(c: ClockView, t1: nat, t2: nat, t: nat)
    requires
        !c.playing,
        t1 <= t2 <= t,
        c.offset + (t - t1) <= u64::MAX,
    ensures
        unpause_view(unpause_view(c, t1), t2).playing,
        unpause_view(unpause_view(c, t1), t2).anchor == t1,
        unpause_view(unpause_view(c, t1), t2).offset == c.offset,
        unpause_view(unpause_view(c, t1), t2).published.len() == c.published.len() + 1,
        timestamp_at(unpause_view(unpause_view(c, t1), t2), t) == c.offset + (t - t1),
{
}

/// Unpausing a paused clock at `t0` and pausing it at `t0 + d` leaves it
/// paused with `d` added to the position it had (capped at the largest
/// representable position).
pub proof fn play_interval_adds_its_length(c: ClockView, t0: nat, d: nat, later: nat)
    requires
        !c.playing,
    ensures
        !pause_view(unpause_view(c, t0), t0 + d).playing,
        timestamp_at(pause_view(unpause_view(c, t0), t0 + d), later) == saturate(c.offset + d),
        c.offset + d <= u64::MAX ==> timestamp_at(pause_view(unpause_view(c, t0), t0 + d), later)
            == c.offset + d,
{
    assert(elapsed(t0, t0 + d) == d);
}

/// A seek while paused sets the position and stays paused.
pub proof fn seek_while_paused_holds_position(c: ClockView, target: nat, now: nat, later: nat)
    requires
        !c.playing,
    ensures
        !seek_view(c, target, now).playing,
        timestamp_at(seek_view(c, target, now), later) == target,
{
}

/// A seek while playing reads the target at once and keeps counting from it.
pub proof fn seek_while_playing_counts_from_target(
    c: ClockView,
    target: nat,
    now: nat,
    t1: nat,
    t2: nat,
)
    requires
        c.playing,
        target <= u64::MAX,
        now <= t1 <= t2,
    ensures
        seek_view(c, target, now).playing,
        timestamp_at(seek_view(c, target, now), now) == target,
        timestamp_at(seek_view(c, target, now), t1) == saturate((target + t1 - now) as nat),
        timestamp_at(seek_view(c, target, now), t1) <= timestamp_at(seek_view(c, target, now), t2),
        target <= timestamp_at(seek_view(c, target, now), t1),
        target + (t1 - now) <= u64::MAX ==> timestamp_at(seek_view(c, target, now), t1) == target + (
        t1 - now),
{
}

/// Changing media from any state leaves it paused at zero on the new media,
/// and the snapshot published says so.
pub proof fn change_media_resets(c: ClockView, media: Seq<char>, later: nat)
    ensures
        !change_media_view(c, media).playing,
        change_media_view(c, media).offset == 0,
        change_media_view(c, media).media == media,
        timestamp_at(change_media_view(c, media), later) == 0,
        change_media_view(c, media).published.last() == (0nat, false, media),
{
}

/// Pausing and unpausing never move the position back.
pub proof fn transitions_keep_offset_monotone(c: ClockView, now: nat)
    requires
        c.offset <= u64::MAX,
    ensures
        pause_view(c, now).offset >= c.offset,
        unpause_view(c, now).offset == c.offset,
{
}

/// With no mutation since, the value that an observer's heartbeat reads is
/// the engine's own state at its anchor; while paused, it is exactly the
/// engine's position, phase and media, at whatever time it is read.
pub proof fn heartbeat_carries_engine_state(c: ClockView, later: nat)
    requires
        in_sync(c),
    ensures
        c.published.last() == snapshot_at(c, c.anchor),
        !c.playing ==> c.published.last() == snapshot_at(c, later),
        !c.playing ==> c.published.last() == (c.offset, false, c.media),
{
}

/// One call of the engine's mutation interface.
pub enum Mutation {
    Pause { now: nat },
    Unpause { now: nat },
    Seek { target: nat, now: nat },
    ChangeMedia { media: Seq<char> },
}

pub open spec fn apply(c: ClockView, m: Mutation) -> ClockView {
    match m {
        Mutation::Pause { now } => pause_view(c, now),
        Mutation::Unpause { now } => unpause_view(c, now),
        Mutation::Seek { target, now } => seek_view(c, target, now),
        Mutation::ChangeMedia { media } => change_media_view(c, media),
    }
}

/// Whether `m` changes the state of `c` (and so publishes a snapshot).
pub open spec fn takes_effect(c: ClockView, m: Mutation) -> bool {
    match m {
        Mutation::Pause { .. } => c.playing,
        Mutation::Unpause { .. } => !c.playing,
        _ => true,
    }
}

/// The snapshot that `m`, applied to `c`, publishes.
pub open spec fn published_by(c: ClockView, m: Mutation) -> SnapshotView {
    match m {
        Mutation::Pause { now } => snapshot_at(apply(c, m), now),
        Mutation::Unpause { now } => snapshot_at(apply(c, m), now),
        Mutation::Seek { now, .. } => snapshot_at(apply(c, m), now),
        Mutation::ChangeMedia { .. } => snapshot_at(apply(c, m), 0),
    }
}

proof fn effective_mutation_publishes_once(c: ClockView, m: Mutation)
    requires
        takes_effect(c, m),
    ensures
        apply(c, m).published == c.published.push(published_by(c, m)),
{
}

/// Three mutations made before an observer waits again reach it as one
/// change carrying the final state; once it has read that, nothing of the
/// two before is left for it to see.
pub proof fn observer_sees_only_latest_of_three(c0: ClockView, m1: Mutation, m2: Mutation, m3: Mutation)
    requires
        takes_effect(c0, m1),
        takes_effect(apply(c0, m1), m2),
        takes_effect(apply(apply(c0, m1), m2), m3),
    ensures
        apply(apply(apply(c0, m1), m2), m3).published.len() == c0.published.len() + 3,
        await_change(apply(apply(apply(c0, m1), m2), m3).published, c0.published.len()) == Some(
            published_by(apply(apply(c0, m1), m2), m3),
        ),
        await_change(
            apply(apply(apply(c0, m1), m2), m3).published,
            apply(apply(apply(c0, m1), m2), m3).published.len(),
        ) == None::<SnapshotView>,
{
    let c1 = apply(c0, m1);
    let c2 = apply(c1, m2);
    effective_mutation_publishes_once(c0, m1);
    effective_mutation_publishes_once(c1, m2);
    effective_mutation_publishes_once(c2, m3);
}

} // verus!
