//! Shared playback clock for a group of viewers: a stopwatch-style engine that
//! derives the playback position from phase transitions, publishes a snapshot
//! after every mutation, and a per-connection delivery state machine.
pub mod auth;
pub mod config;
pub mod cors;
pub mod delivery;
pub mod events;
pub mod laws;
pub mod player;
