//! Core of a clipboard synchronisation service: a monotonically versioned
//! last-writer-wins register kept by an authority process, and the follower
//! logic that reconciles a local clipboard against it.
//!
//! The authority owns a [`sync_state::SyncState`]: a `{epoch, content}` pair
//! whose epoch advances by exactly one on every accepted write, fencing out
//! stale writers.  The follower runs a [`watcher::Watcher`] that filters
//! empty and duplicate clipboard reads, and an [`engine::Follower`] that
//! decides, tick by tick, whether the remote value wins, whether a local
//! change should be pushed, and how to keep an applied remote value from
//! echoing back.
//!
//! All I/O — the platform clipboard, the request/response channel, argument
//! and configuration parsing — lives outside this crate; the functions here
//! take the values those collaborators produced and return the values they
//! should send.

pub mod config;
pub mod engine;
pub mod error;
pub mod protocol;
pub mod sync_state;
pub mod watcher;
