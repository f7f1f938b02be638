//! Supervisory core of an on-demand game-server proxy.
//!
//! Keeps a backing server process asleep until needed, starts it on demand,
//! tracks its liveness and activity, and decides when to put it back to
//! sleep or force-kill it.  This crate holds the lifecycle state machine,
//! the idle-sleep and kill-deadline policies, and the decision logic of the
//! process supervisor and of the layered shutdown strategy.  The
//! surrounding process, network and timer plumbing lives outside the
//! library and feeds it plain values: the current time in milliseconds, a
//! reduced status snapshot, a process exit outcome.

pub mod command;
pub mod config;
pub mod server;
