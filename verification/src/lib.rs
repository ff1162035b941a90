//! Decision core of a gatekeeper for an on-demand game server.
//!
//! The gatekeeper answers a game client's discovery/login handshake while the
//! real server process may not exist yet, decides from compute-instance state
//! plus a live protocol ping whether the backing instance is off, booting,
//! running, or draining, and triggers start/stop of that instance based on
//! player activity.
//!
//! This crate holds the decision engine alone: pure functions from observed
//! values (compute lifecycle state, ping outcomes, client messages, tick
//! counters) to statuses, replies, and commands. The surrounding process —
//! sockets, the cloud SDK, the scheduler — feeds observations in and carries
//! the decisions out.

pub mod protocol;
pub mod resolver;
pub mod status;
pub mod watcher;
