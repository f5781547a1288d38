//! Quorum voting on pin requests: per-request vote sessions, a concurrent
//! registry that expires them, a per-channel cooldown gate, and the decisions
//! that turn counted votes into exactly one pin action.

mod shared_map;
pub mod session;
pub mod registry;
pub mod gate;
pub mod coordinator;
