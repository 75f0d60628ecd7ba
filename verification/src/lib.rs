//! Leader-election state machines, request handling and message framing for a small Raft node.

pub mod client;
pub mod codec;
pub mod election;
pub mod leader_state;
pub mod messages;
pub mod raft_log;
pub mod server;
pub mod state;
pub mod state_machine;
