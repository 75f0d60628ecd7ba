//! The messages nodes exchange.

use vstd::prelude::*;

verus! {

/// A request from one node to another.
#[derive(PartialEq, Debug)]
pub enum RaftRequest {
    /// A candidate asks for a vote in the given term, naming itself.
    RequestVote(usize, String),
    Heartbeat,
}

/// The answer to a `RaftRequest`.
#[derive(PartialEq, Eq, Structural, Debug)]
pub enum RaftResponse {
    /// The vote for the given term, and whether it was granted.
    Vote(usize, bool),
    Heartbeat,
}

} // verus!
