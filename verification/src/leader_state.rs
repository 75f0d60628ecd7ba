//! Raft roles as a typed state machine: a node is a `LeaderState<Follower>`, a
//! `LeaderState<Candidate>` or a `LeaderState<Leader>`, and each election event is a
//! function from one role to the next.

use vstd::prelude::*;

use crate::election::{term_after, Event};

verus! {

/// A node in role `S` during election term `term`.
#[derive(Debug, Clone)]
pub struct LeaderState<S> {
    pub state: S,
    pub term: usize,
}

impl<S> LeaderState<S> {
    fn new(state: S, term: usize) -> (r: LeaderState<S>)
        ensures
            r.state == state,
            r.term == term,
    {
        LeaderState { state: state, term: term }
    }
}

/// The follower role: remembers whom it voted for in the current term.
#[derive(Debug, Clone)]
pub struct Follower {
    voted_for: Option<String>,
}

/// The candidate role.
#[derive(Debug, Clone)]
pub struct Candidate;

/// The leader role.
#[derive(Debug, Clone)]
pub struct Leader;

/// The candidate a follower voted for, as a string view.
pub open spec fn vote_view(voted_for: Option<String>) -> Option<Seq<char>> {
    match voted_for {
        Some(name) => Some(name@),
        None => None,
    }
}

impl View for Follower {
    type V = Option<Seq<char>>;

    closed spec fn view(&self) -> Option<Seq<char>> {
        vote_view(self.voted_for)
    }
}

impl Follower {
    /// The follower state that has voted for `voted_for`.
    pub closed spec fn no_vote_or(voted_for: Option<String>) -> Follower {
        Follower { voted_for: voted_for }
    }

    /// The follower state that has voted for nobody.
    pub open spec fn no_vote() -> Follower {
        Follower::no_vote_or(None)
    }

    /// The follower state that has voted for nobody has no vote in its view.
    pub proof fn lemma_no_vote_view()
        ensures
            Follower::no_vote()@ == None::<Seq<char>>,
    {
    }

    fn new(voted_for: Option<String>) -> (f: Follower)
        ensures
            f == Follower::no_vote_or(voted_for),
            f@ == vote_view(voted_for),
    {
        Follower { voted_for: voted_for }
    }
}

/// A follower in the term of `m` that has voted for `candidate`.
pub open spec fn after_vote(m: LeaderState<Follower>, candidate: String) -> LeaderState<Follower> {
    LeaderState { state: Follower::no_vote_or(Some(candidate)), term: m.term }
}

/// The last vote wins: voting for `first` and then for `second` gives the same
/// state as voting for `second` alone, and voting twice for the same candidate
/// is voting once. A vote keeps the term and records the candidate.
pub proof fn lemma_last_vote_wins(m: LeaderState<Follower>, first: String, second: String)
    ensures
        after_vote(after_vote(m, first), second) == after_vote(m, second),
        after_vote(after_vote(m, second), second) == after_vote(m, second),
        after_vote(m, second).term == m.term,
        after_vote(m, second).state@ == Some(second@),
{
}

/// The term after `term`; the counter wraps at the largest `usize`.
pub open spec fn next_term(term: usize) -> usize {
    vstd::wrapping::usize_specs::wrapping_add(term, 1)
}

// follower to candidate
impl From<LeaderState<Follower>> for LeaderState<Candidate> {
    fn from(val: LeaderState<Follower>) -> (r: LeaderState<Candidate>)
        ensures
            val.term < usize::MAX ==> r.term == val.term + 1,
            val.term == usize::MAX ==> r.term == 0,
    {
        LeaderState::new(Candidate, val.term.wrapping_add(1))
    }
}

impl vstd::std_specs::convert::FromSpecImpl<LeaderState<Follower>> for LeaderState<Candidate> {
    open spec fn obeys_from_spec() -> bool {
        true
    }

    open spec fn from_spec(v: LeaderState<Follower>) -> LeaderState<Candidate> {
        LeaderState { state: Candidate, term: next_term(v.term) }
    }
}

// candidate to follower (eg. another leader has been elected)
impl From<LeaderState<Candidate>> for LeaderState<Follower> {
    fn from(val: LeaderState<Candidate>) -> (r: LeaderState<Follower>)
        ensures
            val.term < usize::MAX ==> r.term == val.term + 1,
            val.term == usize::MAX ==> r.term == 0,
            r.state@ == None::<Seq<char>>,
    {
        LeaderState::new(Follower::new(None), val.term.wrapping_add(1))
    }
}

impl vstd::std_specs::convert::FromSpecImpl<LeaderState<Candidate>> for LeaderState<Follower> {
    open spec fn obeys_from_spec() -> bool {
        true
    }

    open spec fn from_spec(v: LeaderState<Candidate>) -> LeaderState<Follower> {
        LeaderState { state: Follower::no_vote(), term: next_term(v.term) }
    }
}

// candidate to leader (eg. candidate successfully hit a majority)
impl From<LeaderState<Candidate>> for LeaderState<Leader> {
    fn from(val: LeaderState<Candidate>) -> (r: LeaderState<Leader>)
        ensures
            val.term < usize::MAX ==> r.term == val.term + 1,
            val.term == usize::MAX ==> r.term == 0,
    {
        LeaderState::new(Leader, val.term.wrapping_add(1))
    }
}

impl vstd::std_specs::convert::FromSpecImpl<LeaderState<Candidate>> for LeaderState<Leader> {
    open spec fn obeys_from_spec() -> bool {
        true
    }

    open spec fn from_spec(v: LeaderState<Candidate>) -> LeaderState<Leader> {
        LeaderState { state: Leader, term: next_term(v.term) }
    }
}

/// Everyone starts off as a follower, in term 0, having voted for nobody.
pub fn init_state() -> (r: LeaderState<Follower>)
    ensures
        r.term == 0,
        r.state@ == None::<Seq<char>>,
{
    LeaderState::new(Follower::new(None), 0)
}

/// A follower that received a vote request votes for the candidate; the term stays.
pub fn vote(machine: LeaderState<Follower>, candidate: String) -> (r: LeaderState<Follower>)
    ensures
        r == after_vote(machine, candidate),
        r.term == term_after(Event::Vote, machine.term as nat),
        r.term == machine.term,
        r.state@ == Some(candidate@),
{
    LeaderState::new(Follower::new(Some(candidate)), machine.term)
}

/// Another leader was elected: the follower moves to the next term and forgets its vote.
pub fn complete_vote(machine: LeaderState<Follower>) -> (r: LeaderState<Follower>)
    requires
        machine.term < usize::MAX,
    ensures
        r.term == term_after(Event::CompleteVote, machine.term as nat),
        r.term == machine.term + 1,
        r.state@ == None::<Seq<char>>,
{
    LeaderState::new(Follower::new(None), machine.term + 1)
}

/// A follower whose election timer ran out becomes a candidate in the next term.
pub fn election_timeout(machine: LeaderState<Follower>) -> (r: LeaderState<Candidate>)
    requires
        machine.term < usize::MAX,
    ensures
        r.term == term_after(Event::ElectionTimeout, machine.term as nat),
        r.term == machine.term + 1,
{
    LeaderState::<Candidate>::from(machine)
}

/// No majority was reached: the candidate stays a candidate in the next term.
pub fn failed_majority_timeout(machine: LeaderState<Candidate>) -> (r: LeaderState<Candidate>)
    requires
        machine.term < usize::MAX,
    ensures
        r.term == term_after(Event::FailedMajorityTimeout, machine.term as nat),
        r.term == machine.term + 1,
{
    LeaderState::new(Candidate, machine.term + 1)
}

/// Another candidate won: this one steps down to a follower in the next term, with no vote.
pub fn other_leader_elected(machine: LeaderState<Candidate>) -> (r: LeaderState<Follower>)
    requires
        machine.term < usize::MAX,
    ensures
        r.term == term_after(Event::OtherLeaderElected, machine.term as nat),
        r.term == machine.term + 1,
        r.state@ == None::<Seq<char>>,
{
    LeaderState::<Follower>::from(machine)
}

/// The candidate reached a majority and leads in the next term.
pub fn elected(machine: LeaderState<Candidate>) -> (r: LeaderState<Leader>)
    requires
        machine.term < usize::MAX,
    ensures
        r.term == term_after(Event::Elected, machine.term as nat),
        r.term == machine.term + 1,
{
    LeaderState::<Leader>::from(machine)
}

/// A role change moves to the next term. A follower that times out becomes a
/// candidate, and a candidate that steps down or is elected becomes a follower
/// or a leader: in each case the term of the new role is one more than the
/// term of the old one (and wraps to 0 only from the largest `usize`), and a
/// follower that a candidate steps down to has voted for nobody.
pub proof fn lemma_role_change_advances_term(f: LeaderState<Follower>, c: LeaderState<Candidate>)
    ensures
        f.term < usize::MAX ==> <LeaderState<Candidate> as vstd::std_specs::convert::FromSpec<LeaderState<Follower>>>::from_spec(f).term == f.term + 1,
        c.term < usize::MAX ==> <LeaderState<Follower> as vstd::std_specs::convert::FromSpec<LeaderState<Candidate>>>::from_spec(c).term == c.term + 1,
        c.term < usize::MAX ==> <LeaderState<Leader> as vstd::std_specs::convert::FromSpec<LeaderState<Candidate>>>::from_spec(c).term == c.term + 1,
        f.term == usize::MAX ==> <LeaderState<Candidate> as vstd::std_specs::convert::FromSpec<LeaderState<Follower>>>::from_spec(f).term == 0,
        c.term == usize::MAX ==> <LeaderState<Follower> as vstd::std_specs::convert::FromSpec<LeaderState<Candidate>>>::from_spec(c).term == 0,
        c.term == usize::MAX ==> <LeaderState<Leader> as vstd::std_specs::convert::FromSpec<LeaderState<Candidate>>>::from_spec(c).term == 0,
        <LeaderState<Follower> as vstd::std_specs::convert::FromSpec<LeaderState<Candidate>>>::from_spec(c).state@ == None::<Seq<char>>,
{
}

} // verus!
