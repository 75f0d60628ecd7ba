//! A node's election state as one value: `RaftState` holds a `StateEnum`, which
//! is a follower, candidate or leader `StateMachine`, and moves between them.

use vstd::prelude::*;

use crate::election::{term_after, Event};

verus! {

/// The election state of one node.
#[derive(Debug, Clone)]
pub struct RaftState {
    state: StateEnum,
}

/// The role a node is in, with its term.
#[derive(Debug, Clone)]
pub enum StateEnum {
    Follower(StateMachine<Follower>),
    Candidate(StateMachine<Candidate>),
    Leader(StateMachine<Leader>),
}

impl View for RaftState {
    type V = StateEnum;

    closed spec fn view(&self) -> StateEnum {
        self.state
    }
}

impl RaftState {
    /// A fresh node: a follower in term 0 that has voted for nobody.
    pub fn new() -> (r: RaftState)
        ensures
            r@ matches StateEnum::Follower(m) && m.term == 0 && m.state@ == None::<Seq<char>>,
    {
        RaftState { state: StateEnum::Follower(StateMachine::init()) }
    }

    /// A follower votes for `candidate`, keeping its term; a candidate or a
    /// leader ignores the request.
    pub fn vote(&mut self, candidate: String)
        ensures
            match old(self)@ {
                StateEnum::Follower(m) => final(self)@ matches StateEnum::Follower(n)
                    && n == after_vote(m, candidate)
                    && n.term == m.term && n.state@ == Some(candidate@),
                _ => final(self)@ == old(self)@,
            },
    {
        if let StateEnum::Follower(m) = &self.state {
            let term = m.term;
            let machine = StateMachine::new(Follower::new(None), term);
            self.state = StateEnum::Follower(machine.vote(candidate));
        }
    }
}

/// A node in role `S` during election term `term`.
#[derive(Debug, Clone)]
pub struct StateMachine<S> {
    pub state: S,
    pub term: usize,
}

impl<S> StateMachine<S> {
    fn new(state: S, term: usize) -> (r: StateMachine<S>)
        ensures
            r.state == state,
            r.term == term,
    {
        StateMachine { state: state, term: term }
    }
}

impl StateMachine<Follower> {
    /// Everyone starts off as a follower, in term 0, having voted for nobody.
    pub fn init() -> (r: StateMachine<Follower>)
        ensures
            r.term == 0,
            r.state@ == None::<Seq<char>>,
    {
        StateMachine::new(Follower::new(None), 0)
    }

    /// A follower that received a vote request votes for the candidate; the term stays.
    pub fn vote(self, candidate: String) -> (r: StateMachine<Follower>)
        ensures
            r == after_vote(self, candidate),
            r.term == term_after(Event::Vote, self.term as nat),
            r.term == self.term,
            r.state@ == Some(candidate@),
    {
        StateMachine::new(Follower::new(Some(candidate)), self.term)
    }

    /// Another leader was elected: the follower moves to the next term and forgets its vote.
    pub fn complete_vote(self) -> (r: StateMachine<Follower>)
        requires
            self.term < usize::MAX,
        ensures
            r.term == term_after(Event::CompleteVote, self.term as nat),
            r.term == self.term + 1,
            r.state@ == None::<Seq<char>>,
    {
        StateMachine::new(Follower::new(None), self.term + 1)
    }

    /// A follower whose election timer ran out becomes a candidate in the next term.
    pub fn election_timeout(self) -> (r: StateMachine<Candidate>)
        requires
            self.term < usize::MAX,
        ensures
            r.term == term_after(Event::ElectionTimeout, self.term as nat),
            r.term == self.term + 1,
    {
        StateMachine::<Candidate>::from(self)
    }
}

impl StateMachine<Candidate> {
    /// No majority was reached: the candidate stays a candidate in the next term.
    pub fn failed_majority_timeout(self) -> (r: StateMachine<Candidate>)
        requires
            self.term < usize::MAX,
        ensures
            r.term == term_after(Event::FailedMajorityTimeout, self.term as nat),
            r.term == self.term + 1,
    {
        StateMachine::new(Candidate, self.term + 1)
    }

    /// Another candidate won: this one steps down to a follower in the next term, with no vote.
    pub fn other_leader_elected(self) -> (r: StateMachine<Follower>)
        requires
            self.term < usize::MAX,
        ensures
            r.term == term_after(Event::OtherLeaderElected, self.term as nat),
            r.term == self.term + 1,
            r.state@ == None::<Seq<char>>,
    {
        StateMachine::<Follower>::from(self)
    }

    /// The candidate reached a majority and leads in the next term.
    pub fn elected(self) -> (r: StateMachine<Leader>)
        requires
            self.term < usize::MAX,
        ensures
            r.term == term_after(Event::Elected, self.term as nat),
            r.term == self.term + 1,
    {
        StateMachine::<Leader>::from(self)
    }
}

/// The follower role: remembers whom it voted for in the current term.
#[derive(Debug, Clone)]
pub struct Follower {
    voted_for: Option<String>,
}

/// The candidate a follower voted for, as a string view.
pub open spec fn vote_view(voted_for: Option<String>) -> Option<Seq<char>> {
    match voted_for {
        Some(name) => Some(name@),
        None => None,
    }
}

impl View for Follower {
    type V = Option<Seq<char>>;

    closed spec fn view(&self) -> Option<Seq<char>> {
        vote_view(self.voted_for)
    }
}

impl Follower {
    /// The follower state that has voted for `voted_for`.
    pub closed spec fn no_vote_or(voted_for: Option<String>) -> Follower {
        Follower { voted_for: voted_for }
    }

    /// The follower state that has voted for nobody.
    pub open spec fn no_vote() -> Follower {
        Follower::no_vote_or(None)
    }

    /// The follower state that has voted for nobody has no vote in its view.
    pub proof fn lemma_no_vote_view()
        ensures
            Follower::no_vote()@ == None::<Seq<char>>,
    {
    }

    fn new(voted_for: Option<String>) -> (f: Follower)
        ensures
            f == Follower::no_vote_or(voted_for),
            f@ == vote_view(voted_for),
    {
        Follower { voted_for: voted_for }
    }
}

/// The candidate role.
#[derive(Debug, Clone)]
pub struct Candidate;

/// The leader role.
#[derive(Debug, Clone)]
pub struct Leader;

/// A follower in the term of `m` that has voted for `candidate`.
pub open spec fn after_vote(m: StateMachine<Follower>, candidate: String) -> StateMachine<Follower> {
    StateMachine { state: Follower::no_vote_or(Some(candidate)), term: m.term }
}

/// The last vote wins: voting for `first` and then for `second` gives the same
/// state as voting for `second` alone, and voting twice for the same candidate
/// is voting once. A vote keeps the term and records the candidate.
pub proof fn lemma_last_vote_wins(m: StateMachine<Follower>, first: String, second: String)
    ensures
        after_vote(after_vote(m, first), second) == after_vote(m, second),
        after_vote(after_vote(m, second), second) == after_vote(m, second),
        after_vote(m, second).term == m.term,
        after_vote(m, second).state@ == Some(second@),
{
}

/// The term after `term`; the counter wraps at the largest `usize`.
pub open spec fn next_term(term: usize) -> usize {
    vstd::wrapping::usize_specs::wrapping_add(term, 1)
}

// follower to candidate
impl From<StateMachine<Follower>> for StateMachine<Candidate> {
    fn from(val: StateMachine<Follower>) -> (r: StateMachine<Candidate>)
        ensures
            val.term < usize::MAX ==> r.term == val.term + 1,
            val.term == usize::MAX ==> r.term == 0,
    {
        StateMachine::new(Candidate, val.term.wrapping_add(1))
    }
}

impl vstd::std_specs::convert::FromSpecImpl<StateMachine<Follower>> for StateMachine<Candidate> {
    open spec fn obeys_from_spec() -> bool {
        true
    }

    open spec fn from_spec(v: StateMachine<Follower>) -> StateMachine<Candidate> {
        StateMachine { state: Candidate, term: next_term(v.term) }
    }
}

// candidate to follower (eg. another leader has been elected)
impl From<StateMachine<Candidate>> for StateMachine<Follower> {
    fn from(val: StateMachine<Candidate>) -> (r: StateMachine<Follower>)
        ensures
            val.term < usize::MAX ==> r.term == val.term + 1,
            val.term == usize::MAX ==> r.term == 0,
            r.state@ == None::<Seq<char>>,
    {
        StateMachine::new(Follower::new(None), val.term.wrapping_add(1))
    }
}

impl vstd::std_specs::convert::FromSpecImpl<StateMachine<Candidate>> for StateMachine<Follower> {
    open spec fn obeys_from_spec() -> bool {
        true
    }

    open spec fn from_spec(v: StateMachine<Candidate>) -> StateMachine<Follower> {
        StateMachine { state: Follower::no_vote(), term: next_term(v.term) }
    }
}

// candidate to leader (eg. candidate successfully hit a majority)
impl From<StateMachine<Candidate>> for StateMachine<Leader> {
    fn from(val: StateMachine<Candidate>) -> (r: StateMachine<Leader>)
        ensures
            val.term < usize::MAX ==> r.term == val.term + 1,
            val.term == usize::MAX ==> r.term == 0,
    {
        StateMachine::new(Leader, val.term.wrapping_add(1))
    }
}

impl vstd::std_specs::convert::FromSpecImpl<StateMachine<Candidate>> for StateMachine<Leader> {
    open spec fn obeys_from_spec() -> bool {
        true
    }

    open spec fn from_spec(v: StateMachine<Candidate>) -> StateMachine<Leader> {
        StateMachine { state: Leader, term: next_term(v.term) }
    }
}

/// A role change moves to the next term. A follower that times out becomes a
/// candidate, and a candidate that steps down or is elected becomes a follower
/// or a leader: in each case the term of the new role is one more than the
/// term of the old one (and wraps to 0 only from the largest `usize`), and a
/// follower that a candidate steps down to has voted for nobody.
pub proof fn lemma_role_change_advances_term(f: StateMachine<Follower>, c: StateMachine<Candidate>)
    ensures
        f.term < usize::MAX ==> <StateMachine<Candidate> as vstd::std_specs::convert::FromSpec<StateMachine<Follower>>>::from_spec(f).term == f.term + 1,
        c.term < usize::MAX ==> <StateMachine<Follower> as vstd::std_specs::convert::FromSpec<StateMachine<Candidate>>>::from_spec(c).term == c.term + 1,
        c.term < usize::MAX ==> <StateMachine<Leader> as vstd::std_specs::convert::FromSpec<StateMachine<Candidate>>>::from_spec(c).term == c.term + 1,
        f.term == usize::MAX ==> <StateMachine<Candidate> as vstd::std_specs::convert::FromSpec<StateMachine<Follower>>>::from_spec(f).term == 0,
        c.term == usize::MAX ==> <StateMachine<Follower> as vstd::std_specs::convert::FromSpec<StateMachine<Candidate>>>::from_spec(c).term == 0,
        c.term == usize::MAX ==> <StateMachine<Leader> as vstd::std_specs::convert::FromSpec<StateMachine<Candidate>>>::from_spec(c).term == 0,
        <StateMachine<Follower> as vstd::std_specs::convert::FromSpec<StateMachine<Candidate>>>::from_spec(c).state@ == None::<Seq<char>>,
{
}

} // verus!
