//! The election events a node goes through, as a model of whole runs: which
//! role each event leads to and how it moves the term. Every transition of
//! `state`, `state_machine` and `leader_state` moves the term by `term_after`
//! of its event.

use vstd::prelude::*;

verus! {

/// An election event, named after the transition that handles it.
pub enum Event {
    Vote,
    CompleteVote,
    ElectionTimeout,
    FailedMajorityTimeout,
    OtherLeaderElected,
    Elected,
}

/// The role a node is in.
pub enum Role {
    Follower,
    Candidate,
    Leader,
}

/// The term after event `e` in term `term`: a vote keeps it, every other event
/// moves to the next term.
pub open spec fn term_after(e: Event, term: nat) -> nat {
    match e {
        Event::Vote => term,
        _ => term + 1,
    }
}

/// The role after event `e` in role `role`, or `None` where no transition
/// handles `e` in that role.
pub open spec fn role_after(e: Event, role: Role) -> Option<Role> {
    match (e, role) {
        (Event::Vote, Role::Follower) => Some(Role::Follower),
        (Event::CompleteVote, Role::Follower) => Some(Role::Follower),
        (Event::ElectionTimeout, Role::Follower) => Some(Role::Candidate),
        (Event::FailedMajorityTimeout, Role::Candidate) => Some(Role::Candidate),
        (Event::OtherLeaderElected, Role::Candidate) => Some(Role::Follower),
        (Event::Elected, Role::Candidate) => Some(Role::Leader),
        _ => None,
    }
}

/// Role and term after the events `events`, starting as a follower in term 0;
/// `None` if some event has no transition in the role the node is in by then.
pub open spec fn run(events: Seq<Event>) -> Option<(Role, nat)>
    decreases events.len(),
{
    if events.len() == 0 {
        Some((Role::Follower, 0))
    } else {
        match run(events.drop_last()) {
            Some((role, term)) => match role_after(events.last(), role) {
                Some(next) => Some((next, term_after(events.last(), term))),
                None => None,
            },
            None => None,
        }
    }
}

/// How many of `events` are not votes.
pub open spec fn non_vote_count(events: Seq<Event>) -> nat
    decreases events.len(),
{
    if events.len() == 0 {
        0
    } else {
        non_vote_count(events.drop_last()) + match events.last() {
            Event::Vote => 0nat,
            _ => 1nat,
        }
    }
}

/// Along any run from the initial state, the term is the number of events
/// that were not votes.
pub proof fn lemma_run_term(events: Seq<Event>)
    ensures
        run(events) matches Some((_, term)) ==> term == non_vote_count(events),
    decreases events.len(),
{
    if events.len() > 0 {
        lemma_run_term(events.drop_last());
    }
}

/// Along any run the term never goes down: every prefix of a run is a run,
/// and its term is at most the term at the end.
pub proof fn lemma_run_term_never_decreases(events: Seq<Event>, k: int)
    requires
        0 <= k <= events.len(),
        run(events) is Some,
    ensures
        run(events.take(k)) is Some,
        run(events.take(k)).unwrap().1 <= run(events).unwrap().1,
    decreases events.len(),
{
    if k < events.len() {
        let shorter = events.drop_last();
        assert(events.take(k) =~= shorter.take(k));
        lemma_run_term_never_decreases(shorter, k);
    } else {
        assert(events.take(k) =~= events);
    }
}

/// The term along a run of transition calls: a node starts in term 0 (as
/// `init`, `init_state` and `RaftState::new` ensure), and each call ensures
/// that its result's term is `term_after` of its event and the term it was
/// given. So if `terms[i]` is the term after the first `i` calls of a run
/// whose events are `events`, every `terms[i]` is the number of those first
/// `i` calls that were not votes, the term never goes down, and it is the
/// term that `run` gives wherever the run is valid.
pub proof fn lemma_term_along_calls(events: Seq<Event>, terms: Seq<nat>)
    requires
        terms.len() == events.len() + 1,
        terms[0] == 0,
        forall|i: int| 0 <= i < events.len() ==> #[trigger] terms[i + 1] == term_after(events[i], terms[i]),
    ensures
        forall|i: int| 0 <= i <= events.len() ==> #[trigger] terms[i] == non_vote_count(events.take(i)),
        forall|i: int, j: int| 0 <= i <= j <= events.len() ==> #[trigger] terms[i] <= #[trigger] terms[j],
        run(events) matches Some((_, term)) ==> term == terms[events.len() as int],
    decreases events.len(),
{
    if events.len() > 0 {
        let n = events.len() as int;
        let shorter = events.drop_last();
        let shorter_terms = terms.drop_last();
        assert forall|i: int| 0 <= i < shorter.len() implies #[trigger] shorter_terms[i + 1] == term_after(shorter[i], shorter_terms[i]) by {
            assert(terms[i + 1] == term_after(events[i], terms[i]));
        }
        lemma_term_along_calls(shorter, shorter_terms);
        assert forall|i: int| 0 <= i <= n implies #[trigger] terms[i] == non_vote_count(events.take(i)) by {
            if i < n {
                assert(shorter_terms[i] == non_vote_count(shorter.take(i)));
                assert(events.take(i) =~= shorter.take(i));
            } else {
                assert(events.take(n) =~= events);
                assert(shorter.take(n - 1) =~= shorter);
                assert(shorter_terms[n - 1] == non_vote_count(shorter.take(n - 1)));
                assert(terms[(n - 1) + 1] == term_after(events[n - 1], terms[n - 1]));
            }
        }
        assert forall|i: int, j: int| 0 <= i <= j <= n implies #[trigger] terms[i] <= #[trigger] terms[j] by {
            if j < n {
                assert(shorter_terms[i] <= shorter_terms[j]);
            } else if i < n {
                assert(shorter_terms[i] <= shorter_terms[n - 1]);
                assert(terms[(n - 1) + 1] == term_after(events[n - 1], terms[n - 1]));
            }
        }
        lemma_run_term(events);
        assert(events.take(n) =~= events);
        assert(terms[n] == non_vote_count(events.take(n)));
    } else {
        lemma_run_term(events);
        assert(events.take(0) =~= events);
        assert(terms[0] == non_vote_count(events.take(0)));
    }
}

} // verus!
