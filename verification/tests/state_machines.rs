use raft::leader_state;
use raft::state::{RaftState, StateEnum, StateMachine};
use raft::state_machine;

#[test]
fn state_machine_init_is_follower_in_term_zero() {
    let m = StateMachine::init();
    assert_eq!(m.term, 0);
    assert_eq!(format!("{:?}", m.state), "Follower { voted_for: None }");
}

#[test]
fn state_machine_vote_keeps_term_and_records_candidate() {
    let m = StateMachine::init().complete_vote().vote(String::from("n2"));
    assert_eq!(m.term, 1);
    assert_eq!(format!("{:?}", m.state), "Follower { voted_for: Some(\"n2\") }");
}

#[test]
fn state_machine_complete_vote_clears_vote_and_advances_term() {
    let m = StateMachine::init().vote(String::from("n2")).complete_vote();
    assert_eq!(m.term, 1);
    assert_eq!(format!("{:?}", m.state), "Follower { voted_for: None }");
}

#[test]
fn state_machine_election_round() {
    let candidate = StateMachine::init().election_timeout();
    assert_eq!(candidate.term, 1);
    let retry = candidate.failed_majority_timeout();
    assert_eq!(retry.term, 2);
    let leader = retry.elected();
    assert_eq!(leader.term, 3);
}

#[test]
fn state_machine_candidate_steps_down() {
    let follower = StateMachine::init().election_timeout().other_leader_elected();
    assert_eq!(follower.term, 2);
    assert_eq!(format!("{:?}", follower.state), "Follower { voted_for: None }");
}

#[test]
fn state_machine_from_conversions_advance_term() {
    let f = StateMachine::init();
    let c: StateMachine<raft::state::Candidate> = StateMachine::from(f);
    assert_eq!(c.term, 1);
    let l: StateMachine<raft::state::Leader> = StateMachine::from(c.clone());
    assert_eq!(l.term, 2);
    let back: StateMachine<raft::state::Follower> = StateMachine::from(c);
    assert_eq!(back.term, 2);
}

#[test]
fn raft_state_starts_as_follower_and_votes() {
    let mut s = RaftState::new();
    s.vote(String::from("n3"));
    assert_eq!(
        format!("{:?}", s),
        "RaftState { state: Follower(StateMachine { state: Follower { voted_for: Some(\"n3\") }, term: 0 }) }"
    );
    s.vote(String::from("n4"));
    assert_eq!(
        format!("{:?}", s),
        "RaftState { state: Follower(StateMachine { state: Follower { voted_for: Some(\"n4\") }, term: 0 }) }"
    );
}

#[test]
fn state_enum_variants_print_their_role() {
    let e = StateEnum::Leader(StateMachine::init().election_timeout().elected());
    assert_eq!(format!("{:?}", e), "Leader(StateMachine { state: Leader, term: 2 })");
}

#[test]
fn free_transitions_follow_the_election_rules() {
    let f = state_machine::init_state();
    assert_eq!(f.term, 0);
    let f = state_machine::vote(f, String::from("x"));
    assert_eq!(f.term, 0);
    assert_eq!(format!("{:?}", f.state), "Follower { voted_for: Some(\"x\") }");
    let f = state_machine::complete_vote(f);
    assert_eq!(f.term, 1);
    assert_eq!(format!("{:?}", f.state), "Follower { voted_for: None }");
    let c = state_machine::election_timeout(f);
    assert_eq!(c.term, 2);
    let c = state_machine::failed_majority_timeout(c);
    assert_eq!(c.term, 3);
    let l = state_machine::elected(c.clone());
    assert_eq!(l.term, 4);
    let back = state_machine::other_leader_elected(c);
    assert_eq!(back.term, 4);
    assert_eq!(format!("{:?}", back.state), "Follower { voted_for: None }");
}

#[test]
fn leader_state_transitions_follow_the_election_rules() {
    let f = leader_state::init_state();
    assert_eq!(f.term, 0);
    let f = leader_state::vote(f, String::from("y"));
    assert_eq!(f.term, 0);
    assert_eq!(format!("{:?}", f.state), "Follower { voted_for: Some(\"y\") }");
    let f = leader_state::complete_vote(f);
    assert_eq!(f.term, 1);
    let c = leader_state::election_timeout(f);
    assert_eq!(c.term, 2);
    let c = leader_state::failed_majority_timeout(c);
    assert_eq!(c.term, 3);
    let l = leader_state::elected(c.clone());
    assert_eq!(l.term, 4);
    assert_eq!(format!("{:?}", l), "LeaderState { state: Leader, term: 4 }");
    let back = leader_state::other_leader_elected(c);
    assert_eq!(back.term, 4);
    assert_eq!(format!("{:?}", back.state), "Follower { voted_for: None }");
}

#[test]
fn last_vote_wins() {
    let m = StateMachine::init().complete_vote();
    let twice = m.clone().vote(String::from("a")).vote(String::from("b"));
    let once = m.clone().vote(String::from("b"));
    assert_eq!(twice.term, once.term);
    assert_eq!(format!("{:?}", twice), format!("{:?}", once));
    let same = m.clone().vote(String::from("c")).vote(String::from("c"));
    assert_eq!(format!("{:?}", same), format!("{:?}", m.vote(String::from("c"))));
}

#[test]
fn term_counts_non_vote_events_along_a_run() {
    let f = leader_state::init_state();
    let f = leader_state::vote(f, String::from("a"));
    let f = leader_state::complete_vote(f);
    let c = leader_state::election_timeout(f);
    let f = leader_state::other_leader_elected(c);
    let f = leader_state::vote(f, String::from("b"));
    let c = leader_state::election_timeout(f);
    let c = leader_state::failed_majority_timeout(c);
    assert_eq!(c.term, 5);
    assert_eq!(leader_state::elected(c).term, 6);
}
