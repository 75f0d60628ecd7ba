use raft::raft_log::RaftLog;

#[test]
fn test_append() {
    let mut raftlog = RaftLog::new();
    raftlog.append(String::from("hello world"));
    assert_eq!(raftlog.get(0), Some(String::from("hello world")));
}

#[test]
fn entries_come_back_in_append_order() {
    let mut log = RaftLog::new();
    log.append(7u64);
    log.append(8u64);
    log.append(9u64);
    assert_eq!(log.get(0), Some(7));
    assert_eq!(log.get(1), Some(8));
    assert_eq!(log.get(2), Some(9));
}

#[test]
fn read_after_append_returns_the_new_entry_and_keeps_old_ones() {
    let mut log = RaftLog::new();
    log.append(String::from("a"));
    log.append(String::from("b"));
    assert_eq!(log.get(1), Some(String::from("b")));
    assert_eq!(log.get(0), Some(String::from("a")));
}
