use kafka_dashboard::replay::GroupLedger;

#[test]
fn fresh_group_starts_at_earliest() {
    let g = GroupLedger::new();
    let s = g.open_session();
    assert_eq!(s.next, 0);
}

#[test]
fn committed_batch_is_not_redelivered() {
    let mut g = GroupLedger::new();
    let mut s = g.open_session();
    let batch = s.poll_once(3);
    assert_eq!(batch, (0, 3));
    s.commit(&mut g);
    assert_eq!(g.committed, 3);

    // a session re-opened for the same group starts strictly after the
    // last committed offset
    let mut s2 = g.open_session();
    assert_eq!(s2.next, 3);
    let empty = s2.poll_once(3);
    assert_eq!(empty, (3, 3));
    let more = s2.poll_once(5);
    assert_eq!(more, (3, 5));
}

#[test]
fn crash_between_poll_and_commit_redelivers() {
    let mut g = GroupLedger::new();
    let mut s = g.open_session();
    let batch = s.poll_once(2);
    assert_eq!(batch, (0, 2));
    // no commit: the ledger still points at 0, so a new session replays
    let s2 = g.open_session();
    assert_eq!(s2.next, 0);
}
