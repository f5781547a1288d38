use pin_vote::session::VotingSession;

#[test]
fn new_session_has_no_votes() {
    let s = VotingSession::new(11, 22, 1000);
    assert_eq!(s.get_vote_count(), 0);
    assert_eq!(s.target_message_id(), 11);
    assert_eq!(s.target_channel_id(), 22);
    assert_eq!(s.created_at(), 1000);
}

#[test]
fn add_vote_twice_counts_once() {
    let mut s = VotingSession::new(1, 2, 0);
    let first = s.add_vote(42);
    let second = s.add_vote(42);
    assert_eq!((first, second), (true, false));
    assert_eq!(s.get_vote_count(), 1);
}

#[test]
fn remove_vote_of_absent_voter_is_noop() {
    let mut s = VotingSession::new(1, 2, 0);
    assert!(s.add_vote(5));
    assert!(!s.remove_vote(6));
    assert_eq!(s.get_vote_count(), 1);
    assert!(s.remove_vote(5));
    assert!(!s.remove_vote(5));
    assert_eq!(s.get_vote_count(), 0);
}

#[test]
fn count_tracks_distinct_voters_over_a_sequence() {
    let mut s = VotingSession::new(1, 2, 0);
    let ops: [(bool, u64, usize); 8] = [
        (true, 1, 1),
        (true, 2, 2),
        (true, 1, 2),
        (false, 3, 2),
        (false, 1, 1),
        (true, 3, 2),
        (false, 2, 1),
        (false, 3, 0),
    ];
    for (cast, voter, expected) in ops {
        if cast {
            s.add_vote(voter);
        } else {
            s.remove_vote(voter);
        }
        assert_eq!(s.get_vote_count(), expected);
    }
}

#[test]
fn expiry_is_strictly_past_max_age() {
    let s = VotingSession::new(1, 2, 1000);
    assert!(!s.is_expired(1000 + 3599, 3600));
    assert!(!s.is_expired(1000 + 3600, 3600));
    assert!(s.is_expired(1000 + 3601, 3600));
}

#[test]
fn clock_before_creation_is_not_expired() {
    let s = VotingSession::new(1, 2, 5000);
    assert!(!s.is_expired(10, 0));
    assert!(s.is_expired(5001, 0));
}
