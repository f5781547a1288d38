use pin_vote::coordinator::{
    check_confirm_cap, quorum_target, BotData, ConfigError, PinTarget, RequestStep,
    MAX_CONFIRM_CAP, PIN_COOLDOWN_MS, SESSION_MAX_AGE_MS,
};
use pin_vote::registry::VoteOutcome;

#[test]
fn confirm_cap_range_is_checked() {
    assert_eq!(check_confirm_cap(0), Ok(0));
    assert_eq!(check_confirm_cap(3), Ok(3));
    assert_eq!(check_confirm_cap(MAX_CONFIRM_CAP), Ok(10));
    assert_eq!(check_confirm_cap(11), Err(ConfigError::CapOutOfRange));
    assert_eq!(check_confirm_cap(u32::MAX), Err(ConfigError::CapOutOfRange));
}

#[test]
fn zero_cap_pins_at_once_without_a_session() {
    let d = BotData::new(0);
    assert_eq!(d.open_request(1, 2, 3, 0), RequestStep::PinNow);
    assert_eq!(d.vote_count(1), None);
    assert_eq!(d.vote_added(1, 50), None);
    assert!(d.begin_pin(3, 0).is_some());
}

#[test]
fn quorum_is_reached_once_at_the_threshold() {
    let d = BotData::new(3);
    assert_eq!(d.confirm_cap(), 3);
    assert_eq!(d.open_request(1, 200, 300, 0), RequestStep::AwaitVotes);
    assert_eq!(d.vote_added(1, 10), None);
    assert_eq!(d.vote_added(1, 11), None);
    let pin = d.vote_added(1, 12);
    assert_eq!(pin, Some(PinTarget { message_id: 200, channel_id: 300 }));
    assert!(d.begin_pin(300, 1000).is_some());
    assert!(d.finish_pin(1, true));
    assert_eq!(d.vote_added(1, 13), None);
    assert_eq!(d.vote_count(1), None);
}

#[test]
fn repeated_vote_does_not_reach_quorum() {
    let d = BotData::new(2);
    d.open_request(1, 2, 3, 0);
    assert_eq!(d.vote_added(1, 10), None);
    assert_eq!(d.vote_added(1, 10), None);
    assert_eq!(d.vote_count(1), Some(1));
}

#[test]
fn failed_pin_keeps_the_session_and_its_count() {
    let d = BotData::new(2);
    d.open_request(5, 20, 30, 0);
    d.vote_added(5, 1);
    assert!(d.vote_added(5, 2).is_some());
    let grant = d.begin_pin(30, 0).unwrap();
    d.pin_failed(grant);
    assert!(!d.finish_pin(5, false));
    assert_eq!(d.vote_count(5), Some(2));
    assert!(d.begin_pin(30, 1).is_some());
    assert_eq!(d.vote_added(5, 3), Some(PinTarget { message_id: 20, channel_id: 30 }));
}

#[test]
fn withdrawn_vote_must_be_cast_again() {
    let d = BotData::new(2);
    d.open_request(1, 2, 3, 0);
    d.vote_added(1, 10);
    assert_eq!(
        d.vote_removed(1, 10),
        VoteOutcome::Recorded { changed: true, count: 0, target_message_id: 2, target_channel_id: 3 }
    );
    assert_eq!(d.vote_added(1, 11), None);
    assert_eq!(d.vote_added(1, 10), Some(PinTarget { message_id: 2, channel_id: 3 }));
    assert_eq!(d.vote_removed(9, 10), VoteOutcome::NoSession);
}

#[test]
fn pin_cooldown_is_per_channel() {
    let d = BotData::new(1);
    assert!(d.begin_pin(3, 0).is_some());
    assert!(d.begin_pin(3, PIN_COOLDOWN_MS - 1).is_none());
    assert!(d.begin_pin(4, 1).is_some());
    assert!(d.begin_pin(3, PIN_COOLDOWN_MS).is_some());
}

#[test]
fn cleanup_sweeps_sessions_past_max_age() {
    let d = BotData::new(2);
    d.open_request(1, 2, 3, 100);
    d.open_request(4, 5, 6, 200);
    assert!(d.cleanup_expired_sessions(100 + SESSION_MAX_AGE_MS).is_empty());
    assert_eq!(d.cleanup_expired_sessions(101 + SESSION_MAX_AGE_MS), vec![(1, 100)]);
    assert_eq!(d.vote_count(1), None);
    assert_eq!(d.vote_count(4), Some(0));
}

#[test]
fn quorum_target_needs_a_new_vote_at_the_cap() {
    let hit = VoteOutcome::Recorded { changed: true, count: 3, target_message_id: 8, target_channel_id: 9 };
    let repeat = VoteOutcome::Recorded { changed: false, count: 3, target_message_id: 8, target_channel_id: 9 };
    let short = VoteOutcome::Recorded { changed: true, count: 2, target_message_id: 8, target_channel_id: 9 };
    assert_eq!(quorum_target(&hit, 3), Some(PinTarget { message_id: 8, channel_id: 9 }));
    assert_eq!(quorum_target(&repeat, 3), None);
    assert_eq!(quorum_target(&short, 3), None);
    assert_eq!(quorum_target(&VoteOutcome::NoSession, 3), None);
}

#[test]
fn failed_pin_then_immediate_retry_is_granted() {
    let d = BotData::new(1);
    let grant = d.begin_pin(3, 1000).unwrap();
    d.pin_failed(grant);
    assert!(d.begin_pin(3, 1001).is_some());
    assert!(d.begin_pin(3, 1002).is_none());
}

#[test]
fn failed_pin_restores_the_earlier_cooldown() {
    let d = BotData::new(1);
    assert!(d.begin_pin(3, 0).is_some());
    let grant = d.begin_pin(3, PIN_COOLDOWN_MS).unwrap();
    d.pin_failed(grant);
    assert!(d.begin_pin(3, PIN_COOLDOWN_MS + 1).is_some());
}
