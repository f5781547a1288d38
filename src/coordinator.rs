//! The decisions that drive a request from its first vote to its pin.
//!
//! The caller performs the pin itself, between `begin_pin` and `finish_pin`,
//! holding no lock while it waits.

use crate::gate::{may_act, ActionGate, Grant};
use crate::registry::{step_outcome, SessionRegistry, VoteOutcome};
use crate::session::VotingSession;
use vstd::prelude::*;

verus! {

/// Shortest time between two pins in one channel, in milliseconds.
pub const PIN_COOLDOWN_MS: u64 = 5000;

/// Age past which a session is swept, in milliseconds.
pub const SESSION_MAX_AGE_MS: u64 = 3600000;

/// Largest quorum the configuration accepts.
pub const MAX_CONFIRM_CAP: u32 = 10;

/// A configuration that the process must refuse to start with.
#[derive(Debug, Clone, Copy, PartialEq, Eq, Structural)]
pub enum ConfigError {
    /// The quorum lies above `MAX_CONFIRM_CAP`.
    CapOutOfRange,
}

/// Accepts a quorum in `0..=MAX_CONFIRM_CAP` and refuses any other.
pub fn check_confirm_cap(confirm_cap: u32) -> (r: Result<u32, ConfigError>)
    ensures
        confirm_cap <= MAX_CONFIRM_CAP ==> r == Ok::<u32, ConfigError>(confirm_cap),
        confirm_cap > MAX_CONFIRM_CAP ==> r == Err::<u32, ConfigError>(ConfigError::CapOutOfRange),
{
    if confirm_cap > MAX_CONFIRM_CAP {
        Err(ConfigError::CapOutOfRange)
    } else {
        Ok(confirm_cap)
    }
}

/// What to do with a new request.
#[derive(Debug, Clone, Copy, PartialEq, Eq, Structural)]
pub enum RequestStep {
    /// No voting phase: pin at once.
    PinNow,
    /// A session was opened; wait for votes.
    AwaitVotes,
}

/// The message to pin and the channel it lives in.
#[derive(Debug, Clone, Copy, PartialEq, Eq, Structural)]
pub struct PinTarget {
    pub message_id: u64,
    pub channel_id: u64,
}

/// A vote reaches quorum when it is newly counted and lifts the tally to
/// at least `confirm_cap`.
pub open spec fn reaches_quorum(o: VoteOutcome, confirm_cap: u32) -> bool {
    match o {
        VoteOutcome::NoSession => false,
        VoteOutcome::Recorded { changed, count, .. } => changed && count >= confirm_cap,
    }
}

/// A cast vote reaches a quorum of `confirm_cap` exactly when it is its
/// voter's first and lifts the tally to `confirm_cap` or beyond; so of the
/// votes on one session only the one that crosses the threshold calls for the
/// pin, and a vote that finds the session closed never does.
pub proof fn lemma_quorum_crossing(s: VotingSession, voter: u64, confirm_cap: u32, o: VoteOutcome)
    requires
        s.wf(),
        step_outcome(s, voter, true, o),
    ensures
        reaches_quorum(o, confirm_cap) <==> (!s.voter_set().contains(voter) && s.voter_set().len()
            + 1 >= confirm_cap),
        !reaches_quorum(VoteOutcome::NoSession, confirm_cap),
{
}

/// The pin that outcome `o` calls for: its session's message, once quorum
/// is reached.
pub open spec fn quorum_pin(o: VoteOutcome, confirm_cap: u32) -> Option<PinTarget> {
    match o {
        VoteOutcome::Recorded { target_message_id, target_channel_id, .. } => if reaches_quorum(
            o,
            confirm_cap,
        ) {
            Some(PinTarget { message_id: target_message_id, channel_id: target_channel_id })
        } else {
            None
        },
        VoteOutcome::NoSession => None,
    }
}

/// The pin that a vote outcome calls for, if any.
pub fn quorum_target(outcome: &VoteOutcome, confirm_cap: u32) -> (r: Option<PinTarget>)
    ensures
        r == quorum_pin(*outcome, confirm_cap),
{
    match outcome {
        VoteOutcome::NoSession => None,
        VoteOutcome::Recorded { changed, count, target_message_id, target_channel_id } => {
            if *changed && *count >= confirm_cap as usize {
                Some(PinTarget { message_id: *target_message_id, channel_id: *target_channel_id })
            } else {
                None
            }
        },
    }
}

/// The shared state behind every event: the open sessions, the per-channel
/// cooldowns and the quorum.
pub struct BotData {
    voting_sessions: SessionRegistry,
    pin_cooldowns: ActionGate,
    confirm_cap: u32,
}

impl BotData {
    pub closed spec fn cap(&self) -> u32 {
        self.confirm_cap
    }

    pub fn new(confirm_cap: u32) -> (r: Self)
        ensures
            r.cap() == confirm_cap,
    {
        BotData {
            voting_sessions: SessionRegistry::new(),
            pin_cooldowns: ActionGate::new(),
            confirm_cap,
        }
    }

    pub fn confirm_cap(&self) -> (r: u32)
        ensures
            r == self.cap(),
    {
        self.confirm_cap
    }

    /// A new request to pin `target_message_id` in `target_channel_id`: with
    /// a quorum of zero it is to be pinned at once and no session is opened;
    /// otherwise a session opens under `request_id`.
    pub fn open_request(
        &self,
        request_id: u64,
        target_message_id: u64,
        target_channel_id: u64,
        now: u64,
    ) -> (r: RequestStep)
        ensures
            r == (if self.cap() == 0 {
                RequestStep::PinNow
            } else {
                RequestStep::AwaitVotes
            }),
    {
        if self.confirm_cap == 0 {
            RequestStep::PinNow
        } else {
            self.voting_sessions.create_session(request_id, target_message_id, target_channel_id, now);
            RequestStep::AwaitVotes
        }
    }

    /// A vote cast on `request_id`: returns the pin it calls for when it is
    /// the vote that reaches quorum.
    pub fn vote_added(&self, request_id: u64, user_id: u64) -> (r: Option<PinTarget>)
        ensures
            r is None || exists|s: VotingSession, o: VoteOutcome|
                step_outcome(s, user_id, true, o) && r == quorum_pin(o, self.cap()),
    {
        let outcome = self.voting_sessions.cast_vote(request_id, user_id);
        let r = quorum_target(&outcome, self.confirm_cap);
        proof {
            if r is Some {
                let s = choose|s: VotingSession| step_outcome(s, user_id, true, outcome);
                assert(step_outcome(s, user_id, true, outcome) && r == quorum_pin(outcome, self.cap()));
            }
        }
        r
    }

    /// A vote withdrawn from `request_id`.
    pub fn vote_removed(&self, request_id: u64, user_id: u64) -> (r: VoteOutcome)
        ensures
            r is NoSession || exists|s: VotingSession| step_outcome(s, user_id, false, r),
    {
        self.voting_sessions.retract_vote(request_id, user_id)
    }

    /// Asks the cooldown of `channel_id` for leave to pin at `now`; a grant
    /// is recorded at once, and is undone by `pin_failed` if the pin fails.
    pub fn begin_pin(&self, channel_id: u64, now: u64) -> (r: Option<Grant>)
        ensures
            exists|last: Option<u64>|
                {
                    &&& (r is Some <==> may_act(last, now, PIN_COOLDOWN_MS))
                    &&& r matches Some(g) ==> g == (Grant {
                        channel_id: channel_id,
                        granted_at: now,
                        previous: last,
                    })
                },
    {
        self.pin_cooldowns.acquire(channel_id, now, PIN_COOLDOWN_MS)
    }

    /// The pin allowed by `grant` failed: the channel's cooldown goes back to
    /// what it was before the grant, unless another grant has written since.
    pub fn pin_failed(&self, grant: Grant) {
        self.pin_cooldowns.release(grant)
    }

    /// The pin for `request_id` has finished: a successful one closes the
    /// session; after a failed one the session stays as it was.
    pub fn finish_pin(&self, request_id: u64, pinned: bool) -> (closed: bool)
        ensures
            !pinned ==> !closed,
    {
        if pinned {
            self.voting_sessions.remove_session(request_id)
        } else {
            false
        }
    }

    /// The tally of the session of `request_id`, if one is open; see
    /// `SessionRegistry::vote_count`.
    pub fn vote_count(&self, request_id: u64) -> Option<usize> {
        self.voting_sessions.vote_count(request_id)
    }

    /// Sweeps every session older than `SESSION_MAX_AGE_MS` at `now`;
    /// returns the request identifier and opening time of each one removed,
    /// all of them past that age.
    pub fn cleanup_expired_sessions(&self, now: u64) -> (removed: Vec<(u64, u64)>)
        ensures
            forall|i: int| 0 <= i < removed@.len() ==> now - removed@[i].1 > SESSION_MAX_AGE_MS,
    {
        self.voting_sessions.sweep_expired(now, SESSION_MAX_AGE_MS)
    }
}

} // verus!
