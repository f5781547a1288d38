//! The registry: one vote session per request, reachable concurrently.

use crate::session::VotingSession;
use crate::shared_map::new_map;
use dashmap::DashMap;
use vstd::prelude::*;

verus! {

/// What a vote or a withdrawal did to the session of its request.
#[derive(Debug, Clone, Copy, PartialEq, Eq, Structural)]
pub enum VoteOutcome {
    /// No session is open for the request: it was resolved or expired.
    NoSession,
    /// The session was found and the step applied under its lock.
    Recorded {
        /// Whether the voter set changed (a first vote, or a real withdrawal).
        changed: bool,
        /// The tally right after the step.
        count: usize,
        target_message_id: u64,
        target_channel_id: u64,
    },
}

/// `o` is what casting (`cast`) or withdrawing (`!cast`) the vote of `voter`
/// yields on session `s`.
pub open spec fn step_outcome(s: VotingSession, voter: u64, cast: bool, o: VoteOutcome) -> bool {
    let after = if cast {
        s.voter_set().insert(voter)
    } else {
        s.voter_set().remove(voter)
    };
    match o {
        VoteOutcome::NoSession => false,
        VoteOutcome::Recorded { changed, count, target_message_id, target_channel_id } => {
            &&& changed == (cast != s.voter_set().contains(voter))
            &&& count as nat == after.len()
            &&& target_message_id == s.target()
            &&& target_channel_id == s.channel()
        },
    }
}

/// One vote cast twice in a row on a session it is new to: the first cast
/// counts it and raises the tally by exactly one; the second changes
/// nothing and leaves the tally where the first put it.
pub proof fn lemma_repeat_vote(
    first: VotingSession,
    second: VotingSession,
    voter: u64,
    o1: VoteOutcome,
    o2: VoteOutcome,
)
    requires
        first.wf(),
        !first.voter_set().contains(voter),
        step_outcome(first, voter, true, o1),
        second.voter_set() == first.voter_set().insert(voter),
        step_outcome(second, voter, true, o2),
    ensures
        o1 matches VoteOutcome::Recorded { changed, count, .. } && changed && count
            == first.voter_set().len() + 1,
        o2 matches VoteOutcome::Recorded { changed, count, .. } && !changed && count
            == first.voter_set().len() + 1,
{
    assert(second.voter_set().insert(voter) =~= second.voter_set());
}

/// The step applied to one session while its entry is locked: casts or
/// withdraws the vote and reports the result through `out`.
pub fn vote_step(session: VotingSession, voter: u64, cast: bool, out: &mut VoteOutcome) -> (after:
    VotingSession)
    ensures
        step_outcome(session, voter, cast, *final(out)),
        after.voter_set() == (if cast {
            session.voter_set().insert(voter)
        } else {
            session.voter_set().remove(voter)
        }),
        after.target() == session.target(),
        after.channel() == session.channel(),
        after.opened_at() == session.opened_at(),
        session.wf() ==> after.wf(),
{
    let mut s = session;
    let changed = if cast {
        s.add_vote(voter)
    } else {
        s.remove_vote(voter)
    };
    *out = VoteOutcome::Recorded {
        changed,
        count: s.get_vote_count(),
        target_message_id: s.target_message_id(),
        target_channel_id: s.target_channel_id(),
    };
    s
}

/// The verdict of a sweep on the session of `request_id`: keep it unless it
/// is older than `max_age` at `now`. A removed session is listed in `removed`
/// by its request identifier and opening time.
pub fn sweep_step(
    request_id: u64,
    session: &VotingSession,
    now: u64,
    max_age: u64,
    removed: &mut Vec<(u64, u64)>,
) -> (keep: bool)
    ensures
        keep == !(now - session.opened_at() > max_age),
        final(removed)@ == (if keep {
            old(removed)@
        } else {
            old(removed)@.push((request_id, session.opened_at()))
        }),
{
    let keep = !session.is_expired(now, max_age);
    if !keep {
        removed.push((request_id, session.created_at()));
    }
    keep
}

/// Relies on DashMap::insert: the entry for `request_id` holds `session`
/// afterwards, replacing any earlier one.
#[verifier::external_body]
fn insert_entry(map: &DashMap<u64, VotingSession>, request_id: u64, session: VotingSession) {
    map.insert(request_id, session);
}

/// Relies on DashMap::remove: the entry for `request_id`, if any, is taken
/// out and handed back with its key.
#[verifier::external_body]
fn remove_entry(map: &DashMap<u64, VotingSession>, request_id: u64) -> (r: Option<
    (u64, VotingSession),
>)
    ensures
        r matches Some((k, _)) ==> k == request_id,
{
    map.remove(&request_id)
}

/// Relies on DashMap::alter: where `request_id` has an entry, the closure runs
/// once on its value under the entry's write lock and its result replaces
/// the value; where it has none, nothing runs and `out` is left alone.
#[verifier::external_body]
fn alter_entry(
    map: &DashMap<u64, VotingSession>,
    request_id: u64,
    voter: u64,
    cast: bool,
    out: &mut VoteOutcome,
)
    ensures
        *final(out) == *old(out) || exists|s: VotingSession| step_outcome(s, voter, cast, *final(out)),
{
    map.alter(&request_id, |_, s| vote_step(s, voter, cast, out));
}

/// Relies on DashMap::retain: the closure runs on each entry under its
/// shard's write lock, and the entry stays exactly where it returns true.
/// The closure lists a session in `removed` exactly when it returns false,
/// and only sessions older than `max_age` at `now`.
#[verifier::external_body]
fn retain_entries(
    map: &DashMap<u64, VotingSession>,
    now: u64,
    max_age: u64,
    removed: &mut Vec<(u64, u64)>,
)
    ensures
        final(removed)@.len() >= old(removed)@.len(),
        forall|i: int| 0 <= i < old(removed)@.len() ==> final(removed)@[i] == old(removed)@[i],
        forall|i: int|
            old(removed)@.len() <= i < final(removed)@.len() ==> now - final(removed)@[i].1
                > max_age,
{
    map.retain(|k, s| sweep_step(*k, s, now, max_age, removed));
}

/// Relies on DashMap::view: where `request_id` has an entry, the closure runs
/// on it under a read lock and its result comes back in `Some`; else `None`.
#[verifier::external_body]
fn view_count(map: &DashMap<u64, VotingSession>, request_id: u64) -> Option<usize> {
    map.view(&request_id, |_, s| s.get_vote_count())
}

/// Every open vote session, keyed by the identifier of the request that
/// opened it.
pub struct SessionRegistry {
    sessions: DashMap<u64, VotingSession>,
}

impl SessionRegistry {
    pub fn new() -> Self {
        SessionRegistry { sessions: new_map() }
    }

    /// Opens a session for `request_id`, replacing any earlier one under the
    /// same identifier.
    pub fn create_session(&self, request_id: u64, target_message_id: u64, target_channel_id: u64, now: u64) {
        let s = VotingSession::new(target_message_id, target_channel_id, now);
        insert_entry(&self.sessions, request_id, s);
    }

    /// Casts the vote of `voter` on the session of `request_id`, under that
    /// session's lock only.
    pub fn cast_vote(&self, request_id: u64, voter: u64) -> (r: VoteOutcome)
        ensures
            r is NoSession || exists|s: VotingSession| step_outcome(s, voter, true, r),
    {
        let mut out = VoteOutcome::NoSession;
        alter_entry(&self.sessions, request_id, voter, true, &mut out);
        out
    }

    /// Withdraws the vote of `voter` from the session of `request_id`.
    pub fn retract_vote(&self, request_id: u64, voter: u64) -> (r: VoteOutcome)
        ensures
            r is NoSession || exists|s: VotingSession| step_outcome(s, voter, false, r),
    {
        let mut out = VoteOutcome::NoSession;
        alter_entry(&self.sessions, request_id, voter, false, &mut out);
        out
    }

    /// Closes the session of `request_id`; returns whether one was open.
    pub fn remove_session(&self, request_id: u64) -> (removed: bool) {
        remove_entry(&self.sessions, request_id).is_some()
    }

    /// The tally of the session of `request_id`, if one is open: the size of
    /// its voter set at the moment it was read. Other callers may change the
    /// session at any time, so nothing more is stated of the result.
    pub fn vote_count(&self, request_id: u64) -> Option<usize> {
        view_count(&self.sessions, request_id)
    }

    /// Removes every session opened more than `max_age` before `now`;
    /// returns the request identifier and opening time of each one removed.
    /// No session younger than that is ever removed.
    pub fn sweep_expired(&self, now: u64, max_age: u64) -> (removed: Vec<(u64, u64)>)
        ensures
            forall|i: int| 0 <= i < removed@.len() ==> now - removed@[i].1 > max_age,
    {
        let mut removed: Vec<(u64, u64)> = Vec::new();
        retain_entries(&self.sessions, now, max_age, &mut removed);
        removed
    }
}

} // verus!
