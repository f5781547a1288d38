//! One vote tally, scoped to the request that opened it.

use std::collections::HashSet;
use vstd::prelude::*;

verus! {

broadcast use vstd::std_specs::hash::group_hash_axioms;

/// A vote session: the message to pin, the channel it lives in, who has
/// voted, and when the session was opened.
///
/// The tally is the size of the voter set, so the two never disagree.
pub struct VotingSession {
    target_message_id: u64,
    target_channel_id: u64,
    voters: HashSet<u64>,
    created_at: u64,
}

impl VotingSession {
    /// The voter set is finite, as every set built from the empty one by
    /// single insertions and removals is.
    pub open spec fn wf(&self) -> bool {
        self.voter_set().finite()
    }

    /// The message that a successful vote pins.
    pub closed spec fn target(&self) -> u64 {
        self.target_message_id
    }

    /// The channel in which the vote takes place and the pin is applied.
    pub closed spec fn channel(&self) -> u64 {
        self.target_channel_id
    }

    /// The distinct voters currently counted.
    pub closed spec fn voter_set(&self) -> Set<u64> {
        self.voters@
    }

    /// The time at which the session was opened.
    pub closed spec fn opened_at(&self) -> u64 {
        self.created_at
    }

    /// Opens a session with no votes at time `now`.
    pub fn new(target_message_id: u64, target_channel_id: u64, now: u64) -> (s: Self)
        ensures
            s.target() == target_message_id,
            s.channel() == target_channel_id,
            s.voter_set() == Set::<u64>::empty(),
            s.wf(),
            s.opened_at() == now,
    {
        VotingSession {
            target_message_id,
            target_channel_id,
            voters: HashSet::new(),
            created_at: now,
        }
    }

    /// Counts `user_id`; returns whether this is the first vote of that user.
    pub fn add_vote(&mut self, user_id: u64) -> (newly: bool)
        ensures
            newly == !old(self).voter_set().contains(user_id),
            final(self).voter_set() == old(self).voter_set().insert(user_id),
            old(self).wf() ==> final(self).wf(),
            final(self).target() == old(self).target(),
            final(self).channel() == old(self).channel(),
            final(self).opened_at() == old(self).opened_at(),
    {
        let newly = self.voters.insert(user_id);
        newly
    }

    /// Withdraws the vote of `user_id`; returns whether that user had voted.
    pub fn remove_vote(&mut self, user_id: u64) -> (present: bool)
        ensures
            present == old(self).voter_set().contains(user_id),
            final(self).voter_set() == old(self).voter_set().remove(user_id),
            old(self).wf() ==> final(self).wf(),
            final(self).target() == old(self).target(),
            final(self).channel() == old(self).channel(),
            final(self).opened_at() == old(self).opened_at(),
    {
        let present = self.voters.remove(&user_id);
        present
    }

    /// The current tally: the number of distinct voters counted.
    pub fn get_vote_count(&self) -> (n: usize)
        ensures
            n as nat == self.voter_set().len(),
    {
        self.voters.len()
    }

    /// Whether more than `max_age` has passed between opening and `now`.
    pub fn is_expired(&self, now: u64, max_age: u64) -> (r: bool)
        ensures
            r == (now - self.opened_at() > max_age),
    {
        now > self.created_at && now - self.created_at > max_age
    }

    pub fn target_message_id(&self) -> (r: u64)
        ensures
            r == self.target(),
    {
        self.target_message_id
    }

    pub fn target_channel_id(&self) -> (r: u64)
        ensures
            r == self.channel(),
    {
        self.target_channel_id
    }

    pub fn created_at(&self) -> (r: u64)
        ensures
            r == self.opened_at(),
    {
        self.created_at
    }
}

/// The voter set left by casting the votes of `voters`, one after another in
/// that order, on a session that had none.
pub open spec fn cast_all(voters: Seq<u64>) -> Set<u64>
    decreases voters.len(),
{
    if voters.len() == 0 {
        Set::empty()
    } else {
        cast_all(voters.drop_last()).insert(voters.last())
    }
}

proof fn lemma_cast_all_holds_each(voters: Seq<u64>)
    ensures
        cast_all(voters) == voters.to_set(),
    decreases voters.len(),
{
    if voters.len() > 0 {
        let rest = voters.drop_last();
        lemma_cast_all_holds_each(rest);
        assert forall|x: u64| cast_all(voters).contains(x) <==> voters.contains(x) by {
            if voters.contains(x) && x != voters.last() {
                let i = choose|i: int| 0 <= i < voters.len() && voters[i] == x;
                assert(rest[i] == x);
            }
            if rest.contains(x) {
                let i = choose|i: int| 0 <= i < rest.len() && rest[i] == x;
                assert(voters[i] == x);
            }
            if x == voters.last() {
                assert(voters[voters.len() - 1] == x);
            }
        }
        assert(cast_all(voters) =~= voters.to_set());
    } else {
        assert(cast_all(voters) =~= voters.to_set());
    }
}

/// Votes of distinct voters are never lost: whatever the order in which
/// they are applied, the voter set ends as exactly those voters, and the
/// tally ends at their number.
pub proof fn lemma_distinct_votes_all_count(voters: Seq<u64>)
    requires
        voters.no_duplicates(),
    ensures
        cast_all(voters) == voters.to_set(),
        cast_all(voters).len() == voters.len(),
{
    lemma_cast_all_holds_each(voters);
    voters.unique_seq_to_set();
}

} // verus!
