//! The cooldown gate: at most one pin per channel within a cooldown.

use crate::shared_map::new_map;
use dashmap::DashMap;
use vstd::prelude::*;

verus! {

/// Whether a channel whose last recorded action is `last` may act at `now`:
/// it may when it has no record, or when at least `cooldown` has passed since
/// the record. A clock that reads earlier than the record counts as no time
/// passed.
pub open spec fn may_act(last: Option<u64>, now: u64, cooldown: u64) -> bool {
    match last {
        None => true,
        Some(t) => if now >= t {
            now - t >= cooldown
        } else {
            cooldown == 0
        },
    }
}

/// The record a channel holds after an attempt at `now`: `now` when the
/// attempt was granted, the earlier record otherwise.
pub open spec fn record_after(last: Option<u64>, now: u64, cooldown: u64) -> Option<u64> {
    if may_act(last, now, cooldown) {
        Some(now)
    } else {
        last
    }
}

/// Two attempts on a channel with no record, at `first` and then at
/// `second`: the first is granted, and the second is granted exactly when at
/// least `cooldown` separates them. Closer together, one of the two succeeds.
pub proof fn lemma_cooldown_pair(first: u64, second: u64, cooldown: u64)
    requires
        first <= second,
    ensures
        may_act(None, first, cooldown),
        may_act(record_after(None, first, cooldown), second, cooldown) <==> second - first
            >= cooldown,
{
}

/// A granted attempt: the channel, the time the grant recorded, and the
/// record it replaced, so that a failed action can put that record back.
#[derive(Debug, Clone, Copy, PartialEq, Eq, Structural)]
pub struct Grant {
    pub channel_id: u64,
    pub granted_at: u64,
    pub previous: Option<u64>,
}

/// The step on a channel that already has a record, taken under its lock.
/// The record found is reported through `previous`.
pub fn refresh_step(
    last: &mut u64,
    now: u64,
    cooldown: u64,
    granted: &mut bool,
    previous: &mut Option<u64>,
)
    ensures
        *final(granted) == may_act(Some(*old(last)), now, cooldown),
        Some(*final(last)) == record_after(Some(*old(last)), now, cooldown),
        *final(previous) == Some(*old(last)),
{
    *previous = Some(*last);
    let elapsed = if now >= *last {
        now - *last
    } else {
        0
    };
    if elapsed >= cooldown {
        *last = now;
        *granted = true;
    } else {
        *granted = false;
    }
}

/// The step on a channel without a record, taken under its lock: the attempt
/// is granted, `now` becomes the record, and no earlier record is reported.
pub fn first_step(now: u64, granted: &mut bool, previous: &mut Option<u64>) -> (record: u64)
    ensures
        *final(granted),
        *final(previous) is None,
        record == now,
{
    *granted = true;
    *previous = None;
    now
}

/// The step that undoes a grant after its action failed, taken under the
/// channel's lock on the record `last`. Only a record that is still the
/// grant's own is touched: it goes back to the record the grant replaced, or
/// is removed (the result `true`) where there was none. A record written since
/// by another grant stays.
pub fn restore_step(last: &mut u64, granted_at: u64, previous: Option<u64>) -> (remove: bool)
    ensures
        remove == (*old(last) == granted_at && previous is None),
        *final(last) == (if *old(last) == granted_at && previous is Some {
            previous->Some_0
        } else {
            *old(last)
        }),
{
    if *last == granted_at {
        match previous {
            Some(p) => {
                *last = p;
                false
            },
            None => true,
        }
    } else {
        false
    }
}

/// Relies on DashMap::entry, Entry::and_modify and Entry::or_insert_with:
/// the entry of `channel` stays locked for the whole statement; where it is
/// occupied the first closure runs on its value, where it is vacant the
/// second runs and its result is inserted. Exactly one of them runs.
#[verifier::external_body]
fn entry_step(
    map: &DashMap<u64, u64>,
    channel: u64,
    now: u64,
    cooldown: u64,
    granted: &mut bool,
    previous: &mut Option<u64>,
)
    ensures
        exists|last: Option<u64>|
            *final(granted) == may_act(last, now, cooldown) && *final(previous) == last,
{
    map.entry(channel)
        .and_modify(|last| refresh_step(last, now, cooldown, granted, previous))
        .or_insert_with(|| first_step(now, granted, previous));
}

/// Relies on DashMap::remove_if_mut: where `channel` has an entry, the closure
/// runs once on its value under the shard's write lock, and the entry is
/// removed exactly when the closure returns true; where it has none, nothing
/// runs.
#[verifier::external_body]
fn restore_entry(map: &DashMap<u64, u64>, channel: u64, granted_at: u64, previous: Option<u64>) {
    map.remove_if_mut(&channel, |_, last| restore_step(last, granted_at, previous));
}

/// Per channel, the time of the last granted action.
pub struct ActionGate {
    last_action: DashMap<u64, u64>,
}

impl ActionGate {
    pub fn new() -> Self {
        ActionGate { last_action: new_map() }
    }

    /// Checks and records in one step under the channel's lock: grants and
    /// records `now` when the channel may act, else refuses and records
    /// nothing. Two callers on one channel never both see it eligible. A grant
    /// carries the record it replaced.
    pub fn acquire(&self, channel: u64, now: u64, cooldown: u64) -> (r: Option<Grant>)
        ensures
            exists|last: Option<u64>|
                {
                    &&& (r is Some <==> may_act(last, now, cooldown))
                    &&& r matches Some(g) ==> g == (Grant {
                        channel_id: channel,
                        granted_at: now,
                        previous: last,
                    })
                },
    {
        let mut granted = false;
        let mut previous: Option<u64> = None;
        entry_step(&self.last_action, channel, now, cooldown, &mut granted, &mut previous);
        if granted {
            Some(Grant { channel_id: channel, granted_at: now, previous })
        } else {
            None
        }
    }

    /// As `acquire`, reporting only whether the attempt was granted.
    pub fn try_acquire(&self, channel: u64, now: u64, cooldown: u64) -> (granted: bool)
        ensures
            exists|last: Option<u64>| granted == may_act(last, now, cooldown),
    {
        self.acquire(channel, now, cooldown).is_some()
    }

    /// Undoes `grant` after its action failed, so that a failed action leaves
    /// the cooldown as it was: see `restore_step`.
    pub fn release(&self, grant: Grant) {
        restore_entry(&self.last_action, grant.channel_id, grant.granted_at, grant.previous);
    }
}

} // verus!
