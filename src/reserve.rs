use vstd::prelude::*;

use crate::address::Address;
use crate::errors::Error;

verus! {

/// Audit record of one reserve reclaim.
#[derive(Clone, Copy, Debug, PartialEq, Eq)]
pub struct ReserveReclaimed {
    pub destination: Address,
    pub amount: i128,
    pub sweep_id: u64,
    pub fully_reclaimed: bool,
    pub remaining_reserve: i128,
}

/// Reserve owed by an account and the part of it that can be moved now,
/// with a bounded audit trail: the number of reclaim records and the latest one.
#[derive(Clone, Copy, Debug)]
pub struct ReserveState {
    /// Reserve still owed to the account's terminal destination.
    pub remaining: i128,
    /// Reserve currently liquid; may lag behind `remaining`.
    pub available: i128,
    /// Whether the whole reserve has been released.
    pub reclaimed: bool,
    /// Ledger sequence of the sweep or expiry that closed the account.
    pub last_sweep_id: u64,
    /// Number of reclaim records emitted so far.
    pub event_count: u32,
    /// The latest reclaim record.
    pub last_event: Option<ReserveReclaimed>,
}

impl ReserveState {
    /// The owed reserve is never negative, and it is reclaimed exactly when nothing is owed.
    pub open spec fn wf(self) -> bool {
        &&& self.remaining >= 0
        &&& self.reclaimed == (self.remaining == 0)
    }

    /// Tracking as set up for a fresh account holding `base_reserve`.
    pub open spec fn initial(base_reserve: i128) -> ReserveState {
        ReserveState {
            remaining: base_reserve,
            available: base_reserve,
            reclaimed: base_reserve == 0,
            last_sweep_id: 0,
            event_count: 0,
            last_event: None,
        }
    }

    /// How much one reclaim moves: what is owed, capped by what is liquid.
    pub open spec fn reclaim_amount(self) -> i128 {
        if self.available < self.remaining {
            self.available
        } else {
            self.remaining
        }
    }

    /// Outcome of one reclaim toward `destination` tagged with `sweep_id`:
    /// the new tracking state and the amount released, or the error.
    pub open spec fn reclaim(self, destination: Address, sweep_id: u64) -> Result<
        (ReserveState, i128),
        Error,
    > {
        if self.remaining < 0 || self.available < 0 || self.event_count == u32::MAX {
            Err(Error::InvalidAmount)
        } else {
            let amount = self.reclaim_amount();
            let left = (self.remaining - amount) as i128;
            let record = ReserveReclaimed {
                destination,
                amount,
                sweep_id,
                fully_reclaimed: left == 0,
                remaining_reserve: left,
            };
            Ok(
                (
                    ReserveState {
                        remaining: left,
                        available: (self.available - amount) as i128,
                        reclaimed: left == 0,
                        event_count: (self.event_count + 1) as u32,
                        last_event: Some(record),
                        ..self
                    },
                    amount,
                ),
            )
        }
    }

    /// Sets up tracking for a fresh account holding `base_reserve`.
    pub fn new(base_reserve: i128) -> (r: ReserveState)
        ensures
            r == ReserveState::initial(base_reserve),
    {
        ReserveState {
            remaining: base_reserve,
            available: base_reserve,
            reclaimed: base_reserve == 0,
            last_sweep_id: 0,
            event_count: 0,
            last_event: None,
        }
    }

    /// Appends `event` to the audit trail: it becomes the latest record and the
    /// count grows by one. Fails with `InvalidAmount`, changing nothing, when the
    /// count cannot grow.
    pub fn emit_and_store_reserve_event(&mut self, event: ReserveReclaimed) -> (r: Result<
        (),
        Error,
    >)
        ensures
            old(self).event_count == u32::MAX ==> r == Err::<(), Error>(Error::InvalidAmount)
                && *final(self) == *old(self),
            old(self).event_count < u32::MAX ==> r == Ok::<(), Error>(()) && *final(self) == (
            ReserveState {
                event_count: (old(self).event_count + 1) as u32,
                last_event: Some(event),
                ..*old(self)
            }),
    {
        let next_count = match self.event_count.checked_add(1) {
            Some(n) => n,
            None => return Err(Error::InvalidAmount),
        };
        self.last_event = Some(event);
        self.event_count = next_count;
        Ok(())
    }

    /// Releases up to `remaining` toward `destination`, limited by `available`,
    /// and records it. Once nothing is owed it releases 0 and still records the call.
    /// Returns the amount released. On error nothing changes.
    pub fn reclaim_reserve_to(&mut self, destination: Address, sweep_id: u64) -> (r: Result<
        i128,
        Error,
    >)
        ensures
            match old(self).reclaim(destination, sweep_id) {
                Ok((next, amount)) => r == Ok::<i128, Error>(amount) && *final(self) == next,
                Err(e) => r == Err::<i128, Error>(e) && *final(self) == *old(self),
            },
    {
        let reserve_remaining = self.remaining;
        let reserve_available = self.available;

        if reserve_remaining < 0 || reserve_available < 0 {
            return Err(Error::InvalidAmount);
        }
        if self.event_count == u32::MAX {
            return Err(Error::InvalidAmount);
        }

        if reserve_remaining == 0 {
            self.reclaimed = true;
            let event = ReserveReclaimed {
                destination,
                amount: 0,
                sweep_id,
                fully_reclaimed: true,
                remaining_reserve: 0,
            };
            if let Err(e) = self.emit_and_store_reserve_event(event) {
                return Err(e);
            }
            return Ok(0);
        }

        let reclaim_amount = if reserve_available < reserve_remaining {
            reserve_available
        } else {
            reserve_remaining
        };

        let new_available = match reserve_available.checked_sub(reclaim_amount) {
            Some(v) => v,
            None => return Err(Error::InvalidAmount),
        };
        let new_remaining = match reserve_remaining.checked_sub(reclaim_amount) {
            Some(v) => v,
            None => return Err(Error::InvalidAmount),
        };

        self.available = new_available;
        self.remaining = new_remaining;
        self.reclaimed = new_remaining == 0;

        let event = ReserveReclaimed {
            destination,
            amount: reclaim_amount,
            sweep_id,
            fully_reclaimed: new_remaining == 0,
            remaining_reserve: new_remaining,
        };
        if let Err(e) = self.emit_and_store_reserve_event(event) {
            return Err(e);
        }

        Ok(reclaim_amount)
    }
}

/// The tracking state after the reclaims in `calls`, applied in order; a call
/// that fails changes nothing.
pub open spec fn reclaim_all(s: ReserveState, calls: Seq<(Address, u64)>) -> ReserveState
    decreases calls.len(),
{
    if calls.len() == 0 {
        s
    } else {
        let before = reclaim_all(s, calls.drop_last());
        match before.reclaim(calls.last().0, calls.last().1) {
            Ok((next, _)) => next,
            Err(_) => before,
        }
    }
}

/// One reclaim releases a non-negative amount, lowers what is owed by exactly
/// that amount, never below zero, and keeps `reclaimed` true exactly when
/// nothing is owed.
pub proof fn lemma_reclaim_monotonic(s: ReserveState, destination: Address, sweep_id: u64)
    requires
        s.wf(),
    ensures
        s.reclaim(destination, sweep_id) matches Ok((next, amount)) ==> {
            &&& next.wf()
            &&& 0 <= amount
            &&& next.remaining == s.remaining - amount
            &&& next.remaining <= s.remaining
        },
{
}

/// Over any sequence of reclaims, what is owed never grows, never goes below
/// zero, and `reclaimed` stays true exactly when nothing is owed.
pub proof fn lemma_reclaim_sequence_monotonic(s: ReserveState, calls: Seq<(Address, u64)>)
    requires
        s.wf(),
    ensures
        reclaim_all(s, calls).wf(),
        reclaim_all(s, calls).remaining <= s.remaining,
    decreases calls.len(),
{
    if calls.len() > 0 {
        lemma_reclaim_sequence_monotonic(s, calls.drop_last());
        lemma_reclaim_monotonic(reclaim_all(s, calls.drop_last()), calls.last().0, calls.last().1);
    }
}

/// Once nothing is owed, a reclaim releases 0 and leaves the reserve as it was,
/// except that the audit trail counts one more record, a zero record, which
/// becomes the latest.
pub proof fn lemma_settled_reclaim_is_noop(s: ReserveState, destination: Address, sweep_id: u64)
    requires
        s.wf(),
        s.remaining == 0,
        s.available >= 0,
        s.event_count < u32::MAX,
    ensures
        s.reclaim(destination, sweep_id) == Ok::<(ReserveState, i128), Error>(
            (
                ReserveState {
                    event_count: (s.event_count + 1) as u32,
                    last_event: Some(
                        ReserveReclaimed {
                            destination,
                            amount: 0,
                            sweep_id,
                            fully_reclaimed: true,
                            remaining_reserve: 0,
                        },
                    ),
                    ..s
                },
                0i128,
            ),
        ),
{
}

} // verus!
