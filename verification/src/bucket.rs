//! Token-bucket rate limiting in exact integer arithmetic.
//!
//! A bucket holds whole tokens. Time is counted in whole units of the
//! caller's choosing, and the replenish rate is in tokens per such unit.

use vstd::math::min;
use vstd::prelude::*;

verus! {

/// Tokens on hand after `elapsed` time units of replenishment at `rate` tokens
/// per unit, never more than `capacity`.
pub open spec fn available_tokens(stored: int, capacity: int, rate: int, elapsed: int) -> int {
    min(capacity, stored + rate * elapsed)
}

/// Whether a request costing `cost` tokens is admitted.
pub open spec fn bucket_admits(
    stored: int,
    capacity: int,
    rate: int,
    elapsed: int,
    cost: int,
) -> bool {
    available_tokens(stored, capacity, rate, elapsed) >= cost
}

/// Tokens left in the bucket once the request has been decided: an admitted
/// request pays its cost, a denied one keeps what replenishment added.
pub open spec fn tokens_after(
    stored: int,
    capacity: int,
    rate: int,
    elapsed: int,
    cost: int,
) -> int {
    if bucket_admits(stored, capacity, rate, elapsed, cost) {
        available_tokens(stored, capacity, rate, elapsed) - cost
    } else {
        available_tokens(stored, capacity, rate, elapsed)
    }
}

/// Decides one request against a token bucket and returns the decision with
/// the tokens that remain.
pub fn check_token_bucket(
    current_tokens: u64,
    max_capacity: u64,
    replenish_rate: u64,
    elapsed: u64,
    estimated_tokens: u64,
) -> (decision: (bool, u64))
    ensures
        decision.0 == bucket_admits(
            current_tokens as int,
            max_capacity as int,
            replenish_rate as int,
            elapsed as int,
            estimated_tokens as int,
        ),
        decision.1 == tokens_after(
            current_tokens as int,
            max_capacity as int,
            replenish_rate as int,
            elapsed as int,
            estimated_tokens as int,
        ),
        decision.1 <= max_capacity,
{
    let available: u64 = match replenish_rate.checked_mul(elapsed) {
        Some(gained) => match current_tokens.checked_add(gained) {
            Some(total) => if total <= max_capacity { total } else { max_capacity },
            None => max_capacity,
        },
        None => max_capacity,
    };
    if available >= estimated_tokens {
        (true, available - estimated_tokens)
    } else {
        (false, available)
    }
}

/// The bucket of one caller: the tokens it holds and when they were last
/// brought up to date.
#[derive(Debug, Clone, Copy)]
pub struct RateState {
    pub stored_tokens: u64,
    pub last_update_time: u64,
}

impl RateState {
    /// The bucket of a caller seen for the first time: full.
    pub fn new(max_capacity: u64, now: u64) -> (state: RateState)
        ensures
            state.stored_tokens == max_capacity,
            state.last_update_time == now,
    {
        RateState { stored_tokens: max_capacity, last_update_time: now }
    }

    /// The state that deciding a request at time `now` leaves behind: the
    /// bucket is replenished for the time that has passed since the last
    /// update, pays `cost` if the request is admitted, and is dated `now`.
    pub open spec fn after_request(
        self,
        max_capacity: u64,
        replenish_rate: u64,
        now: u64,
        cost: u64,
    ) -> RateState {
        RateState {
            stored_tokens: tokens_after(
                self.stored_tokens as int,
                max_capacity as int,
                replenish_rate as int,
                now - self.last_update_time,
                cost as int,
            ) as u64,
            last_update_time: now,
        }
    }

    /// Whether a request costing `cost` that arrives at time `now` is
    /// admitted.
    pub open spec fn admits(
        self,
        max_capacity: u64,
        replenish_rate: u64,
        now: u64,
        cost: u64,
    ) -> bool {
        bucket_admits(
            self.stored_tokens as int,
            max_capacity as int,
            replenish_rate as int,
            now - self.last_update_time,
            cost as int,
        )
    }

    /// Decides a request that arrives at time `now` and brings the bucket up
    /// to date, whatever the decision.
    pub fn charge(
        &mut self,
        max_capacity: u64,
        replenish_rate: u64,
        now: u64,
        cost: u64,
    ) -> (admitted: bool)
        requires
            old(self).last_update_time <= now,
        ensures
            admitted == old(self).admits(max_capacity, replenish_rate, now, cost),
            *final(self) == old(self).after_request(max_capacity, replenish_rate, now, cost),
    {
        let elapsed = now - self.last_update_time;
        let (admitted, remaining) = check_token_bucket(
            self.stored_tokens,
            max_capacity,
            replenish_rate,
            elapsed,
            cost,
        );
        self.stored_tokens = remaining;
        self.last_update_time = now;
        admitted
    }
}

/// With no time elapsed the bucket offers what it stored, up to its
/// capacity, and the decision rests on that amount and the cost alone.
pub proof fn lemma_no_time_no_replenishment(stored: u64, capacity: u64, rate: u64, cost: u64)
    ensures
        available_tokens(stored as int, capacity as int, rate as int, 0) == min(
            capacity as int,
            stored as int,
        ),
        bucket_admits(stored as int, capacity as int, rate as int, 0, cost as int) == (min(
            capacity as int,
            stored as int,
        ) >= cost),
{
}

/// What a decision leaves in the bucket is never more than the capacity and
/// never less than nothing.
pub proof fn lemma_remaining_within_bounds(
    stored: u64,
    capacity: u64,
    rate: u64,
    elapsed: u64,
    cost: u64,
)
    ensures
        0 <= tokens_after(
            stored as int,
            capacity as int,
            rate as int,
            elapsed as int,
            cost as int,
        ) <= capacity,
{
}

} // verus!
