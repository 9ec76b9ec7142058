use vstd::prelude::*;

verus! {

/// Delay before the first retry, in milliseconds.
pub const BASE_RECONNECT_DELAY_MS: u64 = 250;

/// Upper bound on any retry delay, in milliseconds.
pub const MAX_RECONNECT_DELAY_MS: u64 = 10_000;

/// Number of consecutive failed attempts after which connecting gives up.
pub const MAX_RECONNECT_ATTEMPTS: u32 = 8;

/// The delay that follows failed attempt `attempt` (counted from 1).
pub open spec fn backoff_delay(attempt: nat) -> nat {
    let d = BASE_RECONNECT_DELAY_MS * attempt;
    if d <= MAX_RECONNECT_DELAY_MS { d as nat } else { MAX_RECONNECT_DELAY_MS as nat }
}

/// Delay in milliseconds to wait after failed attempt number `attempts`.
pub fn reconnect_delay(attempts: u32) -> (r: u64)
    ensures
        r == backoff_delay(attempts as nat),
{
    let millis: u64 = BASE_RECONNECT_DELAY_MS * (attempts as u64);
    if millis <= MAX_RECONNECT_DELAY_MS {
        millis
    } else {
        MAX_RECONNECT_DELAY_MS
    }
}

/// The delay for attempt `n` is `min(250 ms * n, 10 s)`: it never exceeds
/// the bound and never decreases as attempts go on.
pub proof fn lemma_backoff_bounded_monotone(n: nat, m: nat)
    ensures
        backoff_delay(n) <= MAX_RECONNECT_DELAY_MS,
        BASE_RECONNECT_DELAY_MS * n <= MAX_RECONNECT_DELAY_MS ==> backoff_delay(n)
            == BASE_RECONNECT_DELAY_MS * n,
        BASE_RECONNECT_DELAY_MS * n > MAX_RECONNECT_DELAY_MS ==> backoff_delay(n)
            == MAX_RECONNECT_DELAY_MS,
        n <= m ==> backoff_delay(n) <= backoff_delay(m),
{
}

} // verus!
