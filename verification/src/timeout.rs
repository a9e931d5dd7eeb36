//! Timeout policy for ephemeral peer negotiation.
//!
//! Each negotiation attempt is bounded by a deadline that starts at a fixed
//! initial duration and grows geometrically with the caller's retry counter,
//! saturating rather than overflowing, and clamped to a fixed ceiling.

use vstd::prelude::*;

verus! {

/// Deadline for the first negotiation attempt, in seconds.
pub const INITIAL_PSK_EXCHANGE_TIMEOUT_SECS: u64 = 8;

/// Ceiling that no negotiation deadline exceeds, in seconds.
pub const MAX_PSK_EXCHANGE_TIMEOUT_SECS: u64 = 48;

/// Geometric growth factor applied once per retry attempt.
pub const PSK_EXCHANGE_TIMEOUT_MULTIPLIER: u64 = 2;

/// `base` multiplied by `mult`, `attempt` times over.
pub open spec fn grown_timeout(base: nat, mult: nat, attempt: nat) -> nat
    decreases attempt,
{
    if attempt == 0 {
        base
    } else {
        mult * grown_timeout(base, mult, (attempt - 1) as nat)
    }
}

/// The deadline for a given retry attempt: the geometrically grown duration,
/// clamped to the ceiling.
pub open spec fn psk_exchange_timeout_spec(attempt: nat) -> nat {
    let grown = grown_timeout(
        INITIAL_PSK_EXCHANGE_TIMEOUT_SECS as nat,
        PSK_EXCHANGE_TIMEOUT_MULTIPLIER as nat,
        attempt,
    );
    if grown >= MAX_PSK_EXCHANGE_TIMEOUT_SECS as nat {
        MAX_PSK_EXCHANGE_TIMEOUT_SECS as nat
    } else {
        grown
    }
}

proof fn lemma_grown_timeout_lower_bound(attempt: nat)
    ensures
        grown_timeout(8, 2, attempt) >= 8,
    decreases attempt,
{
    if attempt > 0 {
        lemma_grown_timeout_lower_bound((attempt - 1) as nat);
    }
}

proof fn lemma_grown_timeout_step_grows(attempt: nat)
    ensures
        grown_timeout(8, 2, attempt) <= grown_timeout(8, 2, attempt + 1),
{
    lemma_grown_timeout_lower_bound(attempt);
}

proof fn lemma_grown_timeout_monotonic(a: nat, b: nat)
    requires
        a <= b,
    ensures
        grown_timeout(8, 2, a) <= grown_timeout(8, 2, b),
    decreases b - a,
{
    if a < b {
        lemma_grown_timeout_monotonic(a, (b - 1) as nat);
        lemma_grown_timeout_step_grows((b - 1) as nat);
    }
}

/// Deadlines never shrink as the retry counter grows, and every deadline lies
/// between the initial duration and the ceiling.
pub proof fn lemma_timeout_monotonic(a: nat, b: nat)
    requires
        a <= b,
    ensures
        psk_exchange_timeout_spec(a) <= psk_exchange_timeout_spec(b),
        INITIAL_PSK_EXCHANGE_TIMEOUT_SECS as nat <= psk_exchange_timeout_spec(a),
        psk_exchange_timeout_spec(a) <= MAX_PSK_EXCHANGE_TIMEOUT_SECS as nat,
{
    lemma_grown_timeout_monotonic(a, b);
    lemma_grown_timeout_lower_bound(a);
}

/// Number of seconds one negotiation attempt may take before it is abandoned.
pub fn psk_exchange_timeout_secs(retry_attempt: u32) -> (t: u64)
    ensures
        t == psk_exchange_timeout_spec(retry_attempt as nat),
        INITIAL_PSK_EXCHANGE_TIMEOUT_SECS <= t <= MAX_PSK_EXCHANGE_TIMEOUT_SECS,
{
    proof {
        reveal_with_fuel(grown_timeout, 4);
    }
    if retry_attempt == 0 {
        8
    } else if retry_attempt == 1 {
        16
    } else if retry_attempt == 2 {
        32
    } else {
        proof {
            assert(grown_timeout(8, 2, 3) == 64);
            lemma_grown_timeout_monotonic(3, retry_attempt as nat);
        }
        48
    }
}

} // verus!
