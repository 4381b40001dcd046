//! Exponential backoff for rate-limited page fetches.
use vstd::prelude::*;

verus! {

use vstd::arithmetic::power2::pow2;
use vstd::arithmetic::power2::lemma_pow2_adds;
use vstd::arithmetic::power2::lemma_pow2_strictly_increases;
use vstd::arithmetic::power2::lemma2_to64;
use vstd::arithmetic::power2::lemma2_to64_rest;

/// Largest retry count for which the backoff delay `30 * 2^n` still fits in a `u64`.
pub const MAX_RETRY_EXPONENT: u32 = 59;

/// Backoff delay in seconds before the `n`-th retry of a rate-limited request:
/// `30 * 2^n` (so 60s for the first retry, 120s for the second, 240s for the
/// third, and so on).
pub fn calculate_delay(n: u32) -> (r: u64)
    requires
        n <= MAX_RETRY_EXPONENT,
    ensures
        r == 30 * pow2(n as nat),
{
    proof {
        lemma2_to64();
        lemma2_to64_rest();
    }
    let mut i: u32 = 0;
    let mut d: u64 = 30;
    while i < n
        invariant
            i <= n,
            n <= MAX_RETRY_EXPONENT,
            d == 30 * pow2(i as nat),
        decreases n - i,
    {
        proof {
            lemma_pow2_adds(i as nat, 1);
            lemma2_to64();
            if (i + 1) < 59 {
                lemma_pow2_strictly_increases((i + 1) as nat, 59);
            }
            lemma2_to64_rest();
        }
        d = d * 2;
        i = i + 1;
    }
    d
}

/// Whether an HTTP status code is treated as a retryable rate-limit signal:
/// exactly 403 (forbidden) and 429 (too many requests).
pub fn is_rate_limit_status(status: u16) -> (r: bool)
    ensures
        r <==> (status == 403 || status == 429),
{
    status == 403 || status == 429
}

} // verus!
