//! Byte-budget rate limiter: a continuously refilling token bucket.
//!
//! The bucket is configured with a bytes-per-second ceiling. Writers ask for
//! capacity in whole 1 KiB permits, rounded up, so even a one-byte write
//! consumes a full permit. Refill is steady-rate rather than fixed-window:
//! the budget accrues with every elapsed millisecond, and bursts are capped
//! at one second's budget.
//!
//! The limiter keeps a virtual clock: every operation takes the current time
//! in milliseconds, so its behaviour is a deterministic function of its state
//! and the caller's clock, and the caller decides how to wait out a returned
//! delay.

use vstd::prelude::*;
use vstd::arithmetic::div_mod::lemma_fundamental_div_mod;

verus! {

/// Number of whole 1 KiB permits a write of `bytes` bytes consumes,
/// rounded up, and at least one.
pub open spec fn spec_permits_for(bytes: nat) -> nat {
    if bytes <= 1024 {
        1
    } else {
        ((bytes + 1023) / 1024) as nat
    }
}

/// Budget that a write of `bytes` bytes costs, in milli-byte-tokens:
/// 1024 bytes per permit, 1000 milli-tokens per byte.
pub open spec fn spec_cost(bytes: nat) -> nat {
    spec_permits_for(bytes) * 1024 * 1000
}

/// A token bucket that throttles writes to a configured number of bytes
/// per second.
///
/// The budget is tracked in milli-byte-tokens (a byte of budget is 1000
/// milli-tokens) so that refilling never loses fractions to rounding.
pub struct RateLimiter {
    /// Bytes per second the bucket refills at; at least 1.
    rate: u64,
    /// Milli-byte-tokens currently available, at most one second's budget.
    available: u64,
    /// Virtual time of the last refill, in milliseconds.
    last_refill_ms: u64,
}

impl RateLimiter {
    /// The configured ceiling in bytes per second.
    pub closed spec fn spec_rate(self) -> nat {
        self.rate as nat
    }

    /// The budget on hand, in milli-byte-tokens.
    pub closed spec fn spec_available(self) -> nat {
        self.available as nat
    }

    /// Virtual time of the last refill, in milliseconds.
    pub closed spec fn spec_last_refill(self) -> nat {
        self.last_refill_ms as nat
    }

    /// The largest budget the bucket holds: one second's worth.
    pub open spec fn spec_capacity(self) -> nat {
        self.spec_rate() * 1000
    }

    /// A bucket is well formed when its rate is positive, small enough for
    /// the budget arithmetic never to overflow, and its budget is within
    /// capacity.
    pub closed spec fn wf(self) -> bool {
        &&& 1 <= self.rate <= u32::MAX
        &&& self.available <= self.rate * 1000
    }

    /// The budget on hand once the clock has advanced to `now_ms`:
    /// one second's refill for every elapsed second, capped at capacity.
    /// A clock that stands still, or runs backwards, refills nothing.
    pub open spec fn spec_refilled(self, now_ms: nat) -> nat {
        if now_ms <= self.spec_last_refill() {
            self.spec_available()
        } else if self.spec_available() + self.spec_rate() * (now_ms - self.spec_last_refill())
            >= self.spec_capacity() {
            self.spec_capacity()
        } else {
            (self.spec_available() + self.spec_rate() * (now_ms - self.spec_last_refill())) as nat
        }
    }

    /// The refill clock once it has advanced to `now_ms`: a clock that
    /// runs backwards does not move it.
    pub open spec fn spec_refilled_at(self, now_ms: nat) -> nat {
        if now_ms >= self.spec_last_refill() {
            now_ms
        } else {
            self.spec_last_refill()
        }
    }

    /// Creates a bucket refilling at `bytes_per_second` (a ceiling of zero is
    /// raised to one byte per second). The bucket starts with a full second's
    /// budget on hand, so a burst up to the ceiling passes immediately.
    pub fn new(bytes_per_second: u32) -> (limiter: RateLimiter)
        ensures
            limiter.wf(),
            limiter.spec_rate() == if bytes_per_second == 0 { 1nat } else { bytes_per_second as nat },
            limiter.spec_available() == limiter.spec_capacity(),
            limiter.spec_last_refill() == 0,
    {
        let rate: u64 = if bytes_per_second == 0 { 1 } else { bytes_per_second as u64 };
        RateLimiter { rate, available: rate * 1000, last_refill_ms: 0 }
    }

    /// Brings the budget up to date with the caller's clock.
    fn refill(&mut self, now_ms: u64)
        requires
            old(self).wf(),
        ensures
            final(self).wf(),
            final(self).spec_rate() == old(self).spec_rate(),
            final(self).spec_available() == old(self).spec_refilled(now_ms as nat),
            final(self).spec_last_refill() == if now_ms as nat >= old(self).spec_last_refill() {
                now_ms as nat
            } else {
                old(self).spec_last_refill()
            },
    {
        if now_ms <= self.last_refill_ms {
            if now_ms == self.last_refill_ms {
                assert(self.spec_refilled(now_ms as nat) == self.spec_available());
            }
            return;
        }
        let elapsed: u64 = now_ms - self.last_refill_ms;
        let capacity: u64 = self.rate * 1000;
        if elapsed >= 1000 {
            // A full second or more has passed: the bucket is full whatever
            // it held before.
            assert(self.rate * elapsed >= self.rate * 1000) by (nonlinear_arith)
                requires self.rate >= 1, elapsed >= 1000;
            self.available = capacity;
        } else {
            assert(self.rate * elapsed <= self.rate * 1000) by (nonlinear_arith)
                requires self.rate >= 0, elapsed <= 1000;
            let accrued: u64 = self.rate * elapsed;
            if self.available >= capacity - accrued {
                self.available = capacity;
            } else {
                self.available = self.available + accrued;
            }
        }
        self.last_refill_ms = now_ms;
    }

    /// Cost of a write of `bytes` bytes, in milli-byte-tokens.
    fn cost(bytes: usize) -> (cost: u64)
        requires
            bytes <= u32::MAX,
        ensures
            cost == spec_cost(bytes as nat),
            1024 * 1000 <= cost <= 0x100100000 * 1000,
    {
        let permits: u64 = if bytes <= 1024 {
            1
        } else {
            (bytes as u64 + 1023) / 1024
        };
        assert(permits <= 0x100100000int / 1024) by (nonlinear_arith)
            requires bytes <= u32::MAX, permits == if bytes <= 1024 { 1int } else { (bytes + 1023) as int / 1024 };
        permits * 1024 * 1000
    }

    /// Consumes the budget for a write of `bytes` bytes if the refilled
    /// bucket holds it, without waiting; reports whether it did. When the
    /// budget is exhausted the answer is `false` and nothing is consumed
    /// beyond the refill.
    pub fn try_consume(&mut self, now_ms: u64, bytes: usize) -> (granted: bool)
        requires
            old(self).wf(),
            bytes <= u32::MAX,
        ensures
            final(self).wf(),
            final(self).spec_rate() == old(self).spec_rate(),
            final(self).spec_last_refill() == old(self).spec_refilled_at(now_ms as nat),
            granted == (spec_cost(bytes as nat) <= old(self).spec_refilled(now_ms as nat)),
            granted ==> final(self).spec_available() == old(self).spec_refilled(now_ms as nat)
                - spec_cost(bytes as nat),
            !granted ==> final(self).spec_available() == old(self).spec_refilled(now_ms as nat),
    {
        self.refill(now_ms);
        let cost = Self::cost(bytes);
        if cost <= self.available {
            self.available = self.available - cost;
            true
        } else {
            false
        }
    }

    /// Grants the budget for a write of `bytes` bytes, reporting how many
    /// milliseconds the caller must wait before performing the write: zero
    /// when the refilled bucket already holds the cost, otherwise exactly the
    /// time the bucket needs to accrue the missing budget at its steady rate.
    /// The budget accrued during the wait is consumed with the grant.
    pub fn wait_for_capacity(&mut self, now_ms: u64, bytes: usize) -> (delay_ms: u64)
        requires
            old(self).wf(),
            bytes <= u32::MAX,
        ensures
            final(self).wf(),
            final(self).spec_rate() == old(self).spec_rate(),
            delay_ms == 0 <==> spec_cost(bytes as nat) <= old(self).spec_refilled(now_ms as nat),
            // The refill clock moves to the instant the grant takes
            // effect: the end of the wait, when there is one.
            delay_ms == 0 ==> final(self).spec_last_refill() == old(self).spec_refilled_at(
                now_ms as nat,
            ),
            delay_ms > 0 ==> final(self).spec_last_refill() == if old(self).spec_refilled_at(
                now_ms as nat,
            ) + delay_ms <= u64::MAX {
                old(self).spec_refilled_at(now_ms as nat) + delay_ms
            } else {
                u64::MAX as int
            },
            spec_cost(bytes as nat) <= old(self).spec_refilled(now_ms as nat)
                ==> final(self).spec_available() == old(self).spec_refilled(now_ms as nat)
                    - spec_cost(bytes as nat),
            // The delay is the least whole millisecond count whose
            // steady-rate accrual covers the missing budget.
            spec_cost(bytes as nat) > old(self).spec_refilled(now_ms as nat)
                ==> delay_ms * old(self).spec_rate()
                    >= spec_cost(bytes as nat) - old(self).spec_refilled(now_ms as nat),
            spec_cost(bytes as nat) > old(self).spec_refilled(now_ms as nat)
                ==> (delay_ms - 1) * old(self).spec_rate()
                    < spec_cost(bytes as nat) - old(self).spec_refilled(now_ms as nat),
            // The budget accrued while waiting is consumed with the grant.
            spec_cost(bytes as nat) > old(self).spec_refilled(now_ms as nat)
                ==> final(self).spec_available() == old(self).spec_refilled(now_ms as nat)
                    + delay_ms * old(self).spec_rate() - spec_cost(bytes as nat),
    {
        self.refill(now_ms);
        let cost = Self::cost(bytes);
        if cost <= self.available {
            self.available = self.available - cost;
            0
        } else {
            let missing: u64 = cost - self.available;
            let delay: u64 = (missing + self.rate - 1) / self.rate;
            proof {
                let x = (missing + self.rate - 1) as int;
                let d = self.rate as int;
                lemma_fundamental_div_mod(x, d);
                assert(delay == x / d);
                assert(d * delay == x - x % d);
                assert(delay * self.rate == d * delay) by (nonlinear_arith)
                    requires d == self.rate, delay == delay;
                assert(delay * self.rate >= missing);
                assert(delay >= 1) by (nonlinear_arith)
                    requires
                        delay * self.rate >= missing,
                        missing >= 1,
                        self.rate >= 1,
                        delay >= 0;
                assert((delay - 1) * self.rate == delay * self.rate - self.rate)
                    by (nonlinear_arith);
                assert((delay - 1) * self.rate < missing);
                assert(delay * self.rate <= missing + self.rate - 1);
            }
            let accrued: u64 = delay * self.rate;
            self.available = self.available + accrued - cost;
            self.last_refill_ms = self.last_refill_ms.saturating_add(delay);
            proof {
                assert(self.available < self.rate * 1000) by (nonlinear_arith)
                    requires
                        self.available < self.rate,
                        self.rate >= 1;
            }
            delay
        }
    }
}

/// Once `try_consume` has been refused at some instant, every further
/// request at the same instant, for any write at all, is refused too: a
/// refusal leaves the budget untouched, and no cost is below one permit.
pub proof fn lemma_exhausted_stays_exhausted(
    limiter: RateLimiter,
    refused: RateLimiter,
    now_ms: nat,
    bytes: nat,
    more_bytes: nat,
)
    requires
        spec_cost(bytes) > limiter.spec_refilled(now_ms),
        refused.spec_available() == limiter.spec_refilled(now_ms),
        refused.spec_last_refill() == if now_ms >= limiter.spec_last_refill() {
            now_ms
        } else {
            limiter.spec_last_refill()
        },
        bytes <= 1024,
    ensures
        spec_cost(more_bytes) > refused.spec_refilled(now_ms),
{
    assert(spec_cost(bytes) == 1024 * 1000);
    assert(spec_permits_for(more_bytes) >= 1);
    assert(spec_cost(more_bytes) >= 1024 * 1000) by (nonlinear_arith)
        requires spec_permits_for(more_bytes) >= 1;
    assert(refused.spec_refilled(now_ms) == refused.spec_available());
}

} // verus!
