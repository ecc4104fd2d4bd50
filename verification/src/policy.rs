//! Reconnect behaviour for the realtime event stream: whether the stream is
//! retried after a failure, and how long to wait before each attempt.
//!
//! The delay before attempt `n` (counting failures since the last successful
//! connect, starting at zero) is `initial_delay * backoff_factor^n`, capped at
//! the configured maximum.

use vstd::prelude::*;

verus! {

/// Configuration for the stream's reconnect behaviour. Durations are in
/// milliseconds. Immutable once built.
#[derive(Clone, Copy, Debug)]
pub struct ReconnectOptions {
    /// Whether the very first connection attempt is retried if it fails
    /// outright; failures after a successful connect are governed by
    /// `reconnect` alone.
    pub retry_initial: bool,
    /// Whether the stream is retried at all after an error.
    pub reconnect: bool,
    /// The wait before the first reconnect attempt, in milliseconds.
    pub delay_ms: u64,
    /// The factor by which the wait grows for each further attempt; a factor
    /// of one disables growth.
    pub backoff_factor: u32,
    /// The largest wait between attempts, in milliseconds.
    pub delay_max_ms: u64,
}

/// `base^exp` over naturals.
pub open spec fn spec_pow(base: nat, exp: nat) -> nat
    decreases exp,
{
    if exp == 0 {
        1
    } else {
        base * spec_pow(base, (exp - 1) as nat)
    }
}

/// The delay, in milliseconds, before reconnect attempt `n`:
/// `delay_ms * backoff_factor^n`, capped at `delay_max_ms`.
pub open spec fn spec_delay(o: ReconnectOptions, n: nat) -> int {
    let raw = o.delay_ms * spec_pow(o.backoff_factor as nat, n);
    if raw <= o.delay_max_ms {
        raw as int
    } else {
        o.delay_max_ms as int
    }
}

impl Default for ReconnectOptions {
    /// The default behaviour: reconnect after a stream error but not after a
    /// failed initial connection, waiting 1 second before the first attempt
    /// and backing off exponentially up to 1 minute.
    fn default() -> (r: ReconnectOptions)
        ensures
            !r.retry_initial,
            r.reconnect,
            r.delay_ms == 1000,
            r.backoff_factor == 2,
            r.delay_max_ms == 60000,
    {
        ReconnectOptions {
            retry_initial: false,
            reconnect: true,
            delay_ms: 1000,
            backoff_factor: 2,
            delay_max_ms: 60000,
        }
    }
}

impl ReconnectOptions {
    /// Start building a `ReconnectOptions`, by enabling or disabling
    /// reconnection on stream error.
    pub fn reconnect(reconnect: bool) -> (b: ReconnectOptionsBuilder)
        ensures
            b.opts.reconnect == reconnect,
            !b.opts.retry_initial,
            b.opts.delay_ms == 1000,
            b.opts.backoff_factor == 2,
            b.opts.delay_max_ms == 60000,
    {
        ReconnectOptionsBuilder::new(reconnect)
    }

    /// The delay, in milliseconds, before reconnect attempt `attempt`
    /// (0-based, counting failures since the last successful connect).
    pub fn delay_for_attempt(&self, attempt: u32) -> (d: u64)
        ensures
            d == spec_delay(*self, attempt as nat),
    {
        let f: u64 = self.backoff_factor as u64;
        let mut d: u64 = if self.delay_ms <= self.delay_max_ms {
            self.delay_ms
        } else {
            self.delay_max_ms
        };
        let mut i: u32 = 0;
        proof {
            assert(spec_pow(self.backoff_factor as nat, 0) == 1);
        }
        while i < attempt
            invariant
                i <= attempt,
                f == self.backoff_factor,
                d <= self.delay_max_ms,
                d == spec_delay(*self, i as nat),
            decreases attempt - i,
        {
            proof {
                assert((d as int) * (f as int) < 0x100000000000000000000000000000000)
                    by (nonlinear_arith)
                    requires
                        d < 0x10000000000000000,
                        f < 0x10000000000000000,
                ;
            }
            let prod: u128 = (d as u128) * (f as u128);
            let nd: u64 = if prod > self.delay_max_ms as u128 {
                self.delay_max_ms
            } else {
                prod as u64
            };
            proof {
                let dm = self.delay_ms as int;
                let ff = self.backoff_factor as int;
                let m = self.delay_max_ms as int;
                let p = spec_pow(self.backoff_factor as nat, i as nat) as int;
                assert(spec_pow(self.backoff_factor as nat, (i + 1) as nat) == self.backoff_factor
                    * spec_pow(self.backoff_factor as nat, i as nat));
                assert(dm * (ff * p) == (dm * p) * ff) by (nonlinear_arith);
                lemma_clamp_step(dm * p, ff, m);
                assert(dm * p >= 0) by (nonlinear_arith)
                    requires
                        dm >= 0,
                        p >= 0,
                ;
            }
            d = nd;
            i = i + 1;
        }
        d
    }
}

/// Capping the running product at the maximum after every step gives the same
/// result as capping the full product once, because the factor is nonnegative.
proof fn lemma_clamp_step(a: int, f: int, m: int)
    requires
        a >= 0,
        f >= 0,
        m >= 0,
    ensures
        (if a * f <= m {
            a * f
        } else {
            m
        }) == (if (if a <= m {
            a
        } else {
            m
        }) * f <= m {
            (if a <= m {
                a
            } else {
                m
            }) * f
        } else {
            m
        }),
{
    if a > m {
        if f == 0 {
            assert(m * f == 0) by (nonlinear_arith)
                requires
                    f == 0,
            ;
            assert(a * f == 0) by (nonlinear_arith)
                requires
                    f == 0,
            ;
        } else {
            assert(m * f >= m) by (nonlinear_arith)
                requires
                    f >= 1,
                    m >= 0,
            ;
            assert(a * f >= m * f) by (nonlinear_arith)
                requires
                    a >= m,
                    f >= 0,
            ;
        }
    }
}

/// The delay for an attempt never exceeds the configured maximum, whatever
/// the attempt index.
pub proof fn lemma_delay_never_exceeds_max(o: ReconnectOptions, n: nat)
    ensures
        spec_delay(o, n) <= o.delay_max_ms,
{
}

/// With a backoff factor of at least one, the delay sequence never decreases
/// from one attempt to the next.
pub proof fn lemma_delay_nondecreasing(o: ReconnectOptions, n: nat)
    requires
        o.backoff_factor >= 1,
    ensures
        spec_delay(o, n) <= spec_delay(o, n + 1),
{
    let f = o.backoff_factor as nat;
    let p0 = spec_pow(f, n);
    let p1 = spec_pow(f, n + 1);
    assert(p1 == f * p0);
    assert(p0 <= f * p0) by (nonlinear_arith)
        requires
            f >= 1,
    ;
    assert(o.delay_ms * p0 <= o.delay_ms * p1) by (nonlinear_arith)
        requires
            p0 <= p1,
    ;
}

/// Builder for [`ReconnectOptions`].
pub struct ReconnectOptionsBuilder {
    pub opts: ReconnectOptions,
}

impl ReconnectOptionsBuilder {
    /// A builder seeded with the default options and the given reconnect
    /// setting.
    pub fn new(reconnect: bool) -> (b: Self)
        ensures
            b.opts.reconnect == reconnect,
            !b.opts.retry_initial,
            b.opts.delay_ms == 1000,
            b.opts.backoff_factor == 2,
            b.opts.delay_max_ms == 60000,
    {
        let mut opts = ReconnectOptions::default();
        opts.reconnect = reconnect;
        ReconnectOptionsBuilder { opts }
    }

    /// Configure whether to retry if the initial connection fails.
    pub fn retry_initial(self, retry: bool) -> (b: Self)
        ensures
            b.opts == (ReconnectOptions { retry_initial: retry, ..self.opts }),
    {
        let mut s = self;
        s.opts.retry_initial = retry;
        s
    }

    /// Configure the initial delay before trying to reconnect, in
    /// milliseconds.
    pub fn delay(self, delay_ms: u64) -> (b: Self)
        ensures
            b.opts == (ReconnectOptions { delay_ms: delay_ms, ..self.opts }),
    {
        let mut s = self;
        s.opts.delay_ms = delay_ms;
        s
    }

    /// Configure the factor by which delays between reconnect attempts grow.
    pub fn backoff_factor(self, factor: u32) -> (b: Self)
        ensures
            b.opts == (ReconnectOptions { backoff_factor: factor, ..self.opts }),
    {
        let mut s = self;
        s.opts.backoff_factor = factor;
        s
    }

    /// Configure the maximum delay between reconnects, in milliseconds.
    pub fn delay_max(self, max_ms: u64) -> (b: Self)
        ensures
            b.opts == (ReconnectOptions { delay_max_ms: max_ms, ..self.opts }),
    {
        let mut s = self;
        s.opts.delay_max_ms = max_ms;
        s
    }

    /// Finish building the `ReconnectOptions`. The options must satisfy the
    /// policy invariant: a growth factor of at least one, and a maximum delay
    /// no smaller than the initial delay.
    pub fn build(self) -> (r: ReconnectOptions)
        requires
            self.opts.backoff_factor >= 1,
            self.opts.delay_max_ms >= self.opts.delay_ms,
        ensures
            r == self.opts,
    {
        self.opts
    }
}

} // verus!
