//! A bound on how often something may happen.

use vstd::prelude::*;

verus! {

/// Allows a burst, and one more each time a period has passed.
pub struct TokenBucket {
    burst: u32,
    period_ms: u64,
    tokens: u32,
    /// When the bucket was last brought up to date.
    since_ms: u64,
}

/// The bucket as its owner sees it.
pub ghost struct Bucket {
    pub burst: nat,
    pub period_ms: nat,
    pub tokens: nat,
    pub since_ms: nat,
}

impl View for TokenBucket {
    type V = Bucket;

    closed spec fn view(&self) -> Bucket {
        Bucket {
            burst: self.burst as nat,
            period_ms: self.period_ms as nat,
            tokens: self.tokens as nat,
            since_ms: self.since_ms as nat,
        }
    }
}

impl Bucket {
    pub open spec fn wf(self) -> bool {
        self.period_ms > 0 && self.tokens <= self.burst
    }

    /// The bucket at `now_ms`: one token more for each whole period, up to
    /// the burst. A clock that runs backwards brings nothing.
    pub open spec fn filled(self, now_ms: nat) -> Bucket {
        if now_ms < self.since_ms {
            self
        } else {
            let earned = (now_ms - self.since_ms) as nat / self.period_ms;
            Bucket {
                tokens: if self.tokens + earned >= self.burst {
                    self.burst
                } else {
                    self.tokens + earned
                },
                since_ms: if self.tokens + earned >= self.burst {
                    now_ms
                } else {
                    self.since_ms + earned * self.period_ms
                },
                ..self
            }
        }
    }

    /// Whether a token was there, and the bucket without it.
    pub open spec fn taken(self, now_ms: nat) -> (bool, Bucket) {
        let b = self.filled(now_ms);
        if b.tokens > 0 {
            (true, Bucket { tokens: (b.tokens - 1) as nat, ..b })
        } else {
            (false, b)
        }
    }
}

impl TokenBucket {
    /// A full bucket.
    pub fn new(burst: u32, period_ms: u64) -> (r: Self)
        requires
            period_ms > 0,
        ensures
            r@ == (Bucket {
                burst: burst as nat,
                period_ms: period_ms as nat,
                tokens: burst as nat,
                since_ms: 0,
            }),
            r@.wf(),
    {
        TokenBucket { burst, period_ms, tokens: burst, since_ms: 0 }
    }

    /// Take a token, if there is one at `now_ms`.
    pub fn take(&mut self, now_ms: u64) -> (r: bool)
        requires
            old(self)@.wf(),
        ensures
            final(self)@.wf(),
            (r, final(self)@) == old(self)@.taken(now_ms as nat),
    {
        if now_ms >= self.since_ms {
            let past: u64 = now_ms - self.since_ms;
            let earned: u64 = past / self.period_ms;
            assert(earned * self.period_ms <= past) by (nonlinear_arith)
                requires
                    earned == past / self.period_ms,
                    self.period_ms > 0,
            ;
            if earned >= (self.burst - self.tokens) as u64 {
                self.tokens = self.burst;
                self.since_ms = now_ms;
            } else {
                self.tokens = self.tokens + earned as u32;
                self.since_ms = self.since_ms + earned * self.period_ms;
            }
        }
        if self.tokens > 0 {
            self.tokens = self.tokens - 1;
            true
        } else {
            false
        }
    }
}

/// Within one moment no more than a burst gets through.
pub proof fn burst_is_the_bound(b: Bucket, now_ms: nat)
    requires
        b.wf(),
        b.tokens == 0,
        b.since_ms <= now_ms < b.since_ms + b.period_ms,
        b.burst > 0,
    ensures
        !b.taken(now_ms).0,
        b.taken(now_ms).1.tokens == 0,
{
    assert((now_ms - b.since_ms) as nat / b.period_ms == 0) by (nonlinear_arith)
        requires
            0 <= now_ms - b.since_ms < b.period_ms,
    ;
}

/// A token is there exactly where one was left or a whole period has passed
/// since the last was earned.
pub proof fn token_is_earned_by_a_period(b: Bucket, now_ms: nat)
    requires
        b.wf(),
        b.burst > 0,
        b.since_ms <= now_ms,
    ensures
        b.taken(now_ms).0 <==> b.tokens > 0 || now_ms >= b.since_ms + b.period_ms,
{
    let d = (now_ms - b.since_ms) as nat;
    let p = b.period_ms;
    if d >= p {
        assert(d / p >= 1) by (nonlinear_arith)
            requires
                d >= p,
                p > 0,
        ;
    } else {
        assert(d / p == 0) by (nonlinear_arith)
            requires
                0 <= d < p,
        ;
    }
}

/// Each whole period earns one token up to the burst, a taken one is gone, and
/// the time that earned none is kept for later.
pub proof fn tokens_are_counted(b: Bucket, k: nat, rest: nat)
    requires
        b.wf(),
        rest < b.period_ms,
        b.tokens + k < b.burst,
        b.tokens + k > 0,
    ensures
        ({
            let (ok, after) = b.taken(b.since_ms + k * b.period_ms + rest);
            &&& ok
            &&& after.tokens == b.tokens + k - 1
            &&& after.since_ms == b.since_ms + k * b.period_ms
            &&& after.burst == b.burst
            &&& after.period_ms == b.period_ms
        }),
{
    let p = b.period_ms as int;
    let d = k * p + rest;
    vstd::arithmetic::div_mod::lemma_fundamental_div_mod_converse(d, p, k as int, rest as int);
}

/// However long nothing was taken, a full bucket gives its burst and no more.
pub proof fn bucket_fills_to_its_burst(b: Bucket, k: nat, rest: nat)
    requires
        b.wf(),
        b.burst > 0,
        rest < b.period_ms,
        b.tokens + k >= b.burst,
    ensures
        ({
            let now = b.since_ms + k * b.period_ms + rest;
            let (ok, after) = b.taken(now);
            &&& ok
            &&& after.tokens == b.burst - 1
            &&& after.since_ms == now
        }),
{
    let p = b.period_ms as int;
    let d = k * p + rest;
    vstd::arithmetic::div_mod::lemma_fundamental_div_mod_converse(d, p, k as int, rest as int);
}

/// A clock that runs backwards earns nothing and loses nothing.
pub proof fn backward_clock_earns_nothing(b: Bucket, now_ms: nat)
    requires
        now_ms < b.since_ms,
    ensures
        b.taken(now_ms).0 <==> b.tokens > 0,
        b.taken(now_ms).1.since_ms == b.since_ms,
        b.tokens > 0 ==> b.taken(now_ms).1.tokens == b.tokens - 1,
        b.tokens == 0 ==> b.taken(now_ms).1 == b,
{
}

} // verus!
